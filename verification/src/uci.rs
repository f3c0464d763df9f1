//! The messages of the Universal Chess Interface, as values.
//!
//! Commands go to an engine and remarks come back.  Turning either into a
//! line of text, or a line into a remark, is the caller's business: these
//! types hold what the session reads and writes.

use vstd::prelude::*;
use cozy_chess::Board;
use crate::chess::Move;
use crate::duration::Duration;

verus! {

/// How moves are written on the wire.
#[derive(Debug, Clone, Copy, PartialEq, Eq, Structural)]
pub struct UciFormatOptions {
    /// Castling is written as the king taking its own rook.
    pub chess960: bool,
    /// Scores carry win, draw and loss estimates.
    pub wdl: bool,
}

/// Where a `position` command starts from.
#[derive(Debug, Clone, PartialEq, Eq)]
pub enum UciInitPos {
    StartPos,
    Board(Board),
}

/// How long a search may take.  Times are in milliseconds, the unit of the
/// wire format.
#[derive(Debug, Clone, Copy, PartialEq, Eq, Structural)]
pub enum UciTimeControl {
    Infinite,
    MoveTime(u64),
    TimeLeft {
        white_time: Option<u64>,
        black_time: Option<u64>,
        white_increment: Option<u64>,
        black_increment: Option<u64>,
        moves_to_go: Option<u32>,
    },
}

/// The parameters of a `go` command.
#[derive(Debug, Clone, Copy, PartialEq, Eq, Structural)]
pub struct UciGoParams {
    pub depth: Option<u32>,
    pub nodes: Option<u64>,
    pub time_control: Option<UciTimeControl>,
}

/// What the session says to an engine.
#[derive(Debug, Clone, PartialEq, Eq)]
pub enum UciCommand {
    Uci,
    SetOption { name: String, value: Option<String> },
    Position { init_pos: UciInitPos, moves: Vec<Move> },
    Go(UciGoParams),
}

/// How an engine names itself.
#[derive(Debug, Clone, PartialEq, Eq)]
pub enum UciIdInfo {
    Name(String),
    Author(String),
}

/// How an engine describes an option it offers.
#[allow(inconsistent_fields)]
#[derive(Debug, Clone, PartialEq, Eq)]
pub enum UciOptionInfo {
    Check { default: bool },
    Spin { default: i64, min: i64, max: i64 },
    Combo { default: String, labels: Vec<String> },
    Button,
    String { default: String },
}

/// An engine's judgement of a position.
#[derive(Debug, Clone, Copy, PartialEq, Eq, Structural)]
pub enum UciScore {
    Centipawn(i32),
    Mate(i32),
}

/// What an engine reports while it searches.
#[derive(Debug, Clone, PartialEq, Eq)]
pub struct UciInfo {
    pub depth: Option<u32>,
    pub seldepth: Option<u32>,
    pub time: Option<Duration>,
    pub nodes: Option<u64>,
    pub pv: Option<Vec<Move>>,
    pub score: Option<UciScore>,
    pub hashfull: Option<u16>,
    pub nps: Option<u64>,
    pub tbhits: Option<u64>,
}

/// What an engine says to the session.
#[derive(Debug, Clone, PartialEq, Eq)]
pub enum UciRemark {
    UciOk,
    ReadyOk,
    Id(UciIdInfo),
    Option { name: String, info: UciOptionInfo },
    Info(UciInfo),
    BestMove { mv: Move, ponder: Option<Move> },
    /// Any other remark, as text.
    Other(String),
}

} // verus!
