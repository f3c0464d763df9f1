//! What an analysis is asked for and what it reports.

use vstd::prelude::*;
use cozy_chess::Board;
use crate::chess::Move;
use crate::duration::Duration;
use crate::engine::error::EngineError;
use crate::engine::uci_convert::{canonicalize_move, spec_canonicalize_move};
use crate::uci::{UciInfo, UciRemark};

verus! {

/// The limits of one search.
#[derive(Debug, Clone, Copy, PartialEq, Eq, Structural)]
pub struct AnalysisLimit {
    pub search_limit: Option<AnalysisSearchLimit>,
    pub time_limit: Option<AnalysisTimeLimit>,
}

/// Limits on the work of a search.
#[derive(Debug, Clone, Copy, PartialEq, Eq, Structural)]
pub struct AnalysisSearchLimit {
    pub nodes: Option<u64>,
    pub depth: Option<u32>,
}

/// Limits on the time of a search.
#[derive(Debug, Clone, Copy, PartialEq, Eq, Structural)]
pub enum AnalysisTimeLimit {
    Infinite,
    MoveTime(Duration),
    TimeLeft {
        white_time: Option<Duration>,
        black_time: Option<Duration>,
        white_increment: Option<Duration>,
        black_increment: Option<Duration>,
        moves_to_go: Option<u32>,
    },
}

/// What an analysis yields, one at a time.
#[derive(Debug, Clone, PartialEq, Eq)]
pub enum EngineAnalysisEvent {
    Info(UciInfo),
    BestMove(Move),
    EngineError(EngineError),
}

impl EngineAnalysisEvent {
    /// Whether the analysis ends with this event: the best move is its last
    /// word.
    pub open spec fn spec_is_last(self) -> bool {
        self is BestMove
    }

    /// Whether the analysis ends with this event.
    pub fn is_last(&self) -> (r: bool)
        ensures
            r == self.spec_is_last(),
    {
        match self {
            EngineAnalysisEvent::BestMove(_) => true,
            _ => false,
        }
    }
}

/// An analysis under way: the board it searches, and how its moves are
/// written.
#[derive(Debug, Clone)]
pub struct EngineAnalysis {
    board: Board,
    chess960: bool,
}

/// What an analysis makes of what the engine sent, or of its silence: `None`
/// stands for an engine that closed its output.
pub open spec fn spec_analysis_step(board: Board, chess960: bool, event: Option<UciRemark>) -> Result<
    EngineAnalysisEvent,
    EngineError,
> {
    match event {
        None => Err(EngineError::UnexpectedTermination),
        Some(UciRemark::Info(info)) => Ok(EngineAnalysisEvent::Info(info)),
        Some(UciRemark::BestMove { mv, ponder }) => Ok(
            EngineAnalysisEvent::BestMove(spec_canonicalize_move(board, mv, chess960)),
        ),
        Some(other) => Ok(EngineAnalysisEvent::EngineError(EngineError::UnexpectedRemark(other))),
    }
}

impl EngineAnalysis {
    /// The board under analysis.
    pub closed spec fn spec_board(self) -> Board {
        self.board
    }

    /// Whether moves are written as in Chess960.
    pub closed spec fn spec_chess960(self) -> bool {
        self.chess960
    }

    /// An analysis of `board`.
    pub fn new(board: Board, chess960: bool) -> (r: EngineAnalysis)
        ensures
            r.spec_board() == board,
            r.spec_chess960() == chess960,
    {
        EngineAnalysis { board, chess960 }
    }

    /// Takes what the engine sent next, or `None` where it closed its output,
    /// and gives the event to yield.  Search reports pass through; the best
    /// move comes in the encoding the library keeps, and ends the analysis;
    /// any other remark is yielded as an error without ending it; a closed
    /// output fails it.
    pub fn next(&self, event: Option<UciRemark>) -> (r: Result<EngineAnalysisEvent, EngineError>)
        ensures
            r == spec_analysis_step(self.spec_board(), self.spec_chess960(), event),
    {
        match event {
            None => Err(EngineError::UnexpectedTermination),
            Some(UciRemark::Info(info)) => Ok(EngineAnalysisEvent::Info(info)),
            Some(UciRemark::BestMove { mv, ponder }) => Ok(
                EngineAnalysisEvent::BestMove(canonicalize_move(&self.board, mv, self.chess960)),
            ),
            Some(other) => Ok(
                EngineAnalysisEvent::EngineError(EngineError::UnexpectedRemark(other)),
            ),
        }
    }
}

} // verus!
