//! A match between two engines.
//!
//! The match does not run the engines.  It says whose move it is and under
//! what limits to search, takes what the analysis yields and how long it
//! took, keeps the clocks and the game, and names the winner.

use vstd::prelude::*;
use crate::board::{side_to_move, spec_is_legal};
use crate::chess::{Color, GameStatus, Move};
use crate::duration::{Duration, MAX_NANOS};
use crate::engine::analysis::{
    AnalysisLimit, AnalysisSearchLimit, AnalysisTimeLimit, EngineAnalysisEvent,
};
use crate::engine::error::EngineError;
use crate::game::{ChessGame, ChessGameView};
use crate::time_control::TimeControl;

verus! {

/// How the two sides are to play.
#[derive(Debug, Clone, Copy, PartialEq, Eq, Structural)]
pub struct EngineMatchConfig {
    pub white_time_control: EngineMatchTimeConfig,
    pub black_time_control: EngineMatchTimeConfig,
}

/// How one side is to play.
#[derive(Debug, Clone, Copy, PartialEq, Eq, Structural)]
pub struct EngineMatchTimeConfig {
    pub search_limit: Option<AnalysisSearchLimit>,
    pub clock: ChessClockState,
}

/// The clock of one side.
#[derive(Debug, Clone, Copy, PartialEq, Eq, Structural)]
pub enum ChessClockState {
    /// No limit on time.
    Infinite,
    /// The same time for every move.
    MoveTime(Duration),
    /// Time that runs down, with an increment for every move.
    Clock(TimeControl),
}

/// What a match reports.
#[derive(Debug, Clone, PartialEq, Eq)]
pub enum EngineMatchEvent {
    /// What the analysis of the side to move yielded.
    EngineAnalysisEvent { engine: Color, event: EngineAnalysisEvent },
    /// The match is over: the winner, or none for a draw.
    GameOver { winner: Option<Color> },
}

/// Why a match failed.
#[derive(Debug, Clone, PartialEq, Eq)]
pub enum EngineMatchError {
    /// An engine failed.
    EngineError(EngineError),
    /// An analysis ended without a best move.
    NoBestMove,
    /// An engine chose a move that is not legal.
    IllegalMove(Move),
}

/// What is left of `time` and `increment` together after `elapsed`, all in
/// nanoseconds: nothing where more has elapsed than there was.
pub open spec fn spec_time_left(time: nat, increment: nat, elapsed: nat) -> nat {
    if time + increment >= elapsed {
        (time + increment - elapsed) as nat
    } else {
        0
    }
}

impl ChessClockState {
    /// Whether the clock can be updated: its time and its increment together
    /// are a span that a [`Duration`] holds.
    pub open spec fn spec_can_update(self) -> bool {
        self matches ChessClockState::Clock(tc) ==> tc.time.spec_nanos()
            + tc.increment.spec_nanos() <= MAX_NANOS
    }

    /// The clock after a move that took `elapsed`.  Only a clock that runs
    /// down changes: the increment is credited first, then the time taken
    /// comes off.
    pub open spec fn spec_updated(self, elapsed: Duration) -> ChessClockState {
        match self {
            ChessClockState::Clock(tc) => ChessClockState::Clock(
                TimeControl {
                    time: Duration::spec_from_nanos(
                        spec_time_left(
                            tc.time.spec_nanos(),
                            tc.increment.spec_nanos(),
                            elapsed.spec_nanos(),
                        ),
                    ),
                    increment: tc.increment,
                },
            ),
            _ => self,
        }
    }

    /// Whether a move that took `elapsed` has used up the time: for a clock
    /// that runs down, nothing is left; for a fixed time per move, the move
    /// took longer.
    pub open spec fn spec_timed_out(self, elapsed: Duration) -> bool {
        match self {
            ChessClockState::Infinite => false,
            ChessClockState::MoveTime(move_time) => elapsed.spec_nanos() > move_time.spec_nanos(),
            ChessClockState::Clock(tc) => spec_time_left(
                tc.time.spec_nanos(),
                tc.increment.spec_nanos(),
                elapsed.spec_nanos(),
            ) == 0,
        }
    }

    /// The time control of a clock that runs down.
    pub open spec fn spec_as_tc(self) -> Option<TimeControl> {
        match self {
            ChessClockState::Clock(tc) => Some(tc),
            _ => None,
        }
    }

    /// Takes the time of a move off the clock and says whether the side has
    /// run out of time.
    pub fn update(&mut self, elapsed: Duration) -> (timed_out: bool)
        requires
            old(self).spec_can_update(),
        ensures
            *final(self) == old(self).spec_updated(elapsed),
            timed_out == old(self).spec_timed_out(elapsed),
    {
        broadcast use
            Duration::lemma_nanos_determine,
            Duration::lemma_from_nanos,
            Duration::lemma_from_nanos_of_nanos,
        ;

        match self {
            ChessClockState::Infinite => false,
            ChessClockState::MoveTime(move_time) => elapsed.longer_than(*move_time),
            ChessClockState::Clock(tc) => {
                let credited = match tc.time.checked_add(tc.increment) {
                    Some(sum) => sum,
                    None => tc.time,
                };
                tc.time = credited.saturating_sub(elapsed);
                tc.time.is_zero()
            },
        }
    }

    /// The time control of a clock that runs down.
    pub fn as_tc(&self) -> (r: Option<&TimeControl>)
        ensures
            match r {
                Some(tc) => self.spec_as_tc() == Some(*tc),
                None => self.spec_as_tc() is None,
            },
    {
        match self {
            ChessClockState::Clock(tc) => Some(tc),
            _ => None,
        }
    }
}

/// How a clock answers a move.  A clock that runs down is left with its time
/// and increment together less the time taken, or with nothing where more
/// was taken, and the side has timed out exactly when nothing is left.  A
/// fixed time per move is not changed, and the side has timed out exactly
/// when the move took longer.  Without a limit nothing changes and nobody
/// times out.
pub proof fn law_clock_update(clock: ChessClockState, elapsed: Duration)
    requires
        clock.spec_can_update(),
    ensures
        clock matches ChessClockState::Clock(tc) ==> {
            &&& clock.spec_updated(elapsed) matches ChessClockState::Clock(after)
            &&& after.increment == tc.increment
            &&& after.time.spec_nanos() == if tc.time.spec_nanos() + tc.increment.spec_nanos()
                >= elapsed.spec_nanos() {
                tc.time.spec_nanos() + tc.increment.spec_nanos() - elapsed.spec_nanos()
            } else {
                0
            }
            &&& clock.spec_timed_out(elapsed) == (after.time.spec_nanos() == 0)
        },
        clock matches ChessClockState::MoveTime(move_time) ==> {
            &&& clock.spec_updated(elapsed) == clock
            &&& clock.spec_timed_out(elapsed) == (elapsed.spec_nanos() > move_time.spec_nanos())
        },
        clock is Infinite ==> {
            &&& clock.spec_updated(elapsed) == clock
            &&& !clock.spec_timed_out(elapsed)
        },
{
    broadcast use Duration::lemma_from_nanos;

}

/// A match under way.
#[derive(Debug, Clone)]
pub struct EngineMatch {
    config: EngineMatchConfig,
    game: ChessGame,
    white_clock: ChessClockState,
    black_clock: ChessClockState,
    best_move: Option<Move>,
    match_result: Option<Option<Color>>,
}

/// A match as contracts see it.
pub struct EngineMatchView {
    pub config: EngineMatchConfig,
    pub game: ChessGameView,
    pub white_clock: ChessClockState,
    pub black_clock: ChessClockState,
    /// The last best move that the analysis of the side to move has yielded.
    pub best_move: Option<Move>,
    /// Whether the match is over, and if so who won.
    pub match_result: Option<Option<Color>>,
}

pub open spec fn spec_time_of(tc: Option<TimeControl>) -> Option<Duration> {
    match tc {
        Some(tc) => Some(tc.time),
        None => None,
    }
}

pub open spec fn spec_increment_of(tc: Option<TimeControl>) -> Option<Duration> {
    match tc {
        Some(tc) => Some(tc.increment),
        None => None,
    }
}

/// The result of a match that begins on a game: over where the game is, the
/// side to move having lost a game that is won.
pub open spec fn spec_initial_result(game: ChessGameView) -> Option<Option<Color>> {
    match game.status() {
        GameStatus::Won => Some(Some(game.side_to_move().spec_other())),
        GameStatus::Drawn => Some(None),
        GameStatus::Ongoing => None,
    }
}

/// The result of a match after `mover` has moved: the mover has won a game
/// that is won; a drawn game is drawn; and in a game that goes on, a mover
/// who ran out of time has lost.
pub open spec fn spec_result_after(game: ChessGameView, mover: Color, timed_out: bool) -> Option<
    Option<Color>,
> {
    match game.status() {
        GameStatus::Won => Some(Some(mover)),
        GameStatus::Drawn => Some(None),
        GameStatus::Ongoing => if timed_out {
            Some(Some(mover.spec_other()))
        } else {
            None
        },
    }
}

impl EngineMatchView {
    /// The side whose move it is.
    pub open spec fn side_to_move(self) -> Color {
        self.game.side_to_move()
    }

    pub open spec fn clock_of(self, side: Color) -> ChessClockState {
        match side {
            Color::White => self.white_clock,
            Color::Black => self.black_clock,
        }
    }

    pub open spec fn search_limit_of(self, side: Color) -> Option<AnalysisSearchLimit> {
        match side {
            Color::White => self.config.white_time_control.search_limit,
            Color::Black => self.config.black_time_control.search_limit,
        }
    }

    /// The limit on the time of the next search, after the clock of the side
    /// to move.  Where that clock runs down, the engine is told the time and
    /// increment of each side whose clock runs down.
    pub open spec fn time_limit(self) -> AnalysisTimeLimit {
        match self.clock_of(self.side_to_move()) {
            ChessClockState::Infinite => AnalysisTimeLimit::Infinite,
            ChessClockState::MoveTime(move_time) => AnalysisTimeLimit::MoveTime(move_time),
            ChessClockState::Clock(_) => AnalysisTimeLimit::TimeLeft {
                white_time: spec_time_of(self.white_clock.spec_as_tc()),
                black_time: spec_time_of(self.black_clock.spec_as_tc()),
                white_increment: spec_increment_of(self.white_clock.spec_as_tc()),
                black_increment: spec_increment_of(self.black_clock.spec_as_tc()),
                moves_to_go: None,
            },
        }
    }

    /// The limits of the next search.
    pub open spec fn limit(self) -> AnalysisLimit {
        AnalysisLimit {
            search_limit: self.search_limit_of(self.side_to_move()),
            time_limit: Some(self.time_limit()),
        }
    }

    /// The match after the analysis has yielded an event: a best move is
    /// remembered in place of an earlier one.
    pub open spec fn relayed(self, event: EngineAnalysisEvent) -> EngineMatchView {
        EngineMatchView {
            config: self.config,
            game: self.game,
            white_clock: self.white_clock,
            black_clock: self.black_clock,
            best_move: match event {
                EngineAnalysisEvent::BestMove(mv) => Some(mv),
                _ => self.best_move,
            },
            match_result: self.match_result,
        }
    }

    /// The match after the side to move has played `mv` in `elapsed`.
    pub open spec fn moved(self, mv: Move, elapsed: Duration) -> EngineMatchView {
        let mover = self.side_to_move();
        let clock = self.clock_of(mover);
        EngineMatchView {
            config: self.config,
            game: self.game.play(mv),
            white_clock: if mover == Color::White {
                clock.spec_updated(elapsed)
            } else {
                self.white_clock
            },
            black_clock: if mover == Color::Black {
                clock.spec_updated(elapsed)
            } else {
                self.black_clock
            },
            best_move: None,
            match_result: spec_result_after(
                self.game.play(mv),
                mover,
                clock.spec_timed_out(elapsed),
            ),
        }
    }

    /// The match after the analysis of the side to move has ended, having
    /// taken `elapsed`: the best move is played, or the match fails for want
    /// of one or because it is not legal.
    pub open spec fn finished_move(self, elapsed: Duration) -> Result<
        EngineMatchView,
        EngineMatchError,
    > {
        match self.best_move {
            None => Err(EngineMatchError::NoBestMove),
            Some(mv) => if spec_is_legal(self.game.board(), mv) {
                Ok(self.moved(mv, elapsed))
            } else {
                Err(EngineMatchError::IllegalMove(mv))
            },
        }
    }
}

impl View for EngineMatch {
    type V = EngineMatchView;

    closed spec fn view(&self) -> EngineMatchView {
        EngineMatchView {
            config: self.config,
            game: self.game@,
            white_clock: self.white_clock,
            black_clock: self.black_clock,
            best_move: self.best_move,
            match_result: self.match_result,
        }
    }
}

fn time_of(tc: Option<&TimeControl>) -> (r: Option<Duration>)
    ensures
        r == match tc {
            Some(tc) => Some(tc.time),
            None => None,
        },
{
    match tc {
        Some(tc) => Some(tc.time),
        None => None,
    }
}

fn increment_of(tc: Option<&TimeControl>) -> (r: Option<Duration>)
    ensures
        r == match tc {
            Some(tc) => Some(tc.increment),
            None => None,
        },
{
    match tc {
        Some(tc) => Some(tc.increment),
        None => None,
    }
}

impl EngineMatch {
    /// A match that begins on `game`, each side with the clock of its
    /// configuration.  It is over at once where the game is.
    pub fn new(config: EngineMatchConfig, game: ChessGame) -> (r: EngineMatch)
        ensures
            r@ == (EngineMatchView {
                config,
                game: game@,
                white_clock: config.white_time_control.clock,
                black_clock: config.black_time_control.clock,
                best_move: None,
                match_result: spec_initial_result(game@),
            }),
    {
        let match_result = match game.status() {
            GameStatus::Won => Some(Some(side_to_move(game.board()).other())),
            GameStatus::Drawn => Some(None),
            GameStatus::Ongoing => None,
        };
        EngineMatch {
            config,
            game,
            white_clock: config.white_time_control.clock,
            black_clock: config.black_time_control.clock,
            best_move: None,
            match_result,
        }
    }

    /// The game as it stands.
    pub fn game(&self) -> (r: &ChessGame)
        ensures
            r@ == self@.game,
    {
        &self.game
    }

    /// The clock of a side.
    pub fn clock(&self, side: Color) -> (r: ChessClockState)
        ensures
            r == self@.clock_of(side),
    {
        match side {
            Color::White => self.white_clock,
            Color::Black => self.black_clock,
        }
    }

    /// Whether the match is over, and if so who won: `Some(None)` is a draw.
    pub fn result(&self) -> (r: Option<Option<Color>>)
        ensures
            r == self@.match_result,
    {
        self.match_result
    }

    /// The event that ends the stream of a match that is over.
    pub fn game_over(&self) -> (r: Option<EngineMatchEvent>)
        ensures
            r == match self@.match_result {
                Some(winner) => Some(EngineMatchEvent::GameOver { winner }),
                None => None,
            },
    {
        match self.match_result {
            Some(winner) => Some(EngineMatchEvent::GameOver { winner }),
            None => None,
        }
    }

    /// Whose move it is, and the limits under which that side's engine is to
    /// search.
    pub fn next_search(&self) -> (r: (Color, AnalysisLimit))
        ensures
            r == (self@.side_to_move(), self@.limit()),
    {
        let stm = side_to_move(self.game.board());
        let white_tc = self.white_clock.as_tc();
        let black_tc = self.black_clock.as_tc();
        let clock = self.clock(stm);
        let time_limit = match clock {
            ChessClockState::Infinite => AnalysisTimeLimit::Infinite,
            ChessClockState::MoveTime(move_time) => AnalysisTimeLimit::MoveTime(move_time),
            ChessClockState::Clock(_) => AnalysisTimeLimit::TimeLeft {
                white_time: time_of(white_tc),
                black_time: time_of(black_tc),
                white_increment: increment_of(white_tc),
                black_increment: increment_of(black_tc),
                moves_to_go: None,
            },
        };
        let search_limit = match stm {
            Color::White => self.config.white_time_control.search_limit,
            Color::Black => self.config.black_time_control.search_limit,
        };
        (stm, AnalysisLimit { search_limit, time_limit: Some(time_limit) })
    }

    /// Takes an event of the analysis of the side to move and gives the
    /// event to report for it.  The last best move seen is remembered.
    pub fn relay(&mut self, event: EngineAnalysisEvent) -> (r: EngineMatchEvent)
        ensures
            final(self)@ == old(self)@.relayed(event),
            r == (EngineMatchEvent::EngineAnalysisEvent {
                engine: old(self)@.side_to_move(),
                event,
            }),
    {
        let stm = side_to_move(self.game.board());
        match &event {
            EngineAnalysisEvent::BestMove(mv) => {
                self.best_move = Some(*mv);
            },
            _ => {},
        }
        EngineMatchEvent::EngineAnalysisEvent { engine: stm, event }
    }

    /// Ends the turn of the side to move, whose analysis took `elapsed`: its
    /// clock is updated, its best move is played, and the result of the
    /// match is found anew.  Where the analysis yielded no best move, or one
    /// that is not legal, the match fails and is left as it was.
    pub fn finish_move(&mut self, elapsed: Duration) -> (r: Result<(), EngineMatchError>)
        requires
            old(self)@.clock_of(old(self)@.side_to_move()).spec_can_update(),
        ensures
            match old(self)@.finished_move(elapsed) {
                Ok(after) => r is Ok && final(self)@ == after,
                Err(e) => r == Err::<(), EngineMatchError>(e) && final(self)@ == old(self)@,
            },
            old(self)@.game.wf() ==> final(self)@.game.wf(),
    {
        let stm = side_to_move(self.game.board());
        let best_move = match self.best_move {
            Some(mv) => mv,
            None => {
                return Err(EngineMatchError::NoBestMove);
            },
        };
        if !self.game.try_play(best_move) {
            return Err(EngineMatchError::IllegalMove(best_move));
        }
        let timed_out = match stm {
            Color::White => self.white_clock.update(elapsed),
            Color::Black => self.black_clock.update(elapsed),
        };
        self.best_move = None;
        self.match_result = match self.game.status() {
            GameStatus::Won => Some(Some(stm)),
            GameStatus::Drawn => Some(None),
            GameStatus::Ongoing => if timed_out {
                Some(Some(stm.other()))
            } else {
                None
            },
        };
        Ok(())
    }
}

impl From<EngineError> for EngineMatchError {
    fn from(e: EngineError) -> (r: EngineMatchError) {
        EngineMatchError::EngineError(e)
    }
}

impl vstd::std_specs::convert::FromSpecImpl<EngineError> for EngineMatchError {
    open spec fn obeys_from_spec() -> bool {
        true
    }

    open spec fn from_spec(e: EngineError) -> EngineMatchError {
        EngineMatchError::EngineError(e)
    }
}

} // verus!
