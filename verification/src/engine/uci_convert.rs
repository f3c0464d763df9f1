//! Between the library's values and the engine's.
//!
//! The library writes castling as the king going to the square of its rook.
//! Engines do so only in Chess960; otherwise they write it as the king going
//! to the C or G file.

use vstd::prelude::*;
use cozy_chess::Board;
use crate::board::{
    castle_rights, color_on, piece_on, side_to_move, spec_castle_rights, spec_color_on,
    spec_piece_on, spec_play, spec_side_to_move,
};
use crate::chess::{Color, File, Move, Piece, Square};
use crate::duration::{Duration, NANOS_PER_MILLI};
use crate::engine::analysis::{AnalysisLimit, AnalysisTimeLimit};
use crate::game::{standard_rights, ChessGame, ChessGameView};
use crate::uci::{UciCommand, UciGoParams, UciInitPos, UciTimeControl};

verus! {

/// Whether the move goes to a square that holds what its own square holds: a
/// piece of the same side, as when the king goes to its rook.
pub open spec fn takes_own_piece(board: Board, mv: Move) -> bool {
    spec_color_on(board, mv.from) == spec_color_on(board, mv.to)
}

/// Whether the move is a king going from the E file to the C or G file, which
/// is how castling is written outside Chess960.
pub open spec fn king_leaps(board: Board, mv: Move) -> bool {
    &&& spec_piece_on(board, mv.from) == Some(Piece::King)
    &&& mv.from.file == File::E
    &&& (mv.to.file == File::C || mv.to.file == File::G)
}

/// The move as an engine writes it.
pub open spec fn spec_decanonicalize_move(board: Board, mv: Move, chess960: bool) -> Move {
    if !chess960 && takes_own_piece(board, mv) {
        let rights = spec_castle_rights(board, spec_side_to_move(board));
        let file = if Some(mv.to.file) == rights.short {
            File::G
        } else {
            File::C
        };
        mv.spec_with_to(Square { file, rank: mv.to.rank })
    } else {
        mv
    }
}

/// The move as the library keeps it.
pub open spec fn spec_canonicalize_move(board: Board, mv: Move, chess960: bool) -> Move {
    if !chess960 && king_leaps(board, mv) {
        let file = if mv.to.file == File::C {
            File::A
        } else {
            File::H
        };
        mv.spec_with_to(Square { file, rank: mv.to.rank })
    } else {
        mv
    }
}

/// Turns a move of the library into the move an engine expects.  Outside
/// Chess960 a king that goes to its own rook is sent to the G file where the
/// rook is the one of the short side, and to the C file otherwise.
pub fn decanonicalize_move(board: &Board, mv: Move, chess960: bool) -> (r: Move)
    ensures
        r == spec_decanonicalize_move(*board, mv, chess960),
{
    if !chess960 && same_color(color_on(board, mv.from), color_on(board, mv.to)) {
        let rights = castle_rights(board, side_to_move(board));
        let file = match rights.short {
            Some(short) => if short == mv.to.file {
                File::G
            } else {
                File::C
            },
            None => File::C,
        };
        Move { from: mv.from, to: Square { file, rank: mv.to.rank }, promotion: mv.promotion }
    } else {
        mv
    }
}

/// Turns a move of an engine into the move the library keeps.  Outside
/// Chess960 a king that goes from the E file to the C file is sent to the A
/// file, and one that goes to the G file to the H file.
pub fn canonicalize_move(board: &Board, mv: Move, chess960: bool) -> (r: Move)
    ensures
        r == spec_canonicalize_move(*board, mv, chess960),
{
    let convert_castle = !chess960 && is_king(piece_on(board, mv.from)) && mv.from.file == File::E
        && (mv.to.file == File::C || mv.to.file == File::G);
    if convert_castle {
        let file = if mv.to.file == File::C {
            File::A
        } else {
            File::H
        };
        Move { from: mv.from, to: Square { file, rank: mv.to.rank }, promotion: mv.promotion }
    } else {
        mv
    }
}

fn same_color(a: Option<Color>, b: Option<Color>) -> (r: bool)
    ensures
        r == (a == b),
{
    match (a, b) {
        (None, None) => true,
        (Some(x), Some(y)) => x == y,
        _ => false,
    }
}

fn is_king(piece: Option<Piece>) -> (r: bool)
    ensures
        r == (piece == Some(Piece::King)),
{
    match piece {
        Some(Piece::King) => true,
        _ => false,
    }
}

/// The moves of a game as an engine expects them: each one turned on the
/// board it was played on.
pub open spec fn spec_position_moves(game: ChessGameView, chess960: bool) -> Seq<Move> {
    Seq::new(
        game.stack.len(),
        |i: int| spec_decanonicalize_move(game.board_before(i), game.stack[i].0, chess960),
    )
}

/// Whether a command is the `position` command of a game: it starts from the
/// board the game began on and lists the game's moves as an engine expects
/// them.
pub open spec fn is_position_message(command: UciCommand, game: ChessGameView, chess960: bool) -> bool {
    &&& command matches UciCommand::Position { init_pos, moves }
    &&& init_pos == UciInitPos::Board(game.init_pos)
    &&& moves@ == spec_position_moves(game, chess960)
}

/// The `position` command that tells an engine of a game: the board it began
/// on, and its moves.
pub fn game_to_position_message(game: &ChessGame, chess960: bool) -> (r: UciCommand)
    ensures
        is_position_message(r, game@, chess960),
{
    let stack = game.stack();
    let n = stack.len();
    let mut moves: Vec<Move> = Vec::new();
    let mut i: usize = 0;
    while i < n
        invariant
            i <= n,
            n == stack@.len(),
            stack@ == game@.stack,
            moves@ == spec_position_moves(game@, chess960).take(i as int),
        decreases n - i,
    {
        let board = if i > 0 {
            &stack[i - 1].1
        } else {
            game.init_pos()
        };
        moves.push(decanonicalize_move(board, stack[i].0, chess960));
        i += 1;
    }
    assert(moves@ == spec_position_moves(game@, chess960));
    UciCommand::Position { init_pos: UciInitPos::Board(game.init_pos().clone()), moves }
}

/// Whether a move comes back unchanged when it is written for an engine and
/// read again.
pub open spec fn round_trips(board: Board, mv: Move, chess960: bool) -> bool {
    spec_canonicalize_move(board, spec_decanonicalize_move(board, mv, chess960), chess960) == mv
}

/// Whether the move is castling as it is played in standard chess: the king
/// goes from the E file to a rook of its side that it may castle with, and
/// those rooks stand on the A and H files.
pub open spec fn standard_castling(board: Board, mv: Move) -> bool {
    let rights = spec_castle_rights(board, spec_side_to_move(board));
    &&& spec_piece_on(board, mv.from) == Some(Piece::King)
    &&& mv.from.file == File::E
    &&& takes_own_piece(board, mv)
    &&& standard_rights(rights)
    &&& (Some(mv.to.file) == rights.short || Some(mv.to.file) == rights.long)
}

/// The board that a list of moves, as an engine writes them, leads to from
/// `board`: each move is read on the board before it and played there.
pub open spec fn spec_replay(board: Board, moves: Seq<Move>, chess960: bool) -> Board
    decreases moves.len(),
{
    if moves.len() == 0 {
        board
    } else {
        let before = spec_replay(board, moves.drop_last(), chess960);
        spec_play(before, spec_canonicalize_move(before, moves.last(), chess960))
    }
}

/// In Chess960 moves are written as the library keeps them: neither direction
/// changes a move.
pub proof fn law_chess960_identity(board: Board, mv: Move)
    ensures
        spec_canonicalize_move(board, mv, true) == mv,
        spec_decanonicalize_move(board, mv, true) == mv,
{
}

/// A move that is castling in neither encoding, that is, one that does not
/// go to a square holding what its own square holds and is not a king going
/// from the E file to the C or G file, is changed in neither direction,
/// whatever the mode.
pub proof fn law_non_castling_identity(board: Board, mv: Move, chess960: bool)
    requires
        !takes_own_piece(board, mv),
        !king_leaps(board, mv),
    ensures
        spec_canonicalize_move(board, mv, chess960) == mv,
        spec_decanonicalize_move(board, mv, chess960) == mv,
{
}

/// Outside Chess960 a standard castling move is written for an engine as the
/// king going to the G file (short) or the C file (long) of its rank, and
/// reading that gives the move back, whose destination is the rook's square
/// on the H or A file.
pub proof fn law_castling_round_trip(board: Board, mv: Move)
    requires
        standard_castling(board, mv),
    ensures
        round_trips(board, mv, false),
        mv.to.file == File::H || mv.to.file == File::A,
        spec_decanonicalize_move(board, mv, false) == mv.spec_with_to(
            Square {
                file: if mv.to.file == File::H {
                    File::G
                } else {
                    File::C
                },
                rank: mv.to.rank,
            },
        ),
{
}

/// Every move comes back unchanged in Chess960; outside it, every move that
/// is castling in neither encoding and every standard castling move does.
pub proof fn law_round_trips(board: Board, mv: Move, chess960: bool)
    requires
        chess960 || standard_castling(board, mv) || (!takes_own_piece(board, mv) && !king_leaps(
            board,
            mv,
        )),
    ensures
        round_trips(board, mv, chess960),
{
    if !chess960 && standard_castling(board, mv) {
        law_castling_round_trip(board, mv);
    }
}

/// Whether every move of a game comes back unchanged when it is written for
/// an engine and read again on the board it was played on.
pub open spec fn spec_moves_round_trip(game: ChessGameView, chess960: bool) -> bool {
    forall|i: int|
        0 <= i < game.stack.len() ==> round_trips(
            game.board_before(i),
            (#[trigger] game.stack[i]).0,
            chess960,
        )
}

proof fn lemma_replay_prefix(game: ChessGameView, chess960: bool, n: int)
    requires
        0 <= n <= game.stack.len(),
        game.wf(),
        spec_moves_round_trip(game, chess960),
    ensures
        spec_replay(game.init_pos, spec_position_moves(game, chess960).take(n), chess960)
            == game.board_before(n),
    decreases n,
{
    let moves = spec_position_moves(game, chess960);
    if n > 0 {
        lemma_replay_prefix(game, chess960, n - 1);
        assert(moves.take(n).drop_last() == moves.take(n - 1));
        assert(moves.take(n).last() == moves[n - 1]);
        let before = game.board_before(n - 1);
        assert(round_trips(before, game.stack[n - 1].0, chess960));
        assert(game.stack[n - 1].1 == spec_play(before, game.stack[n - 1].0));
    }
}

/// Replaying the moves of the `position` command of a game on the board the
/// command starts from leads to the game's current board, provided that each
/// move of the game comes back unchanged when written and read on the board
/// it was played on.  [`moves_round_trip`] tests that of a game.
pub proof fn law_position_replays(game: ChessGameView, chess960: bool)
    requires
        game.wf(),
        spec_moves_round_trip(game, chess960),
    ensures
        spec_replay(game.init_pos, spec_position_moves(game, chess960), chess960) == game.board(),
{
    let moves = spec_position_moves(game, chess960);
    lemma_replay_prefix(game, chess960, game.stack.len() as int);
    assert(moves.take(game.stack.len() as int) == moves);
}

/// In Chess960 the `position` command of every game replays to the game's
/// current board.
pub proof fn law_position_replays_chess960(game: ChessGameView)
    requires
        game.wf(),
    ensures
        spec_replay(game.init_pos, spec_position_moves(game, true), true) == game.board(),
{
    law_position_replays(game, true);
}

/// Tests whether every move of a game comes back unchanged when it is written
/// for an engine and read again on the board it was played on.  Where it
/// does, an engine that is sent the `position` command of the game arrives
/// at the game's current board.
pub fn moves_round_trip(game: &ChessGame, chess960: bool) -> (r: bool)
    ensures
        r == spec_moves_round_trip(game@, chess960),
        r && game@.wf() ==> spec_replay(
            game@.init_pos,
            spec_position_moves(game@, chess960),
            chess960,
        ) == game@.board(),
{
    let stack = game.stack();
    let n = stack.len();
    let mut i: usize = 0;
    while i < n
        invariant
            i <= n,
            n == stack@.len(),
            stack@ == game@.stack,
            forall|j: int|
                0 <= j < i ==> round_trips(
                    game@.board_before(j),
                    (#[trigger] game@.stack[j]).0,
                    chess960,
                ),
        decreases n - i,
    {
        let board = if i > 0 {
            &stack[i - 1].1
        } else {
            game.init_pos()
        };
        let mv = stack[i].0;
        let written = decanonicalize_move(board, mv, chess960);
        let read = canonicalize_move(board, written, chess960);
        if read != mv {
            assert(!round_trips(game@.board_before(i as int), game@.stack[i as int].0, chess960));
            return false;
        }
        i += 1;
    }
    proof {
        if game@.wf() {
            law_position_replays(game@, chess960);
        }
    }
    true
}

/// A span in the milliseconds of the wire, where the longest spans read as
/// the largest number it can carry.
pub open spec fn spec_wire_millis(d: Duration) -> u64 {
    if d.spec_nanos() / (NANOS_PER_MILLI as nat) > u64::MAX {
        u64::MAX
    } else {
        (d.spec_nanos() / (NANOS_PER_MILLI as nat)) as u64
    }
}

pub open spec fn spec_wire_millis_of(d: Option<Duration>) -> Option<u64> {
    match d {
        Some(d) => Some(spec_wire_millis(d)),
        None => None,
    }
}

/// The time control that a time limit asks for, variant for variant.
pub open spec fn spec_time_control(limit: AnalysisTimeLimit) -> UciTimeControl {
    match limit {
        AnalysisTimeLimit::Infinite => UciTimeControl::Infinite,
        AnalysisTimeLimit::MoveTime(d) => UciTimeControl::MoveTime(spec_wire_millis(d)),
        AnalysisTimeLimit::TimeLeft {
            white_time,
            black_time,
            white_increment,
            black_increment,
            moves_to_go,
        } => UciTimeControl::TimeLeft {
            white_time: spec_wire_millis_of(white_time),
            black_time: spec_wire_millis_of(black_time),
            white_increment: spec_wire_millis_of(white_increment),
            black_increment: spec_wire_millis_of(black_increment),
            moves_to_go,
        },
    }
}

/// The parameters of the `go` command that a limit asks for.
pub open spec fn spec_go_params(limit: AnalysisLimit) -> UciGoParams {
    UciGoParams {
        depth: match limit.search_limit {
            Some(search) => search.depth,
            None => None,
        },
        nodes: match limit.search_limit {
            Some(search) => search.nodes,
            None => None,
        },
        time_control: match limit.time_limit {
            Some(time) => Some(spec_time_control(time)),
            None => None,
        },
    }
}

fn wire_millis(d: Duration) -> (r: u64)
    ensures
        r == spec_wire_millis(d),
{
    let millis = d.as_millis();
    if millis > u64::MAX as u128 {
        u64::MAX
    } else {
        millis as u64
    }
}

fn wire_millis_of(d: Option<Duration>) -> (r: Option<u64>)
    ensures
        r == spec_wire_millis_of(d),
{
    match d {
        Some(d) => Some(wire_millis(d)),
        None => None,
    }
}

/// The `go` command that starts a search under the given limits.
pub fn analysis_limit_to_go_message(limit: AnalysisLimit) -> (r: UciCommand)
    ensures
        r == UciCommand::Go(spec_go_params(limit)),
{
    let (depth, nodes) = match limit.search_limit {
        Some(search) => (search.depth, search.nodes),
        None => (None, None),
    };
    let time_control = match limit.time_limit {
        None => None,
        Some(AnalysisTimeLimit::Infinite) => Some(UciTimeControl::Infinite),
        Some(AnalysisTimeLimit::MoveTime(d)) => Some(UciTimeControl::MoveTime(wire_millis(d))),
        Some(
            AnalysisTimeLimit::TimeLeft {
                white_time,
                black_time,
                white_increment,
                black_increment,
                moves_to_go,
            },
        ) => Some(
            UciTimeControl::TimeLeft {
                white_time: wire_millis_of(white_time),
                black_time: wire_millis_of(black_time),
                white_increment: wire_millis_of(white_increment),
                black_increment: wire_millis_of(black_increment),
                moves_to_go,
            },
        ),
    };
    UciCommand::Go(UciGoParams { depth, nodes, time_control })
}

} // verus!
