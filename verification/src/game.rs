//! A game: a starting position and the moves played from it.

use vstd::prelude::*;
use cozy_chess::Board;
use crate::board::{
    boards_repeat, castle_rights, is_legal, play, same_position, spec_castle_rights,
    spec_is_legal, spec_play, spec_side_to_move, status,
};
use crate::chess::{CastleRights, Color, File, GameStatus, Move};

verus! {

/// A starting position and, for each move played, the move and the board it
/// led to.
#[derive(Debug, Clone)]
pub struct ChessGame {
    init_pos: Board,
    stack: Vec<(Move, Board)>,
}

/// A game as contracts see it.
pub struct ChessGameView {
    /// The position the game started from.
    pub init_pos: Board,
    /// The moves played, each with the board it led to.
    pub stack: Seq<(Move, Board)>,
}

/// How many of the boards of `stack` are in the same position as `current`.
pub open spec fn count_repeats(stack: Seq<(Move, Board)>, current: Board) -> nat
    decreases stack.len(),
{
    if stack.len() == 0 {
        0
    } else {
        count_repeats(stack.drop_last(), current) + if boards_repeat(stack.last().1, current) {
            1nat
        } else {
            0nat
        }
    }
}

/// Whether a side's castling rooks stand where they do in standard chess:
/// on the A file for the long side and on the H file for the short side.
pub open spec fn standard_rights(rights: CastleRights) -> bool {
    &&& rights.long is None || rights.long == Some(File::A)
    &&& rights.short is None || rights.short == Some(File::H)
}

impl ChessGameView {
    /// The board before move `i`.
    pub open spec fn board_before(self, i: int) -> Board {
        if i <= 0 {
            self.init_pos
        } else {
            self.stack[i - 1].1
        }
    }

    /// The game's invariant: every move was legal where it was played, and
    /// every board is the one before it after its move.  A game made by
    /// [`ChessGame::new`] and grown by [`ChessGame::play`] keeps it.
    pub open spec fn wf(self) -> bool {
        forall|i: int|
            0 <= i < self.stack.len() ==> {
                &&& spec_is_legal(self.board_before(i), (#[trigger] self.stack[i]).0)
                &&& self.stack[i].1 == spec_play(self.board_before(i), self.stack[i].0)
            }
    }

    /// The current position: the last board, or the start where no move was
    /// played.
    pub open spec fn board(self) -> Board {
        self.board_before(self.stack.len() as int)
    }

    /// The side to move in the current position.
    pub open spec fn side_to_move(self) -> Color {
        spec_side_to_move(self.board())
    }

    /// How often the starting board is in the same position as `current`:
    /// once or never.
    pub open spec fn start_repeats(self, current: Board) -> nat {
        if boards_repeat(self.init_pos, current) {
            1
        } else {
            0
        }
    }

    /// How often the current position stands in the game: on the starting
    /// board and on the boards that the moves led to, the current board
    /// included.
    pub open spec fn repetitions(self) -> nat {
        self.start_repeats(self.board()) + count_repeats(self.stack, self.board())
    }

    /// How often the current position stood in the game before the last
    /// move: on the starting board and on the boards that the earlier moves
    /// led to.  Nothing came before a game without moves.
    pub open spec fn earlier_repetitions(self) -> nat {
        if self.stack.len() == 0 {
            0
        } else {
            self.start_repeats(self.board()) + count_repeats(self.stack.drop_last(), self.board())
        }
    }

    /// Whether the starting position can only be played as Chess960: a side
    /// may castle with a rook that stands elsewhere than in standard chess.
    pub open spec fn needs_chess960(self) -> bool {
        ||| !standard_rights(spec_castle_rights(self.init_pos, Color::White))
        ||| !standard_rights(spec_castle_rights(self.init_pos, Color::Black))
    }

    /// The status of the current board, but drawn where that board is ongoing
    /// and its position stands three times or more in the game, the starting
    /// board counted.
    pub open spec fn status(self) -> GameStatus {
        let on_board = crate::board::spec_status(self.board());
        if on_board != GameStatus::Ongoing {
            on_board
        } else if self.repetitions() >= 3 {
            GameStatus::Drawn
        } else {
            GameStatus::Ongoing
        }
    }

    /// The game after one more move.
    pub open spec fn play(self, mv: Move) -> ChessGameView {
        ChessGameView {
            init_pos: self.init_pos,
            stack: self.stack.push((mv, spec_play(self.board(), mv))),
        }
    }
}

impl View for ChessGame {
    type V = ChessGameView;

    closed spec fn view(&self) -> ChessGameView {
        ChessGameView { init_pos: self.init_pos, stack: self.stack@ }
    }
}

/// A legal move keeps a game well formed.
pub proof fn lemma_play_keeps_wf(game: ChessGameView, mv: Move)
    requires
        game.wf(),
        spec_is_legal(game.board(), mv),
    ensures
        game.play(mv).wf(),
{
    let after = game.play(mv);
    assert forall|i: int| 0 <= i < after.stack.len() implies {
        &&& spec_is_legal(after.board_before(i), (#[trigger] after.stack[i]).0)
        &&& after.stack[i].1 == spec_play(after.board_before(i), after.stack[i].0)
    } by {
        if i < game.stack.len() {
            assert(after.stack[i] == game.stack[i]);
            assert(after.board_before(i) == game.board_before(i));
        }
    }
}

/// The status of a game by repetition.  A board that is won or drawn decides
/// the status, however often its position stood.  On an ongoing board the
/// game is drawn where the position stands three times or more in the game,
/// on the starting board or on a board that a move led to, and ongoing where
/// it stands there less often.
pub proof fn law_status_by_repetition(game: ChessGameView)
    ensures
        crate::board::spec_status(game.board()) != GameStatus::Ongoing ==> game.status()
            == crate::board::spec_status(game.board()),
        crate::board::spec_status(game.board()) == GameStatus::Ongoing && game.repetitions() >= 3
            ==> game.status() == GameStatus::Drawn,
        crate::board::spec_status(game.board()) == GameStatus::Ongoing && game.repetitions() < 3
            ==> game.status() == GameStatus::Ongoing,
{
}

/// The status of a game by what came before.  After at least one move, and
/// the current board being in the same position as itself, that position
/// stands once more in the game than it stood before the last move, the
/// starting board counted among what came before.  So on an ongoing board
/// the game is drawn where the position stood twice or more before, which
/// makes this its third occurrence, and ongoing where it stood once or never
/// before.
pub proof fn law_status_by_earlier_repetition(game: ChessGameView)
    requires
        game.stack.len() > 0,
        crate::board::spec_status(game.board()) == GameStatus::Ongoing,
        boards_repeat(game.board(), game.board()),
    ensures
        game.repetitions() == game.earlier_repetitions() + 1,
        game.earlier_repetitions() >= 2 ==> game.status() == GameStatus::Drawn,
        game.earlier_repetitions() < 2 ==> game.status() == GameStatus::Ongoing,
{
}

/// A game without moves is never drawn by repetition: its status is that of
/// its starting board.
pub proof fn law_status_of_new_game(game: ChessGameView)
    requires
        game.stack.len() == 0,
    ensures
        game.status() == crate::board::spec_status(game.init_pos),
{
}

impl ChessGame {
    /// A game with no move played.
    pub fn new(init_pos: Board) -> (r: ChessGame)
        ensures
            r@ == (ChessGameView { init_pos, stack: Seq::empty() }),
            r@.wf(),
    {
        ChessGame { init_pos, stack: Vec::new() }
    }

    /// The position the game started from.
    pub fn init_pos(&self) -> (r: &Board)
        ensures
            *r == self@.init_pos,
    {
        &self.init_pos
    }

    /// The moves played, each with the board it led to.
    pub fn stack(&self) -> (r: &[(Move, Board)])
        ensures
            r@ == self@.stack,
    {
        self.stack.as_slice()
    }

    /// The current position.
    pub fn board(&self) -> (r: &Board)
        ensures
            *r == self@.board(),
    {
        let n = self.stack.len();
        if n == 0 {
            &self.init_pos
        } else {
            &self.stack[n - 1].1
        }
    }

    /// Whether the starting position can only be played as Chess960.
    pub fn needs_chess960(&self) -> (r: bool)
        ensures
            r == self@.needs_chess960(),
    {
        let white = castle_rights(&self.init_pos, Color::White);
        let black = castle_rights(&self.init_pos, Color::Black);
        !is_standard(white) || !is_standard(black)
    }

    /// How the game stands, threefold repetition included: a game is drawn
    /// where its board is ongoing and shows a position that stands for the
    /// third time or more, on the starting board or after a move.
    pub fn status(&self) -> (r: GameStatus)
        ensures
            r == self@.status(),
    {
        let current = self.board();
        let on_board = status(current);
        match on_board {
            GameStatus::Ongoing => {},
            _ => {
                return on_board;
            },
        }
        let n = self.stack.len();
        let mut repetitions: u128 = if same_position(&self.init_pos, current) {
            1
        } else {
            0
        };
        let mut i: usize = 0;
        assert(self.stack@.take(0) == Seq::<(Move, Board)>::empty());
        while i < n
            invariant
                i <= n,
                n == self.stack@.len(),
                *current == self@.board(),
                repetitions == self@.start_repeats(*current) + count_repeats(
                    self.stack@.take(i as int),
                    *current,
                ),
                repetitions <= i + 1,
            decreases n - i,
        {
            assert(self.stack@.take(i + 1).drop_last() == self.stack@.take(i as int));
            if same_position(&self.stack[i].1, current) {
                repetitions += 1;
            }
            i += 1;
        }
        assert(self.stack@.take(n as int) == self.stack@);
        if repetitions >= 3 {
            GameStatus::Drawn
        } else {
            GameStatus::Ongoing
        }
    }

    /// Plays a move that is legal in the current position.
    pub fn play(&mut self, mv: Move)
        requires
            spec_is_legal(old(self)@.board(), mv),
        ensures
            final(self)@ == old(self)@.play(mv),
            old(self)@.wf() ==> final(self)@.wf(),
    {
        proof {
            if self@.wf() {
                lemma_play_keeps_wf(self@, mv);
            }
        }
        let child = play(self.board(), mv);
        self.stack.push((mv, child));
    }

    /// Plays the move if it is legal in the current position, and says
    /// whether it was.
    pub fn try_play(&mut self, mv: Move) -> (played: bool)
        ensures
            played == spec_is_legal(old(self)@.board(), mv),
            final(self)@ == if played {
                old(self)@.play(mv)
            } else {
                old(self)@
            },
            old(self)@.wf() ==> final(self)@.wf(),
    {
        if is_legal(self.board(), mv) {
            self.play(mv);
            true
        } else {
            false
        }
    }
}

fn is_standard(rights: CastleRights) -> (r: bool)
    ensures
        r == standard_rights(rights),
{
    let long_ok = match rights.long {
        None => true,
        Some(File::A) => true,
        Some(_) => false,
    };
    let short_ok = match rights.short {
        None => true,
        Some(File::H) => true,
        Some(_) => false,
    };
    long_ok && short_ok
}

} // verus!
