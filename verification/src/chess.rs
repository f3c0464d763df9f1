//! The small value types of chess: colors, pieces, files, ranks, squares and
//! moves.  Each has an index, the number by which the chess rules know it.

use vstd::prelude::*;

verus! {

/// A side.
#[derive(Clone, Copy, Debug, PartialEq, Eq, Hash, Structural)]
pub enum Color {
    White,
    Black,
}

impl Color {
    /// The place of this value among the 2 of its kind, counted from 0.
    pub open spec fn spec_index(self) -> u8 {
        match self {
            Color::White => 0,
            Color::Black => 1,
        }
    }

    /// The value at the given place; a number past the last place reads as the last.
    pub open spec fn spec_from_index(i: u8) -> Color {
        if i == 0 {
            Color::White
        } else {
            Color::Black
        }
    }

    pub fn index(self) -> (r: u8)
        ensures
            r == self.spec_index(),
            r < 2,
    {
        match self {
            Color::White => 0,
            Color::Black => 1,
        }
    }

    pub fn from_index(i: u8) -> (r: Color)
        requires
            i < 2,
        ensures
            r == Color::spec_from_index(i),
            r.spec_index() == i,
    {
        if i == 0 {
            Color::White
        } else {
            Color::Black
        }
    }

    /// The opponent of this side.
    pub open spec fn spec_other(self) -> Color {
        match self {
            Color::White => Color::Black,
            Color::Black => Color::White,
        }
    }

    /// The opponent of this side.
    pub fn other(self) -> (r: Color)
        ensures
            r == self.spec_other(),
    {
        match self {
            Color::White => Color::Black,
            Color::Black => Color::White,
        }
    }
}

/// A kind of piece, in the order of its worth.
#[derive(Clone, Copy, Debug, PartialEq, Eq, Hash, Structural)]
pub enum Piece {
    Pawn,
    Knight,
    Bishop,
    Rook,
    Queen,
    King,
}

impl Piece {
    /// The place of this value among the 6 of its kind, counted from 0.
    pub open spec fn spec_index(self) -> u8 {
        match self {
            Piece::Pawn => 0,
            Piece::Knight => 1,
            Piece::Bishop => 2,
            Piece::Rook => 3,
            Piece::Queen => 4,
            Piece::King => 5,
        }
    }

    /// The value at the given place; a number past the last place reads as the last.
    pub open spec fn spec_from_index(i: u8) -> Piece {
        if i == 0 {
            Piece::Pawn
        } else if i == 1 {
            Piece::Knight
        } else if i == 2 {
            Piece::Bishop
        } else if i == 3 {
            Piece::Rook
        } else if i == 4 {
            Piece::Queen
        } else {
            Piece::King
        }
    }

    pub fn index(self) -> (r: u8)
        ensures
            r == self.spec_index(),
            r < 6,
    {
        match self {
            Piece::Pawn => 0,
            Piece::Knight => 1,
            Piece::Bishop => 2,
            Piece::Rook => 3,
            Piece::Queen => 4,
            Piece::King => 5,
        }
    }

    pub fn from_index(i: u8) -> (r: Piece)
        requires
            i < 6,
        ensures
            r == Piece::spec_from_index(i),
            r.spec_index() == i,
    {
        if i == 0 {
            Piece::Pawn
        } else if i == 1 {
            Piece::Knight
        } else if i == 2 {
            Piece::Bishop
        } else if i == 3 {
            Piece::Rook
        } else if i == 4 {
            Piece::Queen
        } else {
            Piece::King
        }
    }
}

/// A column of the board, from the queenside to the kingside.
#[derive(Clone, Copy, Debug, PartialEq, Eq, Hash, Structural)]
pub enum File {
    A,
    B,
    C,
    D,
    E,
    F,
    G,
    H,
}

impl File {
    /// The place of this value among the 8 of its kind, counted from 0.
    pub open spec fn spec_index(self) -> u8 {
        match self {
            File::A => 0,
            File::B => 1,
            File::C => 2,
            File::D => 3,
            File::E => 4,
            File::F => 5,
            File::G => 6,
            File::H => 7,
        }
    }

    /// The value at the given place; a number past the last place reads as the last.
    pub open spec fn spec_from_index(i: u8) -> File {
        if i == 0 {
            File::A
        } else if i == 1 {
            File::B
        } else if i == 2 {
            File::C
        } else if i == 3 {
            File::D
        } else if i == 4 {
            File::E
        } else if i == 5 {
            File::F
        } else if i == 6 {
            File::G
        } else {
            File::H
        }
    }

    pub fn index(self) -> (r: u8)
        ensures
            r == self.spec_index(),
            r < 8,
    {
        match self {
            File::A => 0,
            File::B => 1,
            File::C => 2,
            File::D => 3,
            File::E => 4,
            File::F => 5,
            File::G => 6,
            File::H => 7,
        }
    }

    pub fn from_index(i: u8) -> (r: File)
        requires
            i < 8,
        ensures
            r == File::spec_from_index(i),
            r.spec_index() == i,
    {
        if i == 0 {
            File::A
        } else if i == 1 {
            File::B
        } else if i == 2 {
            File::C
        } else if i == 3 {
            File::D
        } else if i == 4 {
            File::E
        } else if i == 5 {
            File::F
        } else if i == 6 {
            File::G
        } else {
            File::H
        }
    }
}

/// A row of the board, from white's side to black's.
#[derive(Clone, Copy, Debug, PartialEq, Eq, Hash, Structural)]
pub enum Rank {
    First,
    Second,
    Third,
    Fourth,
    Fifth,
    Sixth,
    Seventh,
    Eighth,
}

impl Rank {
    /// The place of this value among the 8 of its kind, counted from 0.
    pub open spec fn spec_index(self) -> u8 {
        match self {
            Rank::First => 0,
            Rank::Second => 1,
            Rank::Third => 2,
            Rank::Fourth => 3,
            Rank::Fifth => 4,
            Rank::Sixth => 5,
            Rank::Seventh => 6,
            Rank::Eighth => 7,
        }
    }

    /// The value at the given place; a number past the last place reads as the last.
    pub open spec fn spec_from_index(i: u8) -> Rank {
        if i == 0 {
            Rank::First
        } else if i == 1 {
            Rank::Second
        } else if i == 2 {
            Rank::Third
        } else if i == 3 {
            Rank::Fourth
        } else if i == 4 {
            Rank::Fifth
        } else if i == 5 {
            Rank::Sixth
        } else if i == 6 {
            Rank::Seventh
        } else {
            Rank::Eighth
        }
    }

    pub fn index(self) -> (r: u8)
        ensures
            r == self.spec_index(),
            r < 8,
    {
        match self {
            Rank::First => 0,
            Rank::Second => 1,
            Rank::Third => 2,
            Rank::Fourth => 3,
            Rank::Fifth => 4,
            Rank::Sixth => 5,
            Rank::Seventh => 6,
            Rank::Eighth => 7,
        }
    }

    pub fn from_index(i: u8) -> (r: Rank)
        requires
            i < 8,
        ensures
            r == Rank::spec_from_index(i),
            r.spec_index() == i,
    {
        if i == 0 {
            Rank::First
        } else if i == 1 {
            Rank::Second
        } else if i == 2 {
            Rank::Third
        } else if i == 3 {
            Rank::Fourth
        } else if i == 4 {
            Rank::Fifth
        } else if i == 5 {
            Rank::Sixth
        } else if i == 6 {
            Rank::Seventh
        } else {
            Rank::Eighth
        }
    }
}

/// How a position stands for the side to move.
#[derive(Clone, Copy, Debug, PartialEq, Eq, Hash, Structural)]
pub enum GameStatus {
    Won,
    Drawn,
    Ongoing,
}

impl GameStatus {
    /// The place of this value among the 3 of its kind, counted from 0.
    pub open spec fn spec_index(self) -> u8 {
        match self {
            GameStatus::Won => 0,
            GameStatus::Drawn => 1,
            GameStatus::Ongoing => 2,
        }
    }

    /// The value at the given place; a number past the last place reads as the last.
    pub open spec fn spec_from_index(i: u8) -> GameStatus {
        if i == 0 {
            GameStatus::Won
        } else if i == 1 {
            GameStatus::Drawn
        } else {
            GameStatus::Ongoing
        }
    }

    pub fn index(self) -> (r: u8)
        ensures
            r == self.spec_index(),
            r < 3,
    {
        match self {
            GameStatus::Won => 0,
            GameStatus::Drawn => 1,
            GameStatus::Ongoing => 2,
        }
    }

    pub fn from_index(i: u8) -> (r: GameStatus)
        requires
            i < 3,
        ensures
            r == GameStatus::spec_from_index(i),
            r.spec_index() == i,
    {
        if i == 0 {
            GameStatus::Won
        } else if i == 1 {
            GameStatus::Drawn
        } else {
            GameStatus::Ongoing
        }
    }
}

/// A square of the board.
#[derive(Clone, Copy, Debug, PartialEq, Eq, Hash, Structural)]
pub struct Square {
    pub file: File,
    pub rank: Rank,
}

impl Square {
    /// The place of the square on the board, counted rank by rank from A1.
    pub open spec fn spec_index(self) -> u8 {
        (self.rank.spec_index() * 8 + self.file.spec_index()) as u8
    }

    pub open spec fn spec_from_index(i: u8) -> Square {
        Square { file: File::spec_from_index(i % 8), rank: Rank::spec_from_index(i / 8) }
    }

    pub fn new(file: File, rank: Rank) -> (r: Square)
        ensures
            r == (Square { file, rank }),
    {
        Square { file, rank }
    }

    pub fn file(self) -> (r: File)
        ensures
            r == self.file,
    {
        self.file
    }

    pub fn rank(self) -> (r: Rank)
        ensures
            r == self.rank,
    {
        self.rank
    }

    pub fn index(self) -> (r: u8)
        ensures
            r == self.spec_index(),
            r < 64,
    {
        self.rank.index() * 8 + self.file.index()
    }

    pub fn from_index(i: u8) -> (r: Square)
        requires
            i < 64,
        ensures
            r == Square::spec_from_index(i),
            r.spec_index() == i,
    {
        Square { file: File::from_index(i % 8), rank: Rank::from_index(i / 8) }
    }
}

/// A move: a piece leaves one square for another, and a pawn that reaches the
/// last rank becomes the piece named.  Castling is the king going to the
/// square of the rook it castles with.
#[derive(Clone, Copy, Debug, PartialEq, Eq, Hash, Structural)]
pub struct Move {
    pub from: Square,
    pub to: Square,
    pub promotion: Option<Piece>,
}

impl Move {
    /// The same move with another destination.
    pub open spec fn spec_with_to(self, to: Square) -> Move {
        Move { from: self.from, to, promotion: self.promotion }
    }
}

/// The files of the rooks a side may still castle with.
#[derive(Clone, Copy, Debug, PartialEq, Eq, Hash, Structural)]
pub struct CastleRights {
    pub short: Option<File>,
    pub long: Option<File>,
}

} // verus!
