//! Positions.  A position is a `cozy_chess::Board`; what the rules of chess
//! say of it is asked of that library, and named here so that contracts can
//! speak of it.

use vstd::prelude::*;
use cozy_chess::Board;
use crate::chess::{CastleRights, Color, File, GameStatus, Move, Piece, Square};

verus! {

/// Makes `cozy_chess::Board` known to the verifier, as a type it cannot
/// see into.
#[verifier::external_type_specification]
#[verifier::external_body]
pub struct ExBoard(cozy_chess::Board);

/// What `Board::side_to_move` gives for a board, as the index of the color.
pub uninterp spec fn side_to_move_index(board: Board) -> u8;

/// What `Board::piece_on` gives for a board and the square with the given
/// index, as the index of the kind of piece.
pub uninterp spec fn piece_index_on(board: Board, square: u8) -> Option<u8>;

/// What `Board::color_on` gives for a board and the square with the given
/// index, as the index of the color.
pub uninterp spec fn color_index_on(board: Board, square: u8) -> Option<u8>;

/// What `Board::castle_rights` gives for a board and the color with the
/// given index, as the indices of the two rook files: the short side first,
/// then the long side.
pub uninterp spec fn castle_file_indices(board: Board, color: u8) -> (Option<u8>, Option<u8>);

/// What `Board::status` gives for a board, as the index of the status.
pub uninterp spec fn status_index(board: Board) -> u8;

/// What `Board::same_position` gives for two boards: whether they show the
/// same position for the purposes of repetition.
pub uninterp spec fn boards_repeat(a: Board, b: Board) -> bool;

/// What `Board::is_legal` gives for a board and the move between the squares
/// with the given indices that promotes to the kind of piece with the given
/// index.
pub uninterp spec fn move_is_legal(board: Board, from: u8, to: u8, promotion: Option<u8>) -> bool;

/// The board that `Board::play` leaves for a board and such a move.
pub uninterp spec fn board_after(board: Board, from: u8, to: u8, promotion: Option<u8>) -> Board;

/// Calls `Board::side_to_move`.  Believed of it: the color depends on the
/// board alone, and its cast is 0 for white and 1 for black, the order in
/// which `cozy_chess::Color` lists them.
#[verifier::external_body]
fn board_side_to_move(board: &Board) -> (r: u8)
    ensures
        r == side_to_move_index(*board),
        r < 2,
{
    board.side_to_move() as u8
}

/// Calls `Board::piece_on` on `Square::index(square)`, which takes every
/// index below 64.  Believed of it: what it gives depends on the board and
/// the square alone, and the cast of a kind of piece is below 6, there being
/// six kinds.
#[verifier::external_body]
fn board_piece_on(board: &Board, square: u8) -> (r: Option<u8>)
    requires
        square < 64,
    ensures
        r == piece_index_on(*board, square),
        r matches Some(p) ==> p < 6,
{
    board.piece_on(cozy_chess::Square::index(square as usize)).map(|p| p as u8)
}

/// Calls `Board::color_on` on `Square::index(square)`.  Believed of it:
/// what it gives depends on the board and the square alone, and the cast of
/// a color is below 2.
#[verifier::external_body]
fn board_color_on(board: &Board, square: u8) -> (r: Option<u8>)
    requires
        square < 64,
    ensures
        r == color_index_on(*board, square),
        r matches Some(c) ==> c < 2,
{
    board.color_on(cozy_chess::Square::index(square as usize)).map(|c| c as u8)
}

/// Calls `Board::castle_rights` on `Color::index(color)`, which takes 0
/// and 1, and reads the two fields of what it gives.  Believed of it: they
/// depend on the board and the color alone, and the cast of a file is below
/// 8.
#[verifier::external_body]
fn board_castle_rights(board: &Board, color: u8) -> (r: (Option<u8>, Option<u8>))
    requires
        color < 2,
    ensures
        r == castle_file_indices(*board, color),
        r.0 matches Some(f) ==> f < 8,
        r.1 matches Some(f) ==> f < 8,
{
    let rights = board.castle_rights(cozy_chess::Color::index(color as usize));
    (rights.short.map(|f| f as u8), rights.long.map(|f| f as u8))
}

/// Calls `Board::status`.  Believed of it: the status depends on the board
/// alone, and its cast is 0 for won, 1 for drawn and 2 for ongoing, the
/// order in which `cozy_chess::GameStatus` lists them.
#[verifier::external_body]
fn board_status(board: &Board) -> (r: u8)
    ensures
        r == status_index(*board),
        r < 3,
{
    board.status() as u8
}

/// Calls `Board::same_position`.  Believed of it: the answer depends on the
/// two boards alone, and a board is in the same position as itself, since
/// the function compares the two boards part by part.
#[verifier::external_body]
fn board_same_position(a: &Board, b: &Board) -> (r: bool)
    ensures
        r == boards_repeat(*a, *b),
        *a == *b ==> r,
{
    a.same_position(b)
}

/// Calls `Board::is_legal` on the move made of `Square::index(from)`,
/// `Square::index(to)` and `Piece::index(promotion)`.  Believed of it: the
/// answer depends on the board and the move alone.
#[verifier::external_body]
fn board_is_legal(board: &Board, from: u8, to: u8, promotion: Option<u8>) -> (r: bool)
    requires
        from < 64,
        to < 64,
        promotion matches Some(p) ==> p < 6,
    ensures
        r == move_is_legal(*board, from, to, promotion),
{
    board.is_legal(
        cozy_chess::Move {
            from: cozy_chess::Square::index(from as usize),
            to: cozy_chess::Square::index(to as usize),
            promotion: promotion.map(|p| cozy_chess::Piece::index(p as usize)),
        },
    )
}

/// Calls `Board::play` on the move made of the given indices.  It panics
/// on a move for which `Board::is_legal` answers no, which the precondition
/// leaves out.  Believed of it: the board it leaves depends on the board it
/// found and the move alone.
#[verifier::external_body]
fn board_play(board: &mut Board, from: u8, to: u8, promotion: Option<u8>)
    requires
        from < 64,
        to < 64,
        promotion matches Some(p) ==> p < 6,
        move_is_legal(*old(board), from, to, promotion),
    ensures
        *final(board) == board_after(*old(board), from, to, promotion),
{
    board.play(
        cozy_chess::Move {
            from: cozy_chess::Square::index(from as usize),
            to: cozy_chess::Square::index(to as usize),
            promotion: promotion.map(|p| cozy_chess::Piece::index(p as usize)),
        },
    )
}

/// `Board::clone`, which `cozy_chess` derives.  Believed of it: the copy is
/// the same board.
pub assume_specification[ <cozy_chess::Board as Clone>::clone ](board: &Board) -> (r: Board)
    ensures
        r == *board,
;

pub open spec fn spec_promotion_index(promotion: Option<Piece>) -> Option<u8> {
    match promotion {
        Some(p) => Some(p.spec_index()),
        None => None,
    }
}

/// The side to move.
pub open spec fn spec_side_to_move(board: Board) -> Color {
    Color::spec_from_index(side_to_move_index(board))
}

/// The kind of piece that stands on a square.
pub open spec fn spec_piece_on(board: Board, square: Square) -> Option<Piece> {
    match piece_index_on(board, square.spec_index()) {
        Some(p) => Some(Piece::spec_from_index(p)),
        None => None,
    }
}

/// The color of the piece that stands on a square.
pub open spec fn spec_color_on(board: Board, square: Square) -> Option<Color> {
    match color_index_on(board, square.spec_index()) {
        Some(c) => Some(Color::spec_from_index(c)),
        None => None,
    }
}

pub open spec fn spec_file_of(index: Option<u8>) -> Option<File> {
    match index {
        Some(f) => Some(File::spec_from_index(f)),
        None => None,
    }
}

/// The rooks a side may still castle with.
pub open spec fn spec_castle_rights(board: Board, color: Color) -> CastleRights {
    CastleRights {
        short: spec_file_of(castle_file_indices(board, color.spec_index()).0),
        long: spec_file_of(castle_file_indices(board, color.spec_index()).1),
    }
}

/// Whether the side to move has won, drawn, or has yet to do either.
pub open spec fn spec_status(board: Board) -> GameStatus {
    GameStatus::spec_from_index(status_index(board))
}

/// Whether the move is legal on the board.
pub open spec fn spec_is_legal(board: Board, mv: Move) -> bool {
    move_is_legal(
        board,
        mv.from.spec_index(),
        mv.to.spec_index(),
        spec_promotion_index(mv.promotion),
    )
}

/// The board after the move.
pub open spec fn spec_play(board: Board, mv: Move) -> Board {
    board_after(
        board,
        mv.from.spec_index(),
        mv.to.spec_index(),
        spec_promotion_index(mv.promotion),
    )
}

fn promotion_index(promotion: Option<Piece>) -> (r: Option<u8>)
    ensures
        r == spec_promotion_index(promotion),
        r matches Some(p) ==> p < 6,
{
    match promotion {
        Some(p) => Some(p.index()),
        None => None,
    }
}

fn file_of(index: Option<u8>) -> (r: Option<File>)
    requires
        index matches Some(f) ==> f < 8,
    ensures
        r == spec_file_of(index),
{
    match index {
        Some(f) => Some(File::from_index(f)),
        None => None,
    }
}

/// The side to move.
pub fn side_to_move(board: &Board) -> (r: Color)
    ensures
        r == spec_side_to_move(*board),
{
    Color::from_index(board_side_to_move(board))
}

/// The kind of piece that stands on a square.
pub fn piece_on(board: &Board, square: Square) -> (r: Option<Piece>)
    ensures
        r == spec_piece_on(*board, square),
{
    match board_piece_on(board, square.index()) {
        Some(p) => Some(Piece::from_index(p)),
        None => None,
    }
}

/// The color of the piece that stands on a square.
pub fn color_on(board: &Board, square: Square) -> (r: Option<Color>)
    ensures
        r == spec_color_on(*board, square),
{
    match board_color_on(board, square.index()) {
        Some(c) => Some(Color::from_index(c)),
        None => None,
    }
}

/// The rooks a side may still castle with.
pub fn castle_rights(board: &Board, color: Color) -> (r: CastleRights)
    ensures
        r == spec_castle_rights(*board, color),
{
    let files = board_castle_rights(board, color.index());
    CastleRights { short: file_of(files.0), long: file_of(files.1) }
}

/// Whether the side to move has won, drawn, or has yet to do either.
pub fn status(board: &Board) -> (r: GameStatus)
    ensures
        r == spec_status(*board),
{
    GameStatus::from_index(board_status(board))
}

/// Whether two boards show the same position for the purposes of repetition.
pub fn same_position(a: &Board, b: &Board) -> (r: bool)
    ensures
        r == boards_repeat(*a, *b),
        *a == *b ==> r,
{
    board_same_position(a, b)
}

/// Whether the move is legal on the board.
pub fn is_legal(board: &Board, mv: Move) -> (r: bool)
    ensures
        r == spec_is_legal(*board, mv),
{
    board_is_legal(board, mv.from.index(), mv.to.index(), promotion_index(mv.promotion))
}

/// The board after a legal move.
pub fn play(board: &Board, mv: Move) -> (r: Board)
    requires
        spec_is_legal(*board, mv),
    ensures
        r == spec_play(*board, mv),
{
    let mut child = board.clone();
    board_play(&mut child, mv.from.index(), mv.to.index(), promotion_index(mv.promotion));
    child
}

/// The board after the move, if the move is legal.
pub fn try_play(board: &Board, mv: Move) -> (r: Option<Board>)
    ensures
        r == if spec_is_legal(*board, mv) {
            Some(spec_play(*board, mv))
        } else {
            None
        },
{
    if is_legal(board, mv) {
        Some(play(board, mv))
    } else {
        None
    }
}

} // verus!
