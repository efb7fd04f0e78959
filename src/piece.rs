use vstd::prelude::*;

verus! {

/// Status of a game.
#[derive(Clone, Copy, Debug, PartialEq, Eq, Structural)]
pub enum GameState {
    InProgress,
    Check,
    GameOver,
}

/// The two sides.
#[derive(Clone, Copy, Debug, PartialEq, Eq, Structural)]
pub enum Colour {
    White,
    Black,
}

/// The six kinds of chess piece.
#[derive(Clone, Copy, Debug, PartialEq, Eq, Structural)]
pub enum PieceType {
    PAWN,
    ROOK,
    BISHOP,
    KNIGHT,
    QUEEN,
    KING,
}

/// A piece: its side and its kind.
#[derive(Clone, Copy, Debug, PartialEq, Eq, Structural)]
pub struct Piece {
    pub color: Colour,
    pub piece_type: PieceType,
}

/// The side that is not `c`.
pub open spec fn opponent(c: Colour) -> Colour {
    match c {
        Colour::White => Colour::Black,
        Colour::Black => Colour::White,
    }
}

/// Returns the side that is not `c`.
pub fn other_colour(c: Colour) -> (r: Colour)
    ensures
        r == opponent(c),
{
    match c {
        Colour::White => Colour::Black,
        Colour::Black => Colour::White,
    }
}

} // verus!
