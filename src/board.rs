use vstd::prelude::*;

use crate::piece::{Colour, Piece, PieceType};

verus! {

/// An 8x8 board, indexed `[row][column]`; row 0 is Black's back rank and
/// row 7 White's.
pub type Board = [[Option<Piece>; 8]; 8];

/// The mathematical model of a board: rows of cells.
pub type Grid = Seq<Seq<Option<Piece>>>;

/// The model of a board.
pub open spec fn grid(b: Board) -> Grid {
    Seq::new(8, |r: int| b[r]@)
}

/// Whether `(r, c)` names a square.
pub open spec fn on_board(r: int, c: int) -> bool {
    0 <= r < 8 && 0 <= c < 8
}

/// Whether the square `(y, x)` holds no piece.
pub open spec fn empty_at(g: Grid, y: int, x: int) -> bool {
    g[y][x] is None
}

/// The piece on an occupied square.
pub open spec fn piece_at(g: Grid, y: int, x: int) -> Piece {
    g[y][x]->Some_0
}

/// Whether the square `(y, x)` holds a piece of colour `col`.
pub open spec fn friendly_at(g: Grid, col: Colour, y: int, x: int) -> bool {
    g[y][x] is Some && piece_at(g, y, x).color == col
}

/// The grid after the piece on `(r, c)` has moved to `(tr, tc)`.
pub open spec fn moved(g: Grid, r: int, c: int, tr: int, tc: int) -> Grid {
    let g1 = g.update(tr, g[tr].update(tc, g[r][c]));
    g1.update(r, g1[r].update(c, None))
}

/// The kind placed on column `x` of a back rank.
pub open spec fn back_rank_kind(x: int) -> PieceType {
    if x == 0 || x == 7 {
        PieceType::ROOK
    } else if x == 1 || x == 6 {
        PieceType::KNIGHT
    } else if x == 2 || x == 5 {
        PieceType::BISHOP
    } else if x == 3 {
        PieceType::QUEEN
    } else {
        PieceType::KING
    }
}

/// What the standard starting position holds on `(y, x)`.
pub open spec fn initial_cell(y: int, x: int) -> Option<Piece> {
    if y == 0 {
        Some(Piece { color: Colour::Black, piece_type: back_rank_kind(x) })
    } else if y == 1 {
        Some(Piece { color: Colour::Black, piece_type: PieceType::PAWN })
    } else if y == 6 {
        Some(Piece { color: Colour::White, piece_type: PieceType::PAWN })
    } else if y == 7 {
        Some(Piece { color: Colour::White, piece_type: back_rank_kind(x) })
    } else {
        None
    }
}

/// Whether `g` is the standard starting position.
pub open spec fn is_initial(g: Grid) -> bool {
    g.len() == 8 && forall|y: int| 0 <= y < 8 ==> {
        &&& (#[trigger] g[y]).len() == 8
        &&& forall|x: int| 0 <= x < 8 ==> #[trigger] g[y][x] == initial_cell(y, x)
    }
}

/// The number of pieces among the first `n` cells of row `y`.
pub open spec fn row_count(g: Grid, y: int, n: int) -> nat
    decreases n,
{
    if n <= 0 {
        0
    } else {
        row_count(g, y, n - 1) + if g[y][n - 1] is Some {
            1nat
        } else {
            0nat
        }
    }
}

/// The number of pieces on the first `n` rows.
pub open spec fn piece_count(g: Grid, n: int) -> nat
    decreases n,
{
    if n <= 0 {
        0
    } else {
        piece_count(g, n - 1) + row_count(g, n - 1, 8)
    }
}

/// Reads a cell of the board.
pub fn cell(b: &Board, y: usize, x: usize) -> (r: Option<Piece>)
    requires
        on_board(y as int, x as int),
    ensures
        r == grid(*b)[y as int][x as int],
{
    b[y][x]
}

/// Moves the piece on `(r, c)` to `(tr, tc)`, leaving `(r, c)` empty.
pub fn move_piece(b: &mut Board, r: usize, c: usize, tr: usize, tc: usize)
    requires
        on_board(r as int, c as int),
        on_board(tr as int, tc as int),
    ensures
        grid(*final(b)) == moved(grid(*old(b)), r as int, c as int, tr as int, tc as int),
{
    let p = b[r][c];
    b[tr][tc] = p;
    b[r][c] = None;
    assert(grid(*b) =~= moved(grid(*old(b)), r as int, c as int, tr as int, tc as int));
}

} // verus!
