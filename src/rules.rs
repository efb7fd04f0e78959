use vstd::prelude::*;

use crate::board::{cell, empty_at, friendly_at, grid, on_board, piece_at, Board, Grid};
use crate::piece::{Colour, Piece, PieceType};

verus! {

/// Absolute value.
pub open spec fn abs(d: int) -> int {
    if d < 0 {
        -d
    } else {
        d
    }
}

/// `a` moved `k` steps in the direction of the sign of `d`.
pub open spec fn toward(a: int, d: int, k: int) -> int {
    if d > 0 {
        a + k
    } else if d < 0 {
        a - k
    } else {
        a
    }
}

/// Chebyshev distance between `(r, c)` and `(tr, tc)`.
pub open spec fn distance(r: int, c: int, tr: int, tc: int) -> int {
    if abs(tr - r) > abs(tc - c) {
        abs(tr - r)
    } else {
        abs(tc - c)
    }
}

/// Whether the two squares share a row or a column and differ.
pub open spec fn straight(r: int, c: int, tr: int, tc: int) -> bool {
    (r == tr) != (c == tc)
}

/// Whether the two squares share a diagonal and differ.
pub open spec fn diagonal(r: int, c: int, tr: int, tc: int) -> bool {
    abs(tr - r) == abs(tc - c) && tr != r
}

/// The cell `k` steps from `(r, c)` on the line toward `(tr, tc)`.
pub open spec fn ray_cell(g: Grid, r: int, c: int, tr: int, tc: int, k: int) -> Option<Piece> {
    g[toward(r, tr - r, k)][toward(c, tc - c, k)]
}

/// Whether every square strictly between `(r, c)` and `(tr, tc)` on their
/// common line is empty.
pub open spec fn path_clear(g: Grid, r: int, c: int, tr: int, tc: int) -> bool {
    forall|k: int| 0 < k < distance(r, c, tr, tc) ==> #[trigger] ray_cell(g, r, c, tr, tc, k) is None
}

/// The row direction in which pawns of colour `col` advance.
pub open spec fn forward(col: Colour) -> int {
    match col {
        Colour::White => -1,
        Colour::Black => 1,
    }
}

/// The row on which pawns of colour `col` start.
pub open spec fn pawn_row(col: Colour) -> int {
    match col {
        Colour::White => 6,
        Colour::Black => 1,
    }
}

/// Whether a pawn `p` on `(r, c)` may go to `(tr, tc)`: one step forward to an
/// empty square, two steps from its starting row over two empty squares, or
/// one step diagonally forward onto an occupied square.
pub open spec fn pawn_reach(g: Grid, p: Piece, r: int, c: int, tr: int, tc: int) -> bool {
    let f = forward(p.color);
    ||| tc == c && tr == r + f && empty_at(g, tr, tc)
    ||| tc == c && r == pawn_row(p.color) && tr == r + 2 * f && empty_at(g, r + f, c) && empty_at(g, tr, tc)
    ||| abs(tc - c) == 1 && tr == r + f && !empty_at(g, tr, tc)
}

/// Whether the movement rule of `p`, standing on `(r, c)`, takes it to
/// `(tr, tc)`, ignoring what stands on the destination itself (but for pawns).
pub open spec fn kind_reach(g: Grid, p: Piece, r: int, c: int, tr: int, tc: int) -> bool {
    match p.piece_type {
        PieceType::ROOK => straight(r, c, tr, tc) && path_clear(g, r, c, tr, tc),
        PieceType::BISHOP => diagonal(r, c, tr, tc) && path_clear(g, r, c, tr, tc),
        PieceType::QUEEN => (straight(r, c, tr, tc) || diagonal(r, c, tr, tc)) && path_clear(g, r, c, tr, tc),
        PieceType::KING => distance(r, c, tr, tc) == 1,
        PieceType::KNIGHT => abs(tr - r) + abs(tc - c) == 3 && abs(tr - r) < 3 && abs(tc - c) < 3,
        PieceType::PAWN => pawn_reach(g, p, r, c, tr, tc),
    }
}

/// Whether the piece on `(r, c)` has `(tr, tc)` among its pseudo-legal
/// destinations: its movement rule reaches it and no piece of its own colour
/// stands there.
pub open spec fn pseudo_dest(g: Grid, r: int, c: int, tr: int, tc: int) -> bool {
    &&& on_board(tr, tc)
    &&& g[r][c] is Some
    &&& kind_reach(g, piece_at(g, r, c), r, c, tr, tc)
    &&& !friendly_at(g, piece_at(g, r, c).color, tr, tc)
}

fn gap(a: usize, b: usize) -> (r: usize)
    ensures
        r == abs(b - a),
{
    if a > b {
        a - b
    } else {
        b - a
    }
}

fn toward_exec(a: usize, target: usize, k: usize) -> (r: usize)
    requires
        k <= abs(target - a),
    ensures
        r == toward(a as int, target - a, k as int),
{
    if target > a {
        a + k
    } else if target < a {
        a - k
    } else {
        a
    }
}

/// Tests whether the squares strictly between two squares on one line are empty.
fn path_clear_exec(b: &Board, r: usize, c: usize, tr: usize, tc: usize) -> (res: bool)
    requires
        on_board(r as int, c as int),
        on_board(tr as int, tc as int),
        straight(r as int, c as int, tr as int, tc as int) || diagonal(r as int, c as int, tr as int, tc as int),
    ensures
        res == path_clear(grid(*b), r as int, c as int, tr as int, tc as int),
{
    let dr = gap(r, tr);
    let dc = gap(c, tc);
    let n = if dr > dc { dr } else { dc };
    let mut k: usize = 1;
    while k < n
        invariant
            1 <= k <= n,
            n == distance(r as int, c as int, tr as int, tc as int),
            dr == abs(tr - r),
            dc == abs(tc - c),
            on_board(r as int, c as int),
            on_board(tr as int, tc as int),
            straight(r as int, c as int, tr as int, tc as int) || diagonal(r as int, c as int, tr as int, tc as int),
            forall|j: int| 0 < j < k ==> #[trigger] ray_cell(grid(*b), r as int, c as int, tr as int, tc as int, j) is None,
        decreases n - k,
    {
        let y = if dr == 0 { r } else { toward_exec(r, tr, k) };
        let x = if dc == 0 { c } else { toward_exec(c, tc, k) };
        if cell(b, y, x).is_some() {
            assert(ray_cell(grid(*b), r as int, c as int, tr as int, tc as int, k as int) is Some);
            return false;
        }
        k = k + 1;
    }
    true
}

/// Tests whether `(tr, tc)` is a pseudo-legal destination of the piece on `(r, c)`.
pub fn reaches(b: &Board, r: usize, c: usize, tr: usize, tc: usize) -> (res: bool)
    requires
        on_board(r as int, c as int),
        on_board(tr as int, tc as int),
        grid(*b)[r as int][c as int] is Some,
    ensures
        res == pseudo_dest(grid(*b), r as int, c as int, tr as int, tc as int),
{
    let p = cell(b, r, c).unwrap();
    let target = cell(b, tr, tc);
    if let Some(q) = target {
        if q.color == p.color {
            return false;
        }
    }
    let dr = gap(r, tr);
    let dc = gap(c, tc);
    match p.piece_type {
        PieceType::ROOK => (dr == 0) != (dc == 0) && path_clear_exec(b, r, c, tr, tc),
        PieceType::BISHOP => dr == dc && dr != 0 && path_clear_exec(b, r, c, tr, tc),
        PieceType::QUEEN => ((dr == 0) != (dc == 0) || (dr == dc && dr != 0)) && path_clear_exec(
            b,
            r,
            c,
            tr,
            tc,
        ),
        PieceType::KING => (dr == 1 && dc <= 1) || (dc == 1 && dr <= 1),
        PieceType::KNIGHT => (dr == 1 && dc == 2) || (dr == 2 && dc == 1),
        PieceType::PAWN => {
            let ahead = match p.color {
                Colour::White => tr + 1 == r,
                Colour::Black => r + 1 == tr,
            };
            let two_ahead = match p.color {
                Colour::White => r == 6 && tr == 4,
                Colour::Black => r == 1 && tr == 3,
            };
            if tc == c {
                if ahead {
                    target.is_none()
                } else if two_ahead {
                    let mid: usize = match p.color {
                        Colour::White => 5,
                        Colour::Black => 2,
                    };
                    cell(b, mid, c).is_none() && target.is_none()
                } else {
                    false
                }
            } else {
                dc == 1 && ahead && target.is_some()
            }
        },
    }
}

} // verus!
