use vstd::prelude::*;

use crate::board::{cell, grid, move_piece, moved, on_board, piece_at, Board, Grid};
use crate::piece::{opponent, other_colour, Colour, Piece, PieceType};
use crate::rules::{pseudo_dest, reaches};

verus! {

/// The square of the last king of colour `col`, in row-major order, among
/// the first `n` cells of the board.
pub open spec fn last_king(g: Grid, col: Colour, n: int) -> Option<(int, int)>
    decreases n,
{
    if n <= 0 {
        None
    } else if g[(n - 1) / 8][(n - 1) % 8] == Some(Piece { color: col, piece_type: PieceType::KING }) {
        Some(((n - 1) / 8, (n - 1) % 8))
    } else {
        last_king(g, col, n - 1)
    }
}

/// The square of the king of colour `col`: the last one in row-major order
/// where there are several, none where there is none.
pub open spec fn king_of(g: Grid, col: Colour) -> Option<(int, int)> {
    last_king(g, col, 64)
}

/// Whether some piece of colour `by` has `(tr, tc)` among its pseudo-legal
/// destinations.
pub open spec fn attacked(g: Grid, by: Colour, tr: int, tc: int) -> bool {
    exists|y: int, x: int|
        on_board(y, x) && g[y][x] is Some && piece_at(g, y, x).color == by && #[trigger] pseudo_dest(
            g,
            y,
            x,
            tr,
            tc,
        )
}

/// The king square that a move of the piece on `(r, c)` to `(tr, tc)` must
/// not leave attacked: the destination where the king itself moves, else
/// where its side's king stands before the move.
pub open spec fn guarded_square(g: Grid, r: int, c: int, tr: int, tc: int) -> Option<(int, int)> {
    if piece_at(g, r, c).piece_type == PieceType::KING {
        Some((tr, tc))
    } else {
        king_of(g, piece_at(g, r, c).color)
    }
}

/// Whether the move of the piece on `(r, c)` to `(tr, tc)` leaves its side's
/// king attacked by a pseudo-legal move of the other side.
pub open spec fn exposes_king(g: Grid, r: int, c: int, tr: int, tc: int) -> bool {
    match guarded_square(g, r, c, tr, tc) {
        None => false,
        Some(k) => attacked(moved(g, r, c, tr, tc), opponent(piece_at(g, r, c).color), k.0, k.1),
    }
}

/// Whether `(tr, tc)` is a legal destination of the piece on `(r, c)`.
pub open spec fn legal_dest(g: Grid, r: int, c: int, tr: int, tc: int) -> bool {
    pseudo_dest(g, r, c, tr, tc) && !exposes_king(g, r, c, tr, tc)
}

/// Whether the side `by`, having just moved, attacks the other side's king.
pub open spec fn gives_check(g: Grid, by: Colour) -> bool {
    match king_of(g, opponent(by)) {
        None => false,
        Some(k) => attacked(g, by, k.0, k.1),
    }
}

/// Finds the king of colour `col`.
pub fn find_king(b: &Board, col: Colour) -> (res: Option<(usize, usize)>)
    ensures
        match res {
            None => king_of(grid(*b), col) is None,
            Some(k) => king_of(grid(*b), col) == Some((k.0 as int, k.1 as int)),
        },
{
    let mut found: Option<(usize, usize)> = None;
    let mut i: usize = 0;
    while i < 64
        invariant
            i <= 64,
            match found {
                None => last_king(grid(*b), col, i as int) is None,
                Some(k) => last_king(grid(*b), col, i as int) == Some((k.0 as int, k.1 as int)),
            },
        decreases 64 - i,
    {
        let y = i / 8;
        let x = i % 8;
        if cell(b, y, x) == Some(Piece { color: col, piece_type: PieceType::KING }) {
            found = Some((y, x));
        }
        i = i + 1;
    }
    found
}

/// Tests whether some piece of colour `by` has `(tr, tc)` among its
/// pseudo-legal destinations.
pub fn is_attacked(b: &Board, by: Colour, tr: usize, tc: usize) -> (res: bool)
    requires
        on_board(tr as int, tc as int),
    ensures
        res == attacked(grid(*b), by, tr as int, tc as int),
{
    let ghost g = grid(*b);
    let mut y: usize = 0;
    while y < 8
        invariant
            y <= 8,
            g == grid(*b),
            on_board(tr as int, tc as int),
            forall|yy: int, xx: int|
                0 <= yy < y && 0 <= xx < 8 && g[yy][xx] is Some && piece_at(g, yy, xx).color == by
                    ==> !#[trigger] pseudo_dest(g, yy, xx, tr as int, tc as int),
        decreases 8 - y,
    {
        let mut x: usize = 0;
        while x < 8
            invariant
                y < 8,
                x <= 8,
                g == grid(*b),
                on_board(tr as int, tc as int),
                forall|yy: int, xx: int|
                    ((0 <= yy < y && 0 <= xx < 8) || (yy == y && 0 <= xx < x)) && g[yy][xx] is Some
                        && piece_at(g, yy, xx).color == by ==> !#[trigger] pseudo_dest(
                        g,
                        yy,
                        xx,
                        tr as int,
                        tc as int,
                    ),
            decreases 8 - x,
        {
            if let Some(q) = cell(b, y, x) {
                if q.color == by && reaches(b, y, x, tr, tc) {
                    return true;
                }
            }
            x = x + 1;
        }
        y = y + 1;
    }
    false
}

/// Tests whether `(tr, tc)` is a legal destination of the piece on `(r, c)`.
pub fn is_legal(b: &Board, r: usize, c: usize, tr: usize, tc: usize) -> (res: bool)
    requires
        on_board(r as int, c as int),
        on_board(tr as int, tc as int),
        grid(*b)[r as int][c as int] is Some,
    ensures
        res == legal_dest(grid(*b), r as int, c as int, tr as int, tc as int),
{
    if !reaches(b, r, c, tr, tc) {
        return false;
    }
    let p = cell(b, r, c).unwrap();
    let guard = if p.piece_type == PieceType::KING {
        Some((tr, tc))
    } else {
        find_king(b, p.color)
    };
    match guard {
        None => true,
        Some(k) => {
            let mut hypothetical = *b;
            move_piece(&mut hypothetical, r, c, tr, tc);
            proof {
                if p.piece_type != PieceType::KING {
                    assert(on_board(k.0 as int, k.1 as int)) by {
                        lemma_last_king_on_board(grid(*b), p.color, 64);
                    }
                }
            }
            !is_attacked(&hypothetical, other_colour(p.color), k.0, k.1)
        },
    }
}

/// A king found among the first `n` cells stands on the board.
pub proof fn lemma_last_king_on_board(g: Grid, col: Colour, n: int)
    requires
        n <= 64,
    ensures
        last_king(g, col, n) matches Some(k) ==> on_board(k.0, k.1),
    decreases n,
{
    if n > 0 {
        lemma_last_king_on_board(g, col, n - 1);
    }
}

} // verus!

verus! {

/// The square at position `i` of the column-major order: column `i / 8`,
/// row `i % 8`.
pub open spec fn col_major(i: int) -> (int, int) {
    (i % 8, i / 8)
}

/// The squares that satisfy `pred`, in column-major order.
pub open spec fn listing(pred: spec_fn(int, int) -> bool) -> Seq<(int, int)> {
    Seq::new(64, |i: int| col_major(i)).filter(|s: (int, int)| pred(s.0, s.1))
}

/// The pseudo-legal destinations of the piece on `(r, c)`, in column-major order.
pub open spec fn pseudo_moves(g: Grid, r: int, c: int) -> Seq<(int, int)> {
    listing(|tr: int, tc: int| pseudo_dest(g, r, c, tr, tc))
}

/// The legal destinations of the piece on `(r, c)`, in column-major order.
pub open spec fn legal_moves(g: Grid, r: int, c: int) -> Seq<(int, int)> {
    listing(|tr: int, tc: int| legal_dest(g, r, c, tr, tc))
}

/// Whether `v` lists the squares of `s`, each as `[row, column]`.
pub open spec fn lists(v: Seq<Vec<usize>>, s: Seq<(int, int)>) -> bool {
    &&& v.len() == s.len()
    &&& forall|i: int| 0 <= i < s.len() ==> #[trigger] v[i]@ == seq![s[i].0 as usize, s[i].1 as usize]
}

/// Lists the destinations of the piece on `(r, c)`: the pseudo-legal ones
/// where `pseudo` holds, else the legal ones.
pub fn destinations(b: &Board, r: usize, c: usize, pseudo: bool) -> (res: Vec<Vec<usize>>)
    requires
        on_board(r as int, c as int),
        grid(*b)[r as int][c as int] is Some,
    ensures
        lists(
            res@,
            if pseudo {
                pseudo_moves(grid(*b), r as int, c as int)
            } else {
                legal_moves(grid(*b), r as int, c as int)
            },
        ),
{
    let ghost g = grid(*b);
    let ghost pred = if pseudo {
        |s: (int, int)| pseudo_dest(g, r as int, c as int, s.0, s.1)
    } else {
        |s: (int, int)| legal_dest(g, r as int, c as int, s.0, s.1)
    };
    let ghost all = Seq::new(64, |i: int| col_major(i));
    proof {
        if pseudo {
            assert(pred == (|s: (int, int)| (|tr: int, tc: int| pseudo_dest(g, r as int, c as int, tr, tc))(s.0, s.1)));
        } else {
            assert(pred == (|s: (int, int)| (|tr: int, tc: int| legal_dest(g, r as int, c as int, tr, tc))(s.0, s.1)));
        }
    }
    let mut out: Vec<Vec<usize>> = Vec::new();
    let mut i: usize = 0;
    while i < 64
        invariant
            i <= 64,
            g == grid(*b),
            on_board(r as int, c as int),
            g[r as int][c as int] is Some,
            all == Seq::new(64, |i: int| col_major(i)),
            pred == (if pseudo {
                |s: (int, int)| pseudo_dest(g, r as int, c as int, s.0, s.1)
            } else {
                |s: (int, int)| legal_dest(g, r as int, c as int, s.0, s.1)
            }),
            lists(out@, all.take(i as int).filter(pred)),
        decreases 64 - i,
    {
        let y = i % 8;
        let x = i / 8;
        let keep = if pseudo {
            reaches(b, r, c, y, x)
        } else {
            is_legal(b, r, c, y, x)
        };
        proof {
            reveal(Seq::filter);
            assert(all.take(i + 1).drop_last() =~= all.take(i as int));
            assert(all.take(i + 1).last() == (y as int, x as int));
            assert(keep == pred((y as int, x as int)));
        }
        let ghost before = out@;
        if keep {
            let mut sq: Vec<usize> = Vec::new();
            sq.push(y);
            sq.push(x);
            out.push(sq);
            proof {
                assert(sq@ == seq![y, x]);
                assert(all.take(i + 1).filter(pred) == all.take(i as int).filter(pred).push((y as int, x as int)));
                assert(out@ == before.push(sq));
            }
        } else {
            proof {
                assert(all.take(i + 1).filter(pred) == all.take(i as int).filter(pred));
            }
        }
        i = i + 1;
    }
    proof {
        assert(all.take(64) =~= all);
    }
    out
}

} // verus!
