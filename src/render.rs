use vstd::prelude::*;
use vstd::string::StringExecFns;

use crate::board::{cell, grid, Grid};
use crate::game::Game;
use crate::piece::{Colour, Piece, PieceType};

verus! {

/// The letter that stands for a colour.
pub open spec fn colour_letter(c: Colour) -> char {
    match c {
        Colour::White => 'W',
        Colour::Black => 'B',
    }
}

/// The letter that stands for a kind: the first letter of its name.
pub open spec fn kind_letter(k: PieceType) -> char {
    match k {
        PieceType::PAWN => 'P',
        PieceType::ROOK => 'R',
        PieceType::BISHOP => 'B',
        PieceType::KNIGHT => 'K',
        PieceType::QUEEN => 'Q',
        PieceType::KING => 'K',
    }
}

/// The five characters that show a cell: colour and kind letters joined by
/// a dash, or three dashes for an empty cell, between two spaces.
pub open spec fn cell_text(o: Option<Piece>) -> Seq<char> {
    match o {
        Some(p) => seq![' ', colour_letter(p.color), '-', kind_letter(p.piece_type), ' '],
        None => seq![' ', '-', '-', '-', ' '],
    }
}

/// The text of the first `n` cells of row `y`.
pub open spec fn row_cells(g: Grid, y: int, n: int) -> Seq<char>
    decreases n,
{
    if n <= 0 {
        Seq::empty()
    } else {
        row_cells(g, y, n - 1) + cell_text(g[y][n - 1])
    }
}

/// The text of the first `n` rows, each on a line of its own between bars.
pub open spec fn rows_text(g: Grid, n: int) -> Seq<char>
    decreases n,
{
    if n <= 0 {
        Seq::empty()
    } else {
        rows_text(g, n - 1) + seq!['\n', '|'] + row_cells(g, n - 1, 8) + seq!['|']
    }
}

/// A line of forty dashes between bars, on a line of its own.
pub open spec fn border_text() -> Seq<char> {
    seq!['\n', '|'] + Seq::new(40, |i: int| '-') + seq!['|']
}

/// The text of a board: a border, the eight rows, a border, blank lines.
pub open spec fn board_text(g: Grid) -> Seq<char> {
    border_text() + rows_text(g, 8) + border_text() + seq!['\n', '\n', '\n']
}

fn colour_str(c: Colour) -> (s: &'static str)
    ensures
        s@ == seq![colour_letter(c)],
{
    match c {
        Colour::White => {
            proof {
                reveal_strlit("W");
            }
            "W"
        },
        Colour::Black => {
            proof {
                reveal_strlit("B");
            }
            "B"
        },
    }
}

fn kind_str(k: PieceType) -> (s: &'static str)
    ensures
        s@ == seq![kind_letter(k)],
{
    proof {
        reveal_strlit("P");
        reveal_strlit("R");
        reveal_strlit("B");
        reveal_strlit("K");
        reveal_strlit("Q");
    }
    match k {
        PieceType::PAWN => "P",
        PieceType::ROOK => "R",
        PieceType::BISHOP => "B",
        PieceType::KNIGHT => "K",
        PieceType::QUEEN => "Q",
        PieceType::KING => "K",
    }
}

fn push_border(out: &mut String)
    ensures
        final(out)@ == old(out)@ + border_text(),
{
    let s = "\n|----------------------------------------|";
    proof {
        reveal_strlit("\n|----------------------------------------|");
        assert(s@ =~= border_text());
    }
    out.append(s);
}

fn push_cell(out: &mut String, o: Option<Piece>)
    ensures
        final(out)@ == old(out)@ + cell_text(o),
{
    proof {
        reveal_strlit(" ");
        reveal_strlit("-");
        reveal_strlit(" --- ");
    }
    match o {
        Some(p) => {
            out.append(" ");
            out.append(colour_str(p.color));
            out.append("-");
            out.append(kind_str(p.piece_type));
            out.append(" ");
        },
        None => {
            out.append(" --- ");
        },
    }
    assert(out@ =~= old(out)@ + cell_text(o));
}

impl Game {
    /// The board as text: a bordered grid with one line per row, each cell
    /// shown by its colour and kind letters, or by dashes where it is empty.
    pub fn render(&self) -> (s: String)
        ensures
            s@ == board_text(grid(self.board)),
    {
        let ghost g = grid(self.board);
        let mut out = String::new();
        push_border(&mut out);
        let mut y: usize = 0;
        while y < 8
            invariant
                y <= 8,
                g == grid(self.board),
                out@ == border_text() + rows_text(g, y as int),
            decreases 8 - y,
        {
            let ghost start = out@;
            proof {
                reveal_strlit("\n|");
                reveal_strlit("|");
                assert("\n|"@ =~= seq!['\n', '|']);
                assert("|"@ =~= seq!['|']);
            }
            out.append("\n|");
            assert(out@ =~= start + seq!['\n', '|'] + row_cells(g, y as int, 0));
            let mut x: usize = 0;
            while x < 8
                invariant
                    y < 8,
                    x <= 8,
                    g == grid(self.board),
                    out@ == start + seq!['\n', '|'] + row_cells(g, y as int, x as int),
                decreases 8 - x,
            {
                push_cell(&mut out, cell(&self.board, y, x));
                proof {
                    assert(out@ =~= start + seq!['\n', '|'] + row_cells(g, y as int, x + 1));
                }
                x = x + 1;
            }
            out.append("|");
            proof {
                assert(rows_text(g, y + 1) == rows_text(g, y as int) + seq!['\n', '|'] + row_cells(g, y as int, 8) + seq!['|']);
                assert(out@ =~= border_text() + rows_text(g, y + 1));
            }
            y = y + 1;
        }
        push_border(&mut out);
        proof {
            reveal_strlit("\n\n\n");
        }
        out.append("\n\n\n");
        proof {
            assert(out@ =~= board_text(g));
        }
        out
    }
}

} // verus!
