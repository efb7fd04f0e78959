use vstd::prelude::*;

use crate::board::{back_rank_kind, cell, grid, initial_cell, is_initial, move_piece, moved, on_board, piece_at, piece_count, Board, Grid};
use crate::legality::{destinations, gives_check, is_attacked, is_legal, find_king, legal_dest, legal_moves, lists, pseudo_moves};
use crate::piece::{opponent, other_colour, Colour, GameState, Piece, PieceType};

verus! {

/// A game: the board, the side to move, the status, and the kind a pawn
/// would be promoted to.
#[derive(Debug)]
pub struct Game {
    pub board: Board,
    pub active_colour: Colour,
    pub state: GameState,
    pub promotion_type: PieceType,
}

/// Whether `v` names a square as `[row, column]`.
pub open spec fn is_square(v: Seq<usize>) -> bool {
    v.len() == 2 && on_board(v[0] as int, v[1] as int)
}

/// Whether a king stands on `(tr, tc)`, so that a move there captures it.
pub open spec fn captures_king(g: Grid, tr: int, tc: int) -> bool {
    g[tr][tc] is Some && piece_at(g, tr, tc).piece_type == PieceType::KING
}

/// The status reported after the side `mover` has made a move that captured
/// no king, leaving the grid `g`.
pub open spec fn status_after(g: Grid, mover: Colour) -> GameState {
    if gives_check(g, mover) {
        GameState::Check
    } else {
        GameState::InProgress
    }
}

/// The kind placed on column `x` of a back rank.
fn back_rank(x: usize) -> (k: PieceType)
    ensures
        k == back_rank_kind(x as int),
{
    if x == 0 || x == 7 {
        PieceType::ROOK
    } else if x == 1 || x == 6 {
        PieceType::KNIGHT
    } else if x == 2 || x == 5 {
        PieceType::BISHOP
    } else if x == 3 {
        PieceType::QUEEN
    } else {
        PieceType::KING
    }
}

/// Whether `after` and `res` are what asking `before` to move the piece on
/// `(r, c)` to `(tr, tc)` gives: a game that is over answers `GameOver` and
/// stays as it is; a move the game does not accept is refused with `None`
/// and changes nothing; an accepted move is made, ends the game where it
/// captures a king, and otherwise passes the turn and reports whether the
/// mover now gives check.
pub open spec fn move_outcome(
    before: Game,
    after: Game,
    res: Option<GameState>,
    r: int,
    c: int,
    tr: int,
    tc: int,
) -> bool {
    let g = grid(before.board);
    if before.state == GameState::GameOver {
        res == Some(GameState::GameOver) && after == before
    } else if !before.accepts(r, c, tr, tc) {
        res is None && after == before
    } else {
        &&& grid(after.board) == moved(g, r, c, tr, tc)
        &&& after.promotion_type == before.promotion_type
        &&& res == Some(after.state)
        &&& if captures_king(g, tr, tc) {
            after.state == GameState::GameOver && after.active_colour == before.active_colour
        } else {
            &&& after.active_colour == opponent(before.active_colour)
            &&& after.state == status_after(moved(g, r, c, tr, tc), before.active_colour)
        }
    }
}

impl Game {
    /// Whether the promotion kind is one a pawn may take.
    pub open spec fn wf(&self) -> bool {
        self.promotion_type != PieceType::KING
    }

    /// Whether the game, not over, accepts moving the piece on `(r, c)` to
    /// `(tr, tc)`: a piece of the side to move stands there and the
    /// destination is legal for it.
    pub open spec fn accepts(&self, r: int, c: int, tr: int, tc: int) -> bool {
        let g = grid(self.board);
        &&& self.state != GameState::GameOver
        &&& g[r][c] is Some
        &&& piece_at(g, r, c).color == self.active_colour
        &&& legal_dest(g, r, c, tr, tc)
    }

    /// A game in the standard starting position, White to move.
    pub fn new() -> (game: Game)
        ensures
            is_initial(grid(game.board)),
            piece_count(grid(game.board), 8) == 32,
            game.active_colour == Colour::White,
            game.state == GameState::InProgress,
            game.promotion_type == PieceType::QUEEN,
            game.wf(),
    {
        let mut board: Board = [[None; 8]; 8];
        let mut x: usize = 0;
        while x < 8
            invariant
                x <= 8,
                forall|y: int, xx: int|
                    0 <= y < 8 && 0 <= xx < 8 ==> #[trigger] grid(board)[y][xx] == if xx < x {
                        initial_cell(y, xx)
                    } else {
                        None
                    },
            decreases 8 - x,
        {
            let kind = back_rank(x);
            let ghost before = board;
            board[0][x] = Some(Piece { color: Colour::Black, piece_type: kind });
            board[1][x] = Some(Piece { color: Colour::Black, piece_type: PieceType::PAWN });
            board[6][x] = Some(Piece { color: Colour::White, piece_type: PieceType::PAWN });
            board[7][x] = Some(Piece { color: Colour::White, piece_type: kind });
            assert forall|y: int, xx: int| 0 <= y < 8 && 0 <= xx < 8 implies #[trigger] grid(board)[y][xx] == if xx < x + 1 {
                initial_cell(y, xx)
            } else {
                None
            } by {
                assert(grid(before)[y][xx] == if xx < x { initial_cell(y, xx) } else { None });
                if xx != x {
                    assert(grid(board)[y][xx] == grid(before)[y][xx]);
                }
            }
            x = x + 1;
        }
        proof {
            crate::laws::law_initial_has_32_pieces(grid(board));
        }
        Game {
            board,
            active_colour: Colour::White,
            state: GameState::InProgress,
            promotion_type: PieceType::QUEEN,
        }
    }

    /// The current status of the game.
    pub fn get_game_state(&self) -> (s: GameState)
        ensures
            s == self.state,
    {
        self.state
    }

    /// Sets the kind a promoted pawn would take; a king is refused and
    /// leaves the game unchanged.
    pub fn set_promotion(&mut self, piece: PieceType)
        ensures
            final(self).promotion_type == if piece == PieceType::KING {
                old(self).promotion_type
            } else {
                piece
            },
            final(self).board == old(self).board,
            final(self).active_colour == old(self).active_colour,
            final(self).state == old(self).state,
            old(self).wf() ==> final(self).wf(),
    {
        if piece != PieceType::KING {
            self.promotion_type = piece;
        }
    }

    /// The destinations of the piece on `position` of `board`, as
    /// `[row, column]` squares in column-major order; `None` where the square
    /// is empty. Where `call_is_recursive` holds they are the pseudo-legal
    /// destinations, else the legal ones. `position` must name a square.
    pub fn get_possible_moves(&self, board: &Board, position: &Vec<usize>, call_is_recursive: bool) -> (res: Option<Vec<Vec<usize>>>)
        requires
            is_square(position@),
        ensures
            res is None <==> grid(*board)[position@[0] as int][position@[1] as int] is None,
            res matches Some(v) ==> lists(
                v@,
                if call_is_recursive {
                    pseudo_moves(grid(*board), position@[0] as int, position@[1] as int)
                } else {
                    legal_moves(grid(*board), position@[0] as int, position@[1] as int)
                },
            ),
    {
        let r = position[0];
        let c = position[1];
        if cell(board, r, c).is_none() {
            return None;
        }
        Some(destinations(board, r, c, call_is_recursive))
    }

    /// Moves the piece on `from` to `to` where the game accepts it, and
    /// returns the resulting status; `None`, with the game unchanged, where
    /// it does not. A game that is over stays over. Both `from` and `to` must
    /// name squares. Pawns reaching the last row stay pawns: the promotion
    /// kind is recorded but not applied.
    pub fn make_move(&mut self, from: Vec<usize>, to: Vec<usize>) -> (res: Option<GameState>)
        requires
            is_square(from@),
            is_square(to@),
        ensures
            move_outcome(*old(self), *final(self), res, from@[0] as int, from@[1] as int, to@[0] as int, to@[1] as int),
            res is None ==> *final(self) == *old(self),
            res matches Some(s) && s != GameState::GameOver ==> final(self).active_colour == opponent(old(self).active_colour),
    {
        if self.state == GameState::GameOver {
            return Some(GameState::GameOver);
        }
        let (r, c, tr, tc) = (from[0], from[1], to[0], to[1]);
        let piece = match cell(&self.board, r, c) {
            None => return None,
            Some(p) => p,
        };
        if piece.color != self.active_colour {
            return None;
        }
        if !is_legal(&self.board, r, c, tr, tc) {
            return None;
        }
        let king_taken = match cell(&self.board, tr, tc) {
            Some(q) => q.piece_type == PieceType::KING,
            None => false,
        };
        move_piece(&mut self.board, r, c, tr, tc);
        if king_taken {
            self.state = GameState::GameOver;
            return Some(GameState::GameOver);
        }
        self.active_colour = other_colour(self.active_colour);
        let check = match find_king(&self.board, self.active_colour) {
            None => false,
            Some(k) => {
                proof {
                    crate::legality::lemma_last_king_on_board(grid(self.board), self.active_colour, 64);
                }
                is_attacked(&self.board, piece.color, k.0, k.1)
            },
        };
        self.state = if check {
            GameState::Check
        } else {
            GameState::InProgress
        };
        Some(self.state)
    }
}

} // verus!
