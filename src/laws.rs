use vstd::prelude::*;

use crate::board::{initial_cell, is_initial, piece_count, row_count, Grid};
use crate::game::{move_outcome, Game};
use crate::legality::{col_major, exposes_king, legal_dest, legal_moves};
use crate::piece::{opponent, GameState};
use crate::rules::pseudo_dest;

verus! {

broadcast use vstd::seq_lib::group_filter_ensures;

/// The starting position holds 32 pieces: full back ranks and pawn rows.
pub proof fn law_initial_has_32_pieces(g: Grid)
    requires
        is_initial(g),
    ensures
        piece_count(g, 8) == 32,
{
    assert forall|y: int| 0 <= y < 8 implies #[trigger] row_count(g, y, 8) == if y == 0 || y == 1 || y == 6 || y == 7 {
        8nat
    } else {
        0nat
    } by {
        reveal_with_fuel(row_count, 9);
        assert(g[y][0] == initial_cell(y, 0));
        assert(g[y][1] == initial_cell(y, 1));
        assert(g[y][2] == initial_cell(y, 2));
        assert(g[y][3] == initial_cell(y, 3));
        assert(g[y][4] == initial_cell(y, 4));
        assert(g[y][5] == initial_cell(y, 5));
        assert(g[y][6] == initial_cell(y, 6));
        assert(g[y][7] == initial_cell(y, 7));
    }
    reveal_with_fuel(piece_count, 9);
    assert(row_count(g, 0, 8) == 8);
    assert(row_count(g, 1, 8) == 8);
    assert(row_count(g, 2, 8) == 0);
    assert(row_count(g, 3, 8) == 0);
    assert(row_count(g, 4, 8) == 0);
    assert(row_count(g, 5, 8) == 0);
    assert(row_count(g, 6, 8) == 8);
    assert(row_count(g, 7, 8) == 8);
}

/// A refused move leaves the game exactly as it was.
pub proof fn law_refusal_changes_nothing(
    before: Game,
    after: Game,
    res: Option<GameState>,
    r: int,
    c: int,
    tr: int,
    tc: int,
)
    requires
        move_outcome(before, after, res, r, c, tr, tc),
        res is None,
    ensures
        after == before,
{
}

/// Asking again for a refused move, any number of times, is refused each
/// time and leaves the game as it was before the first attempt.
pub proof fn law_refusal_repeats(games: Seq<Game>, answers: Seq<Option<GameState>>, r: int, c: int, tr: int, tc: int)
    requires
        answers.len() >= 1,
        games.len() == answers.len() + 1,
        forall|i: int| 0 <= i < answers.len() ==> move_outcome(games[i], games[i + 1], #[trigger] answers[i], r, c, tr, tc),
        answers[0] is None,
    ensures
        forall|i: int| 0 <= i < answers.len() ==> #[trigger] answers[i] is None && games[i + 1] == games[0],
    decreases answers.len(),
{
    if answers.len() > 1 {
        let shorter = answers.drop_last();
        let fewer = games.drop_last();
        assert forall|i: int| 0 <= i < shorter.len() implies move_outcome(fewer[i], fewer[i + 1], #[trigger] shorter[i], r, c, tr, tc) by {
            assert(answers[i] == shorter[i]);
        }
        law_refusal_repeats(fewer, shorter, r, c, tr, tc);
        let n = answers.len() - 1;
        assert(shorter[n - 1] is None && fewer[n] == games[0]);
        assert(answers[n] == answers[n]);
        assert forall|i: int| 0 <= i < answers.len() implies #[trigger] answers[i] is None && games[i + 1] == games[0] by {
            if i < n {
                assert(shorter[i] is None && fewer[i + 1] == games[0]);
            }
        }
    } else {
        assert(answers[0] == answers[0]);
    }
}

/// After an accepted move that does not end the game, the side to move has
/// changed exactly once.
pub proof fn law_turn_alternates(before: Game, after: Game, res: Option<GameState>, r: int, c: int, tr: int, tc: int)
    requires
        move_outcome(before, after, res, r, c, tr, tc),
        res matches Some(s) && s != GameState::GameOver,
    ensures
        after.active_colour == opponent(before.active_colour),
        after.active_colour != before.active_colour,
        opponent(after.active_colour) == before.active_colour,
{
}

/// A game that is over answers every move with `GameOver` and stays as it is.
pub proof fn law_game_over_is_final(before: Game, after: Game, res: Option<GameState>, r: int, c: int, tr: int, tc: int)
    requires
        move_outcome(before, after, res, r, c, tr, tc),
        before.state == GameState::GameOver,
    ensures
        res == Some(GameState::GameOver),
        after == before,
{
}

/// No destination in the legal move list of a piece, if taken, leaves its
/// side's king attacked by a pseudo-legal move of the other side.
pub proof fn law_legal_moves_keep_king_safe(g: Grid, r: int, c: int)
    ensures
        forall|i: int|
            0 <= i < legal_moves(g, r, c).len() ==> {
                let d = #[trigger] legal_moves(g, r, c)[i];
                &&& pseudo_dest(g, r, c, d.0, d.1)
                &&& !exposes_king(g, r, c, d.0, d.1)
            },
{
    let pred = |s: (int, int)| (|tr: int, tc: int| legal_dest(g, r, c, tr, tc))(s.0, s.1);
    assert forall|i: int| 0 <= i < legal_moves(g, r, c).len() implies {
        let d = #[trigger] legal_moves(g, r, c)[i];
        &&& pseudo_dest(g, r, c, d.0, d.1)
        &&& !exposes_king(g, r, c, d.0, d.1)
    } by {
        let all = Seq::new(64, |j: int| col_major(j));
        assert(pred(all.filter(pred)[i]));
    }
}

} // verus!
