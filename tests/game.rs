use chess::{Board, Colour, Game, GameState, Piece, PieceType};

fn piece(color: Colour, piece_type: PieceType) -> Option<Piece> {
    Some(Piece { color, piece_type })
}

fn empty_game(active_colour: Colour) -> Game {
    Game {
        board: [[None; 8]; 8],
        active_colour,
        state: GameState::InProgress,
        promotion_type: PieceType::QUEEN,
    }
}

// check test framework
#[test]
fn it_works() {
    assert_eq!(2 + 2, 4);
}

// check that game state is in progress after initialisation
#[test]
fn game_in_progress_after_init() {
    let game = Game::new();

    println!("{:?}", game);

    assert_eq!(game.get_game_state(), GameState::InProgress);
}

#[test]
fn white_active_color_after_init() {
    let game = Game::new();
    assert_eq!(game.active_colour, Colour::White);
}

#[test]
fn set_promotion_type() {
    let mut game = Game::new();
    game.set_promotion(PieceType::BISHOP);
    game.set_promotion(PieceType::KING);
    assert_eq!(game.promotion_type, PieceType::BISHOP);
}

#[test]
fn possible_moves_rook() {
    let mut game = Game::new();
    game.board[4][4] = Some(Piece {
        color: Colour::Black,
        piece_type: PieceType::ROOK,
    });
    let moves = game.get_possible_moves(&game.board, &vec![4, 4], false);
    assert_eq!(moves.unwrap(), [[4, 0], [4, 1], [4, 2], [4, 3], [2, 4], [3, 4], [5, 4], [6, 4], [4, 5], [4, 6], [4, 7]]);
}

#[test]
fn possible_moves_pawn() {
    let mut game = Game::new();
    game.board[5][3] = Some(Piece {
        color: Colour::Black,
        piece_type: PieceType::ROOK,
    });
    let moves = game.get_possible_moves(&game.board, &vec![6, 2], false);
    assert_eq!(moves.unwrap(), [[4, 2], [5, 2], [5, 3]]);
}

#[test]
fn possible_moves_bishop() {
    let mut game = Game::new();
    game.board[5][6] = Some(Piece {
        color: Colour::Black,
        piece_type: PieceType::BISHOP,
    });
    let moves = game.get_possible_moves(&game.board, &vec![5, 6], false);
    assert_eq!(moves.unwrap(), [[2, 3], [3, 4], [4, 5], [6, 5], [4, 7], [6, 7]]);
}

#[test]
fn move_pieces() {
    let mut game = Game::new();
    println!("{:?}", &game);
    println!("{:?}", game.make_move(vec![6, 4], vec![4, 4]));
    println!("{:?}", &game);
    println!("{:?}", game.make_move(vec![1, 3], vec![3, 3]));
    println!("{:?}", &game);
    println!("{:?}", game.make_move(vec![7, 3], vec![4, 6]));
    println!("{:?}", &game);
    println!("{:?}", game.make_move(vec![0, 2], vec![4, 6]));
    println!("{:?}", &game);
    assert_eq!(game.board[4][6], Some(Piece { color: Colour::Black, piece_type: PieceType::BISHOP }));
}

#[test]
fn initial_layout_is_standard() {
    let game = Game::new();
    let back = [
        PieceType::ROOK,
        PieceType::KNIGHT,
        PieceType::BISHOP,
        PieceType::QUEEN,
        PieceType::KING,
        PieceType::BISHOP,
        PieceType::KNIGHT,
        PieceType::ROOK,
    ];
    let mut count = 0;
    for y in 0..8 {
        for x in 0..8 {
            let expected = match y {
                0 => piece(Colour::Black, back[x]),
                1 => piece(Colour::Black, PieceType::PAWN),
                6 => piece(Colour::White, PieceType::PAWN),
                7 => piece(Colour::White, back[x]),
                _ => None,
            };
            assert_eq!(game.board[y][x], expected);
            if game.board[y][x].is_some() {
                count += 1;
            }
        }
    }
    assert_eq!(count, 32);
    assert_eq!(game.active_colour, Colour::White);
    assert_eq!(game.state, GameState::InProgress);
    assert_eq!(game.promotion_type, PieceType::QUEEN);
}

#[test]
fn empty_squares_have_no_moves() {
    let game = Game::new();
    for y in 0..8 {
        for x in 0..8 {
            let moves = game.get_possible_moves(&game.board, &vec![y, x], false);
            assert_eq!(moves.is_none(), game.board[y][x].is_none());
            let raw = game.get_possible_moves(&game.board, &vec![y, x], true);
            assert_eq!(raw.is_none(), game.board[y][x].is_none());
        }
    }
}

#[test]
fn refused_move_changes_nothing_and_repeats() {
    let mut game = Game::new();
    let board: Board = game.board;
    for _ in 0..5 {
        // a white pawn cannot move three squares
        assert_eq!(game.make_move(vec![6, 0], vec![3, 0]), None);
        assert_eq!(game.board, board);
        assert_eq!(game.active_colour, Colour::White);
        assert_eq!(game.state, GameState::InProgress);
    }
}

#[test]
fn move_from_empty_square_is_refused() {
    let mut game = Game::new();
    let board = game.board;
    assert_eq!(game.make_move(vec![4, 4], vec![3, 4]), None);
    assert_eq!(game.board, board);
}

#[test]
fn move_out_of_turn_is_refused() {
    let mut game = Game::new();
    let board = game.board;
    assert_eq!(game.make_move(vec![1, 4], vec![3, 4]), None);
    assert_eq!(game.board, board);
    assert_eq!(game.active_colour, Colour::White);
}

#[test]
fn turn_alternates_after_accepted_moves() {
    let mut game = Game::new();
    assert_eq!(game.make_move(vec![6, 4], vec![4, 4]), Some(GameState::InProgress));
    assert_eq!(game.active_colour, Colour::Black);
    assert_eq!(game.board[4][4], piece(Colour::White, PieceType::PAWN));
    assert_eq!(game.board[6][4], None);
    assert_eq!(game.make_move(vec![0, 1], vec![2, 2]), Some(GameState::InProgress));
    assert_eq!(game.active_colour, Colour::White);
    assert_eq!(game.board[2][2], piece(Colour::Black, PieceType::KNIGHT));
}

#[test]
fn pinned_rook_keeps_king_covered() {
    let mut game = empty_game(Colour::White);
    game.board[7][4] = piece(Colour::White, PieceType::KING);
    game.board[6][4] = piece(Colour::White, PieceType::ROOK);
    game.board[0][4] = piece(Colour::Black, PieceType::ROOK);
    let moves = game.get_possible_moves(&game.board, &vec![6, 4], false).unwrap();
    assert_eq!(moves, [[0, 4], [1, 4], [2, 4], [3, 4], [4, 4], [5, 4]]);
    let raw = game.get_possible_moves(&game.board, &vec![6, 4], true).unwrap();
    assert_eq!(raw.len(), 13);
    let board = game.board;
    assert_eq!(game.make_move(vec![6, 4], vec![6, 0]), None);
    assert_eq!(game.board, board);
}

#[test]
fn king_cannot_step_into_attack() {
    let mut game = empty_game(Colour::White);
    game.board[7][4] = piece(Colour::White, PieceType::KING);
    game.board[0][3] = piece(Colour::Black, PieceType::ROOK);
    let moves = game.get_possible_moves(&game.board, &vec![7, 4], false).unwrap();
    assert_eq!(moves, [[6, 4], [6, 5], [7, 5]]);
}

#[test]
fn lone_rook_on_empty_board() {
    let mut game = empty_game(Colour::Black);
    game.board[4][4] = piece(Colour::Black, PieceType::ROOK);
    let moves = game.get_possible_moves(&game.board, &vec![4, 4], false).unwrap();
    assert_eq!(
        moves,
        [[4, 0], [4, 1], [4, 2], [4, 3], [0, 4], [1, 4], [2, 4], [3, 4], [5, 4], [6, 4], [7, 4], [4, 5], [4, 6], [4, 7]]
    );
}

#[test]
fn pawn_does_not_capture_own_colour() {
    let mut game = Game::new();
    game.board[5][3] = piece(Colour::White, PieceType::ROOK);
    let moves = game.get_possible_moves(&game.board, &vec![6, 2], false).unwrap();
    assert_eq!(moves, [[4, 2], [5, 2]]);
}

#[test]
fn pawn_double_step_needs_both_squares_empty() {
    let mut game = Game::new();
    game.board[5][2] = piece(Colour::Black, PieceType::KNIGHT);
    let moves = game.get_possible_moves(&game.board, &vec![6, 2], false).unwrap();
    assert_eq!(moves.len(), 0);
    game.board[5][2] = None;
    game.board[4][2] = piece(Colour::Black, PieceType::KNIGHT);
    let moves = game.get_possible_moves(&game.board, &vec![6, 2], false).unwrap();
    assert_eq!(moves, [[5, 2]]);
}

#[test]
fn black_pawn_moves_down_the_board() {
    let mut game = Game::new();
    game.board[2][0] = piece(Colour::White, PieceType::KNIGHT);
    let moves = game.get_possible_moves(&game.board, &vec![1, 1], false).unwrap();
    assert_eq!(moves, [[2, 0], [2, 1], [3, 1]]);
}

#[test]
fn pawn_off_its_start_row_steps_once() {
    let mut game = empty_game(Colour::White);
    game.board[5][2] = piece(Colour::White, PieceType::PAWN);
    let moves = game.get_possible_moves(&game.board, &vec![5, 2], false).unwrap();
    assert_eq!(moves, [[4, 2]]);
}

#[test]
fn knight_moves_from_corner_and_centre() {
    let game = Game::new();
    let moves = game.get_possible_moves(&game.board, &vec![7, 1], false).unwrap();
    assert_eq!(moves, [[5, 0], [5, 2]]);
    let mut game = empty_game(Colour::White);
    game.board[4][4] = piece(Colour::White, PieceType::KNIGHT);
    game.board[2][5] = piece(Colour::White, PieceType::PAWN);
    game.board[6][3] = piece(Colour::Black, PieceType::PAWN);
    let moves = game.get_possible_moves(&game.board, &vec![4, 4], false).unwrap();
    assert_eq!(moves, [[3, 2], [5, 2], [2, 3], [6, 3], [6, 5], [3, 6], [5, 6]]);
}

#[test]
fn queen_and_king_moves_on_open_board() {
    let mut game = empty_game(Colour::White);
    game.board[7][0] = piece(Colour::White, PieceType::QUEEN);
    game.board[5][0] = piece(Colour::Black, PieceType::PAWN);
    game.board[6][1] = piece(Colour::White, PieceType::PAWN);
    let moves = game.get_possible_moves(&game.board, &vec![7, 0], false).unwrap();
    assert_eq!(moves, [[5, 0], [6, 0], [7, 1], [7, 2], [7, 3], [7, 4], [7, 5], [7, 6], [7, 7]]);
    let mut game = empty_game(Colour::White);
    game.board[0][0] = piece(Colour::White, PieceType::KING);
    game.board[0][1] = piece(Colour::White, PieceType::PAWN);
    let moves = game.get_possible_moves(&game.board, &vec![0, 0], false).unwrap();
    assert_eq!(moves, [[1, 0], [1, 1]]);
}

#[test]
fn bishop_stops_at_first_piece() {
    let mut game = empty_game(Colour::White);
    game.board[3][3] = piece(Colour::White, PieceType::BISHOP);
    game.board[1][1] = piece(Colour::Black, PieceType::PAWN);
    game.board[5][5] = piece(Colour::White, PieceType::PAWN);
    let moves = game.get_possible_moves(&game.board, &vec![3, 3], false).unwrap();
    assert_eq!(moves, [[6, 0], [1, 1], [5, 1], [2, 2], [4, 2], [2, 4], [4, 4], [1, 5], [0, 6]]);
}

#[test]
fn capturing_the_king_ends_the_game() {
    let mut game = empty_game(Colour::White);
    game.board[7][4] = piece(Colour::White, PieceType::KING);
    game.board[7][0] = piece(Colour::White, PieceType::ROOK);
    game.board[0][0] = piece(Colour::Black, PieceType::KING);
    game.board[1][7] = piece(Colour::Black, PieceType::PAWN);
    assert_eq!(game.make_move(vec![7, 0], vec![0, 0]), Some(GameState::GameOver));
    assert_eq!(game.get_game_state(), GameState::GameOver);
    assert_eq!(game.board[0][0], piece(Colour::White, PieceType::ROOK));
    assert_eq!(game.board[7][0], None);
    let board = game.board;
    assert_eq!(game.make_move(vec![1, 7], vec![2, 7]), Some(GameState::GameOver));
    assert_eq!(game.make_move(vec![7, 4], vec![6, 4]), Some(GameState::GameOver));
    assert_eq!(game.make_move(vec![3, 3], vec![4, 4]), Some(GameState::GameOver));
    assert_eq!(game.board, board);
    assert_eq!(game.get_game_state(), GameState::GameOver);
}

#[test]
fn check_is_reported() {
    let mut game = empty_game(Colour::White);
    game.board[7][4] = piece(Colour::White, PieceType::KING);
    game.board[7][0] = piece(Colour::White, PieceType::ROOK);
    game.board[0][4] = piece(Colour::Black, PieceType::KING);
    assert_eq!(game.make_move(vec![7, 0], vec![0, 0]), Some(GameState::Check));
    assert_eq!(game.get_game_state(), GameState::Check);
    assert_eq!(game.active_colour, Colour::Black);
    assert_eq!(game.make_move(vec![0, 4], vec![1, 4]), Some(GameState::InProgress));
    assert_eq!(game.get_game_state(), GameState::InProgress);
    assert_eq!(game.active_colour, Colour::White);
}

#[test]
fn promotion_choice_refuses_king() {
    let mut game = Game::new();
    game.set_promotion(PieceType::KING);
    assert_eq!(game.promotion_type, PieceType::QUEEN);
    game.set_promotion(PieceType::KNIGHT);
    assert_eq!(game.promotion_type, PieceType::KNIGHT);
}

#[test]
fn render_shows_initial_board() {
    let game = Game::new();
    let border = format!("|{}|", "-".repeat(40));
    let expected = format!(
        "\n{b}\n{}\n{}\n{e}\n{e}\n{e}\n{e}\n{}\n{}\n{b}\n\n\n",
        "| B-R  B-K  B-B  B-Q  B-K  B-B  B-K  B-R |",
        "| B-P  B-P  B-P  B-P  B-P  B-P  B-P  B-P |",
        "| W-P  W-P  W-P  W-P  W-P  W-P  W-P  W-P |",
        "| W-R  W-K  W-B  W-Q  W-K  W-B  W-K  W-R |",
        b = border,
        e = "| ---  ---  ---  ---  ---  ---  ---  --- |",
    );
    assert_eq!(game.render(), expected);
}

#[test]
fn render_follows_moves() {
    let mut game = Game::new();
    game.make_move(vec![6, 4], vec![4, 4]);
    let text = game.render();
    let lines: Vec<&str> = text.split('\n').collect();
    assert_eq!(lines[6], "| ---  ---  ---  ---  W-P  ---  ---  --- |");
    assert_eq!(lines[8], "| W-P  W-P  W-P  W-P  ---  W-P  W-P  W-P |");
}
