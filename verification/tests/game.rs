use tic_of_war::game::{Game, Movement, Status};
use tic_of_war::player::Player;

/// Moves the cursor of a running game to column `x`, row `y`.
fn go_to(game: &mut Game, x: usize, y: usize) {
    for _ in 0..2 {
        game.move_position(&Movement::Left);
        game.move_position(&Movement::Up);
    }
    for _ in 0..x {
        game.move_position(&Movement::Right);
    }
    for _ in 0..y {
        game.move_position(&Movement::Down);
    }
    assert_eq!((game.pos_x, game.pos_y), (x, y));
}

/// Places the next mark at column `x`, row `y`.
fn play(game: &mut Game, x: usize, y: usize) {
    go_to(game, x, y);
    game.enter_position();
}

fn cells(game: &Game) -> Vec<Vec<Player>> {
    game.board.clone()
}

fn empty_grid() -> Vec<Vec<Player>> {
    vec![vec![Player::Empty; 3]; 3]
}

#[test]
fn new_game_is_fresh() {
    let game = Game::new();
    assert_eq!(game.pos_x, 0);
    assert_eq!(game.pos_y, 0);
    assert_eq!(game.current_player, Player::Cross);
    assert_eq!(cells(&game), empty_grid());
    assert!(!game.finished);
    assert_eq!(game.winner, Player::Empty);
}

#[test]
fn default_game_is_fresh() {
    let game = Game::default();
    assert_eq!((game.pos_x, game.pos_y), (0, 0));
    assert_eq!(game.current_player, Player::Cross);
    assert_eq!(cells(&game), empty_grid());
    assert!(!game.finished);
    assert_eq!(game.winner, Player::Empty);
}

#[test]
fn up_at_top_left_stays() {
    let mut game = Game::new();
    game.move_position(&Movement::Up);
    assert_eq!((game.pos_x, game.pos_y), (0, 0));
}

#[test]
fn left_at_top_left_stays() {
    let mut game = Game::new();
    game.move_position(&Movement::Left);
    assert_eq!((game.pos_x, game.pos_y), (0, 0));
}

#[test]
fn each_direction_moves_one_cell() {
    let mut game = Game::new();
    game.move_position(&Movement::Right);
    assert_eq!((game.pos_x, game.pos_y), (1, 0));
    game.move_position(&Movement::Down);
    assert_eq!((game.pos_x, game.pos_y), (1, 1));
    game.move_position(&Movement::Left);
    assert_eq!((game.pos_x, game.pos_y), (0, 1));
    game.move_position(&Movement::Up);
    assert_eq!((game.pos_x, game.pos_y), (0, 0));
}

#[test]
fn cursor_is_held_at_the_far_edges() {
    let mut game = Game::new();
    for _ in 0..5 {
        game.move_position(&Movement::Right);
    }
    assert_eq!((game.pos_x, game.pos_y), (2, 0));
    for _ in 0..5 {
        game.move_position(&Movement::Down);
    }
    assert_eq!((game.pos_x, game.pos_y), (2, 2));
}

#[test]
fn cursor_stays_on_grid_for_any_walk() {
    let directions = [Movement::Up, Movement::Right, Movement::Down, Movement::Left];
    let mut game = Game::new();
    let mut seed: u32 = 12345;
    for _ in 0..1000 {
        seed = seed.wrapping_mul(1664525).wrapping_add(1013904223);
        let direction = directions[(seed >> 16) as usize % 4];
        game.move_position(&direction);
        assert!(game.pos_x <= 2 && game.pos_y <= 2);
    }
}

#[test]
fn moving_changes_nothing_but_the_cursor() {
    let mut game = Game::new();
    game.enter_position();
    game.move_position(&Movement::Down);
    assert_eq!((game.pos_x, game.pos_y), (0, 1));
    assert_eq!(game.board[0][0], Player::Cross);
    assert_eq!(game.current_player, Player::Nought);
    assert!(!game.finished);
    assert_eq!(game.winner, Player::Empty);
}

#[test]
fn first_mark_is_a_cross_and_passes_the_turn() {
    let mut game = Game::new();
    game.enter_position();
    let mut expected = empty_grid();
    expected[0][0] = Player::Cross;
    assert_eq!(cells(&game), expected);
    assert_eq!(game.current_player, Player::Nought);
    assert!(!game.finished);
    assert_eq!(game.winner, Player::Empty);
    assert_eq!((game.pos_x, game.pos_y), (0, 0));
}

#[test]
fn marks_alternate() {
    let mut game = Game::new();
    play(&mut game, 1, 2);
    assert_eq!(game.board[1][2], Player::Cross);
    assert_eq!(game.current_player, Player::Nought);
    play(&mut game, 2, 1);
    assert_eq!(game.board[2][1], Player::Nought);
    assert_eq!(game.current_player, Player::Cross);
    play(&mut game, 0, 0);
    assert_eq!(game.board[0][0], Player::Cross);
    assert_eq!(game.current_player, Player::Nought);
    assert_eq!((game.pos_x, game.pos_y), (0, 0));
}

#[test]
fn placing_on_a_marked_cell_changes_nothing() {
    let mut game = Game::new();
    play(&mut game, 1, 1);
    let before = cells(&game);
    game.enter_position();
    assert_eq!(cells(&game), before);
    assert_eq!(game.board[1][1], Player::Cross);
    assert_eq!(game.current_player, Player::Nought);
    assert_eq!((game.pos_x, game.pos_y), (1, 1));
    assert!(!game.finished);
    assert_eq!(game.winner, Player::Empty);
}

#[test]
fn top_row_wins_for_cross() {
    let mut game = Game::new();
    play(&mut game, 0, 0);
    play(&mut game, 1, 1);
    play(&mut game, 1, 0);
    play(&mut game, 1, 2);
    assert!(!game.finished);
    play(&mut game, 2, 0);
    assert!(game.finished);
    assert_eq!(game.winner, Player::Cross);
    assert_eq!(game.status(), Status::Won(Player::Cross));
    assert_eq!((game.pos_x, game.pos_y), (0, 0));
    assert_eq!(game.current_player, Player::Nought);
    assert_eq!(game.board[2][0], Player::Cross);
}

#[test]
fn column_wins_for_nought() {
    let mut game = Game::new();
    play(&mut game, 0, 0);
    play(&mut game, 2, 0);
    play(&mut game, 0, 1);
    play(&mut game, 2, 1);
    play(&mut game, 1, 1);
    assert!(!game.finished);
    play(&mut game, 2, 2);
    assert!(game.finished);
    assert_eq!(game.winner, Player::Nought);
    assert_eq!(game.status(), Status::Won(Player::Nought));
    assert_eq!((game.pos_x, game.pos_y), (0, 0));
}

#[test]
fn diagonal_from_top_left_wins() {
    let mut game = Game::new();
    play(&mut game, 0, 0);
    play(&mut game, 1, 0);
    play(&mut game, 1, 1);
    play(&mut game, 2, 0);
    play(&mut game, 2, 2);
    assert!(game.finished);
    assert_eq!(game.winner, Player::Cross);
}

#[test]
fn diagonal_from_top_right_wins() {
    let mut game = Game::new();
    play(&mut game, 0, 0);
    play(&mut game, 2, 0);
    play(&mut game, 1, 0);
    play(&mut game, 1, 1);
    play(&mut game, 2, 2);
    play(&mut game, 0, 2);
    assert!(game.finished);
    assert_eq!(game.winner, Player::Nought);
}

/// Plays to the grid
///
/// ```text
/// X O X
/// X O O
/// O X X
/// ```
fn play_to_draw(game: &mut Game) {
    let order = [(0, 0), (1, 0), (2, 0), (1, 1), (0, 1), (2, 1), (1, 2), (0, 2), (2, 2)];
    for (n, (x, y)) in order.iter().enumerate() {
        assert!(!game.finished, "over before mark {}", n);
        play(game, *x, *y);
    }
}

#[test]
fn full_grid_without_line_is_a_draw() {
    let mut game = Game::new();
    play_to_draw(&mut game);
    let x = Player::Cross;
    let o = Player::Nought;
    assert_eq!(cells(&game), vec![vec![x, x, o], vec![o, o, x], vec![x, o, x]]);
    assert!(game.finished);
    assert_eq!(game.winner, Player::Empty);
    assert_eq!(game.status(), Status::Draw);
    assert_eq!((game.pos_x, game.pos_y), (0, 0));
}

#[test]
fn last_cell_can_still_win() {
    let mut game = Game::new();
    let order = [(0, 0), (1, 0), (2, 0), (0, 1), (1, 2), (2, 1), (2, 2), (0, 2), (1, 1)];
    for (x, y) in order.iter() {
        assert!(!game.finished);
        play(&mut game, *x, *y);
    }
    assert!(game.board.iter().all(|column| column.iter().all(|cell| *cell != Player::Empty)));
    assert!(game.finished);
    assert_eq!(game.winner, Player::Cross);
    assert_eq!(game.status(), Status::Won(Player::Cross));
}

#[test]
fn finished_game_ignores_moves_and_marks() {
    let mut game = Game::new();
    play(&mut game, 0, 0);
    play(&mut game, 0, 1);
    play(&mut game, 1, 0);
    play(&mut game, 1, 1);
    play(&mut game, 2, 0);
    assert!(game.finished);
    let before = cells(&game);
    for direction in [Movement::Right, Movement::Down, Movement::Left, Movement::Up] {
        game.move_position(&direction);
        assert_eq!((game.pos_x, game.pos_y), (0, 0));
    }
    game.enter_position();
    assert_eq!(cells(&game), before);
    assert_eq!(game.current_player, Player::Nought);
    assert_eq!(game.winner, Player::Cross);
    assert!(game.finished);
    assert_eq!(game.board[2][2], Player::Empty);
}

#[test]
fn reset_restores_the_fresh_game() {
    let mut game = Game::new();
    play(&mut game, 1, 1);
    play(&mut game, 2, 2);
    game.move_position(&Movement::Left);
    game.reset();
    assert_eq!((game.pos_x, game.pos_y), (0, 0));
    assert_eq!(game.current_player, Player::Cross);
    assert_eq!(cells(&game), empty_grid());
    assert!(!game.finished);
    assert_eq!(game.winner, Player::Empty);
}

#[test]
fn reset_after_the_end_starts_over() {
    let mut game = Game::new();
    play_to_draw(&mut game);
    assert!(game.finished);
    game.reset();
    assert!(!game.finished);
    assert_eq!(game.winner, Player::Empty);
    assert_eq!(game.current_player, Player::Cross);
    assert_eq!(cells(&game), empty_grid());
    game.reset();
    assert_eq!(cells(&game), empty_grid());
    assert_eq!(game.current_player, Player::Cross);
    game.enter_position();
    assert_eq!(game.board[0][0], Player::Cross);
}

#[test]
fn status_names_the_player_to_move() {
    let mut game = Game::new();
    assert_eq!(game.status(), Status::Turn(Player::Cross));
    game.enter_position();
    assert_eq!(game.status(), Status::Turn(Player::Nought));
}

fn game_of(board: Vec<Vec<Player>>, pos_x: usize, pos_y: usize, current_player: Player) -> Game {
    Game { pos_x, pos_y, current_player, board, finished: false, winner: Player::Empty }
}

#[test]
fn games_made_by_the_operations_are_well_formed() {
    let mut game = Game::new();
    assert!(game.is_well_formed());
    play_to_draw(&mut game);
    assert!(game.is_well_formed());
    game.reset();
    assert!(game.is_well_formed());
    assert!(Game::default().is_well_formed());
}

#[test]
fn malformed_games_are_told_apart() {
    assert!(game_of(empty_grid(), 2, 2, Player::Nought).is_well_formed());
    assert!(!game_of(empty_grid(), 3, 0, Player::Cross).is_well_formed());
    assert!(!game_of(empty_grid(), 0, 3, Player::Cross).is_well_formed());
    assert!(!game_of(empty_grid(), 0, 0, Player::Empty).is_well_formed());
    assert!(!game_of(vec![vec![Player::Empty; 3]; 2], 0, 0, Player::Cross).is_well_formed());
    assert!(!game_of(vec![vec![Player::Empty; 3]; 4], 0, 0, Player::Cross).is_well_formed());
    assert!(!game_of(Vec::new(), 0, 0, Player::Cross).is_well_formed());
    let mut ragged = empty_grid();
    ragged[2].push(Player::Empty);
    assert!(!game_of(ragged, 0, 0, Player::Cross).is_well_formed());
    let mut short = empty_grid();
    short[1].pop();
    assert!(!game_of(short, 0, 0, Player::Cross).is_well_formed());
}

#[test]
fn cursor_off_the_grid_moves_towards_it_only() {
    let mut game = game_of(empty_grid(), 5, 7, Player::Cross);
    game.move_position(&Movement::Right);
    game.move_position(&Movement::Down);
    assert_eq!((game.pos_x, game.pos_y), (5, 7));
    game.move_position(&Movement::Left);
    game.move_position(&Movement::Up);
    assert_eq!((game.pos_x, game.pos_y), (4, 6));
}

#[test]
fn each_of_the_eight_lines_wins() {
    let lines = [
        [(0, 0), (0, 1), (0, 2)],
        [(1, 0), (1, 1), (1, 2)],
        [(2, 0), (2, 1), (2, 2)],
        [(0, 0), (1, 0), (2, 0)],
        [(0, 1), (1, 1), (2, 1)],
        [(0, 2), (1, 2), (2, 2)],
        [(0, 0), (1, 1), (2, 2)],
        [(0, 2), (1, 1), (2, 0)],
    ];
    for line in lines.iter() {
        let mut others = Vec::new();
        for x in 0..3 {
            for y in 0..3 {
                if !line.contains(&(x, y)) {
                    others.push((x, y));
                }
            }
        }
        let mut game = Game::new();
        play(&mut game, line[0].0, line[0].1);
        play(&mut game, others[0].0, others[0].1);
        play(&mut game, line[1].0, line[1].1);
        play(&mut game, others[1].0, others[1].1);
        assert!(!game.finished);
        assert_eq!(game.winner, Player::Empty);
        play(&mut game, line[2].0, line[2].1);
        assert!(game.finished, "line {:?}", line);
        assert_eq!(game.winner, Player::Cross, "line {:?}", line);
        assert_eq!((game.pos_x, game.pos_y), (0, 0));
    }
}

#[test]
fn two_lines_at_once_win_for_the_same_player() {
    let mut game = Game::new();
    let order = [(1, 0), (1, 1), (2, 0), (2, 1), (0, 1), (1, 2), (0, 2), (2, 2), (0, 0)];
    for (x, y) in order.iter() {
        assert!(!game.finished);
        play(&mut game, *x, *y);
    }
    assert!(game.finished);
    assert_eq!(game.winner, Player::Cross);
    assert_eq!(game.status(), Status::Won(Player::Cross));
}

fn marks_of(game: &Game, mark: Player) -> usize {
    game.board.iter().map(|column| column.iter().filter(|cell| **cell == mark).count()).sum()
}

#[test]
fn marks_and_turns_agree() {
    let mut game = Game::new();
    let order = [(0, 0), (1, 0), (2, 0), (1, 1), (0, 1), (2, 1), (1, 2), (0, 2), (2, 2)];
    for (n, (x, y)) in order.iter().enumerate() {
        assert_eq!(marks_of(&game, Player::Cross) + marks_of(&game, Player::Nought), n);
        if game.current_player == Player::Cross {
            assert_eq!(marks_of(&game, Player::Cross), marks_of(&game, Player::Nought));
        } else {
            assert_eq!(game.current_player, Player::Nought);
            assert_eq!(marks_of(&game, Player::Cross), marks_of(&game, Player::Nought) + 1);
        }
        play(&mut game, *x, *y);
    }
    assert_eq!(marks_of(&game, Player::Cross), 5);
    assert_eq!(marks_of(&game, Player::Nought), 4);
    assert_eq!(game.current_player, Player::Nought);
}

/// A grid from its rows as text, top row first: `X`, `O`, or `.` for an
/// empty cell.
fn grid(rows: [&str; 3]) -> Vec<Vec<Player>> {
    let mut board = empty_grid();
    for (y, row) in rows.iter().enumerate() {
        for (x, c) in row.chars().enumerate() {
            board[x][y] = match c {
                'X' => Player::Cross,
                'O' => Player::Nought,
                _ => Player::Empty,
            };
        }
    }
    board
}

#[test]
fn draw_examination_keeps_a_winner_on_a_full_grid() {
    let board = grid(["XOX", "OXO", "OXX"]);
    let mut game = Game {
        pos_x: 0,
        pos_y: 0,
        current_player: Player::Nought,
        board: board.clone(),
        finished: true,
        winner: Player::Cross,
    };
    game.check_stalemate();
    assert_eq!(game.winner, Player::Cross);
    assert!(game.finished);
    assert_eq!(game.board, board);
    assert_eq!(game.current_player, Player::Nought);
    assert_eq!((game.pos_x, game.pos_y), (0, 0));
}

#[test]
fn draw_examination_ends_a_full_grid_without_winner() {
    let board = grid(["XOX", "XOO", "OXX"]);
    let mut game = game_of(board.clone(), 1, 2, Player::Nought);
    game.check_stalemate();
    assert!(game.finished);
    assert_eq!(game.winner, Player::Empty);
    assert_eq!((game.pos_x, game.pos_y), (0, 0));
    assert_eq!(game.board, board);
    assert_eq!(game.current_player, Player::Nought);
}

#[test]
fn draw_examination_leaves_a_grid_with_an_empty_cell() {
    let board = grid(["XOX", "XOO", "OX."]);
    let mut game = game_of(board.clone(), 2, 1, Player::Cross);
    game.check_stalemate();
    assert!(!game.finished);
    assert_eq!(game.winner, Player::Empty);
    assert_eq!((game.pos_x, game.pos_y), (2, 1));
    assert_eq!(game.board, board);
    assert_eq!(game.current_player, Player::Cross);
}

#[test]
fn winner_examination_names_the_mark_of_the_line() {
    let board = grid(["XXO", ".XO", "..O"]);
    let mut game = game_of(board.clone(), 2, 2, Player::Cross);
    game.check_winner();
    assert!(game.finished);
    assert_eq!(game.winner, Player::Nought);
    assert_eq!((game.pos_x, game.pos_y), (0, 0));
    assert_eq!(game.board, board);
    assert_eq!(game.current_player, Player::Cross);
}

#[test]
fn winner_examination_without_line_changes_nothing() {
    let board = grid(["XOX", "XOO", "OXX"]);
    let mut game = game_of(board.clone(), 1, 1, Player::Nought);
    game.check_winner();
    assert!(!game.finished);
    assert_eq!(game.winner, Player::Empty);
    assert_eq!((game.pos_x, game.pos_y), (1, 1));
    assert_eq!(game.board, board);
    assert_eq!(game.current_player, Player::Nought);
}

#[test]
fn first_line_examined_wins() {
    let mut game = game_of(grid(["O.X", "O.X", "O.X"]), 1, 1, Player::Cross);
    game.check_winner();
    assert!(game.finished);
    assert_eq!(game.winner, Player::Nought);

    let mut game = game_of(grid(["XXX", "...", "OOO"]), 1, 1, Player::Cross);
    game.check_winner();
    assert!(game.finished);
    assert_eq!(game.winner, Player::Cross);

    let mut game = game_of(grid(["X.O", "X.O", "X.O"]), 1, 1, Player::Cross);
    game.check_winner();
    assert_eq!(game.winner, Player::Cross);
}

#[test]
fn examinations_change_nothing_in_a_game_that_was_played() {
    let mut game = Game::new();
    play(&mut game, 1, 1);
    play(&mut game, 0, 2);
    let board = cells(&game);
    game.check_winner();
    game.check_stalemate();
    assert_eq!(cells(&game), board);
    assert!(!game.finished);
    assert_eq!(game.winner, Player::Empty);
    assert_eq!((game.pos_x, game.pos_y), (0, 2));
    assert_eq!(game.current_player, Player::Cross);
}
