use falling_blocks::board::Board;
use falling_blocks::color::Color;
use falling_blocks::game::{GameState, ROW_REWARD};
use falling_blocks::tetromino::{Kind, Tetromino};

const DRAW_I: u32 = 0;
const DRAW_O: u32 = 1;
const DRAW_T: u32 = 2;

fn fill_row(board: &mut Board, y: usize, color: Color) {
    for x in 0..board.width() {
        board.set(x, y, Some(color));
    }
}

#[test]
fn new_game_spawns_the_drawn_piece() {
    let game = GameState::new(10, 20, DRAW_T);
    assert!(!game.is_game_over());
    assert_eq!(game.score(), 0);
    assert_eq!(*game.board(), Board::new(10, 20));
    let piece = game.piece();
    assert_eq!(piece.shape, Tetromino::canonical(Kind::T));
    assert_eq!((piece.x, piece.y), (3, 0));
}

#[test]
fn row_reward_is_one_hundred() {
    assert_eq!(ROW_REWARD, 100);
}

#[test]
fn can_place_rejects_outside_cells_and_occupied_cells() {
    let mut board = Board::new(10, 20);
    board.set(5, 10, Some(Color::Red));
    let game = GameState::from_board(board, DRAW_O);
    let o = Tetromino::canonical(Kind::O);
    assert!(game.can_place(&o, 0, 0));
    assert!(game.can_place(&o, -1, 0));
    assert!(!game.can_place(&o, -2, 0));
    assert!(game.can_place(&o, 7, 0));
    assert!(!game.can_place(&o, 8, 0));
    assert!(game.can_place(&o, 0, 18));
    assert!(!game.can_place(&o, 0, 19));
    assert!(game.can_place(&o, 0, -5));
    assert!(!game.can_place(&o, 8, -5));
    assert!(!game.can_place(&o, 4, 10));
    assert!(!game.can_place(&o, 3, 9));
    assert!(game.can_place(&o, 5, 10));
    assert!(game.can_place(&o, 4, 8));
}

#[test]
fn i_piece_moves_right_until_its_last_block_is_in_the_last_column() {
    let mut game = GameState::new(10, 20, DRAW_I);
    let mut moves = 0;
    while game.move_right() {
        moves += 1;
        assert!(moves <= 10);
    }
    assert_eq!(moves, 3);
    let piece = game.piece();
    assert_eq!((piece.x, piece.y), (6, 0));
    let rightmost = piece.shape.offsets().iter().map(|o| piece.x + o.0).max().unwrap();
    assert_eq!(rightmost, 9);
    assert!(!game.move_right());
    assert_eq!(game.piece(), piece);
}

#[test]
fn i_piece_on_the_narrow_board() {
    let mut game = GameState::new(8, 32, DRAW_I);
    assert_eq!(game.piece().x, 2);
    assert!(game.move_right());
    assert!(game.move_right());
    assert!(!game.move_right());
    assert_eq!(game.piece().x, 4);
}

#[test]
fn i_piece_moves_left_until_the_first_column() {
    let mut game = GameState::new(10, 20, DRAW_I);
    assert!(game.move_left());
    assert!(game.move_left());
    assert!(game.move_left());
    assert!(!game.move_left());
    assert_eq!(game.piece().x, 0);
}

#[test]
fn rejected_move_changes_nothing() {
    let mut game = GameState::new(10, 20, DRAW_O);
    let before = game.clone();
    assert!(!game.move_by(20, 0, 5));
    assert_eq!(game, before);
    assert!(!game.move_by(0, 25, 5));
    assert_eq!(game, before);
    assert!(!game.move_by(i32::MAX, i32::MAX, 5));
    assert_eq!(game, before);
    assert!(!game.move_by(i32::MIN, 0, 5));
    assert_eq!(game, before);
}

#[test]
fn move_by_shifts_the_piece() {
    let mut game = GameState::new(10, 20, DRAW_O);
    assert!(game.move_by(2, 3, 0));
    assert_eq!((game.piece().x, game.piece().y), (5, 3));
    assert!(game.move_by(-4, -10, 0));
    assert_eq!((game.piece().x, game.piece().y), (1, -7));
    assert!(game.move_by(0, 1, 0));
    assert_eq!((game.piece().x, game.piece().y), (1, -6));
}

#[test]
fn a_shift_that_leaves_the_coordinate_range_is_rejected() {
    let mut game = GameState::new(10, 20, DRAW_O);
    assert!(game.move_by(0, i32::MIN, 0));
    assert_eq!(game.piece().y, i32::MIN);
    let before = game.clone();
    assert!(!game.move_by(0, -1, 0));
    assert_eq!(game, before);
}

#[test]
fn step_down_moves_one_row() {
    let mut game = GameState::new(10, 20, DRAW_O);
    assert!(game.step_down(DRAW_I));
    assert_eq!((game.piece().x, game.piece().y), (3, 1));
    assert_eq!(*game.board(), Board::new(10, 20));
    assert_eq!(game.score(), 0);
}

#[test]
fn piece_locks_at_the_floor_and_the_next_one_spawns() {
    let mut game = GameState::new(10, 20, DRAW_O);
    let mut steps = 0;
    while game.step_down(DRAW_T) {
        steps += 1;
    }
    assert_eq!(steps, 18);
    let mut want = Board::new(10, 20);
    want.set(4, 18, Some(Color::Yellow));
    want.set(5, 18, Some(Color::Yellow));
    want.set(4, 19, Some(Color::Yellow));
    want.set(5, 19, Some(Color::Yellow));
    assert_eq!(*game.board(), want);
    assert_eq!(game.score(), 0);
    assert!(!game.is_game_over());
    assert_eq!(game.piece().shape, Tetromino::canonical(Kind::T));
    assert_eq!((game.piece().x, game.piece().y), (3, 0));
}

#[test]
fn only_the_gravity_step_locks() {
    let mut game = GameState::new(10, 20, DRAW_O);
    while game.piece().y < 18 {
        assert!(game.step_down(DRAW_T));
    }
    let resting = game.clone();
    assert!(!game.move_by(0, 2, DRAW_T));
    assert_eq!(game, resting);
    assert!(!game.move_by(1, 1, DRAW_T));
    assert_eq!(game, resting);
    assert!(!game.move_by(0, 1, DRAW_T));
    assert_ne!(game, resting);
    assert_eq!(game.piece().shape, Tetromino::canonical(Kind::T));
}

#[test]
fn lock_on_a_full_row_clears_it_and_adds_one_hundred() {
    let mut board = Board::new(10, 20);
    fill_row(&mut board, 19, Color::Green);
    board.set(0, 18, Some(Color::Red));
    let mut game = GameState::from_board(board, DRAW_O);
    let mut steps = 0;
    while game.step_down(DRAW_I) {
        steps += 1;
    }
    assert_eq!(steps, 17);
    assert_eq!(game.score(), 100);
    let mut want = Board::new(10, 20);
    want.set(0, 19, Some(Color::Red));
    want.set(4, 19, Some(Color::Yellow));
    want.set(5, 19, Some(Color::Yellow));
    want.set(4, 18, Some(Color::Yellow));
    want.set(5, 18, Some(Color::Yellow));
    assert_eq!(*game.board(), want);
    for x in 0..10 {
        assert_eq!(game.board().get(x, 0), None);
    }
    assert!(!game.is_game_over());
    assert_eq!(game.piece().shape, Tetromino::canonical(Kind::I));
}

#[test]
fn lock_that_completes_a_row_clears_it() {
    let mut board = Board::new(10, 20);
    for x in 0..10 {
        if x != 4 && x != 5 {
            board.set(x, 19, Some(Color::Blue));
            board.set(x, 18, Some(Color::Blue));
        }
    }
    board.set(0, 17, Some(Color::Red));
    let mut game = GameState::from_board(board, DRAW_O);
    while game.step_down(DRAW_T) {}
    assert_eq!(game.score(), 200);
    let mut want = Board::new(10, 20);
    want.set(0, 19, Some(Color::Red));
    assert_eq!(*game.board(), want);
}

#[test]
fn rotate_turns_the_piece_in_place() {
    let mut game = GameState::new(10, 20, DRAW_I);
    assert!(game.rotate());
    let piece = game.piece();
    assert_eq!(piece.shape.offsets(), [(1, 3), (1, 2), (1, 1), (1, 0)]);
    assert_eq!((piece.x, piece.y), (3, 0));
    assert_eq!(game.score(), 0);
    assert_eq!(*game.board(), Board::new(10, 20));
}

#[test]
fn rotate_is_rejected_where_the_turned_piece_does_not_fit() {
    let mut game = GameState::new(10, 20, DRAW_I);
    assert!(game.rotate());
    assert!(game.move_by(-4, 0, 0));
    assert_eq!(game.piece().x, -1);
    let before = game.clone();
    assert!(!game.rotate());
    assert_eq!(game, before);

    let mut board = Board::new(10, 20);
    board.set(4, 3, Some(Color::Red));
    let mut game = GameState::from_board(board, DRAW_I);
    let before = game.clone();
    assert!(!game.rotate());
    assert_eq!(game, before);
}

#[test]
fn four_rotations_restore_the_piece() {
    let mut game = GameState::new(10, 20, DRAW_T);
    let start = game.piece();
    for _ in 0..4 {
        assert!(game.rotate());
    }
    assert_eq!(game.piece(), start);
}

#[test]
fn game_is_over_when_the_spawn_cells_are_occupied() {
    let mut board = Board::new(10, 20);
    for y in 0..2 {
        for x in 3..7 {
            board.set(x, y, Some(Color::Red));
        }
    }
    let mut game = GameState::from_board(board.clone(), DRAW_I);
    assert!(game.is_game_over());
    let before = game.clone();
    assert!(!game.move_left());
    assert!(!game.move_right());
    assert!(!game.rotate());
    assert!(!game.step_down(DRAW_O));
    assert!(!game.move_by(0, 1, DRAW_O));
    assert!(!game.move_by(0, -5, DRAW_O));
    assert_eq!(game, before);
    assert_eq!(*game.board(), board);
    assert_eq!(game.score(), 0);
}

#[test]
fn lock_under_the_spawn_cells_ends_the_game() {
    let mut board = Board::new(10, 20);
    board.set(4, 2, Some(Color::Red));
    board.set(5, 2, Some(Color::Red));
    let mut game = GameState::from_board(board, DRAW_O);
    assert!(!game.is_game_over());
    assert!(!game.step_down(DRAW_O));
    assert!(game.is_game_over());
    let mut want = Board::new(10, 20);
    want.set(4, 2, Some(Color::Red));
    want.set(5, 2, Some(Color::Red));
    for (x, y) in [(4, 0), (5, 0), (4, 1), (5, 1)] {
        want.set(x, y, Some(Color::Yellow));
    }
    assert_eq!(*game.board(), want);
    assert_eq!(game.score(), 0);

    let over = game.clone();
    for draw in 0..7 {
        assert!(!game.step_down(draw));
        assert!(!game.move_left());
        assert!(!game.move_right());
        assert!(!game.rotate());
        assert!(!game.move_by(1, 1, draw));
    }
    assert_eq!(game, over);
}

#[test]
fn game_on_a_board_too_narrow_for_the_piece_is_over_at_once() {
    assert!(GameState::new(3, 20, DRAW_I).is_game_over());
    assert!(GameState::new(0, 20, DRAW_O).is_game_over());
    assert!(GameState::new(10, 0, DRAW_O).is_game_over());
    assert!(GameState::new(10, 1, DRAW_O).is_game_over());
    assert!(!GameState::new(10, 2, DRAW_O).is_game_over());
    assert!(!GameState::new(4, 2, DRAW_I).is_game_over());
}

#[test]
fn frame_shows_board_and_piece() {
    let mut board = Board::new(10, 20);
    board.set(0, 19, Some(Color::Red));
    let mut game = GameState::from_board(board.clone(), DRAW_I);
    assert!(game.step_down(0));
    let frame = game.frame();
    let mut want = board.clone();
    for x in 3..7 {
        want.set(x, 2, Some(Color::Cyan));
    }
    assert_eq!(frame, want);
    assert_eq!(*game.board(), board);
}

#[test]
fn frame_of_a_finished_game_draws_the_piece_on_top() {
    let mut board = Board::new(10, 20);
    board.set(4, 1, Some(Color::Red));
    let game = GameState::from_board(board.clone(), DRAW_I);
    assert!(game.is_game_over());
    let mut want = board.clone();
    for x in 3..7 {
        want.set(x, 1, Some(Color::Cyan));
    }
    assert_eq!(game.frame(), want);
}

#[test]
fn locked_cells_hold_the_seven_colors() {
    let mut game = GameState::new(10, 20, 0);
    let mut draw = 1;
    let mut locks = 0;
    while !game.is_game_over() && locks < 40 {
        if !game.step_down(draw) {
            locks += 1;
            draw += 1;
        }
    }
    let board = game.board();
    let mut seen = Vec::new();
    for y in 0..board.height() {
        for x in 0..board.width() {
            if let Some(color) = board.get(x, y) {
                assert!(matches!(
                    color,
                    Color::Cyan
                        | Color::Yellow
                        | Color::Purple
                        | Color::Orange
                        | Color::Blue
                        | Color::Green
                        | Color::Red
                ));
                if !seen.contains(&color) {
                    seen.push(color);
                }
            }
        }
    }
    assert!(game.is_game_over());
    assert_eq!(seen.len(), 7);
    assert_eq!(game.score(), 0);
}

#[test]
fn score_never_falls_and_the_end_is_final() {
    let mut game = GameState::new(8, 32, 3);
    let mut last = 0;
    let mut over = false;
    for step in 0..4000u32 {
        match step % 5 {
            0 => {
                game.move_left();
            }
            1 => {
                game.rotate();
            }
            2 => {
                game.move_right();
            }
            _ => {
                game.step_down(step.wrapping_mul(2654435761));
            }
        }
        assert!(game.score() >= last);
        assert_eq!((game.score() - last) % 100, 0);
        last = game.score();
        assert!(!over || game.is_game_over());
        over = game.is_game_over();
    }
    assert!(over);
}
