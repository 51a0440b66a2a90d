use falling_blocks::board::Board;
use falling_blocks::color::Color;
use falling_blocks::game::GameState;
use falling_blocks::input::{
    elapsed_ms, Action, Debouncer, Lines, DEBOUNCE_LONG_MS, DEBOUNCE_SHORT_MS,
};
use falling_blocks::scheduler::{GameLoop, FALL_INTERVAL_MS};

const IDLE: Lines = Lines { left_low: false, right_low: false, rotate_low: false };
const LEFT: Lines = Lines { left_low: true, right_low: false, rotate_low: false };
const RIGHT: Lines = Lines { left_low: false, right_low: true, rotate_low: false };
const ROTATE: Lines = Lines { left_low: false, right_low: false, rotate_low: true };
const ALL: Lines = Lines { left_low: true, right_low: true, rotate_low: true };

#[test]
fn periods() {
    assert_eq!(DEBOUNCE_SHORT_MS, 100);
    assert_eq!(DEBOUNCE_LONG_MS, 250);
    assert_eq!(FALL_INTERVAL_MS, 500);
}

#[test]
fn elapsed_time() {
    assert_eq!(elapsed_ms(100, 350), 250);
    assert_eq!(elapsed_ms(100, 100), 0);
    assert_eq!(elapsed_ms(100, 99), 0);
    assert_eq!(elapsed_ms(0, u64::MAX), u64::MAX);
}

#[test]
fn a_low_line_is_accepted_only_after_more_than_the_window() {
    let mut gate = Debouncer::new(100, 1000);
    assert_eq!(gate.window_ms(), 100);
    assert_eq!(gate.last_accepted_ms(), 1000);
    assert_eq!(gate.poll(1050, LEFT), None);
    assert_eq!(gate.poll(1100, LEFT), None);
    assert_eq!(gate.last_accepted_ms(), 1000);
    assert_eq!(gate.poll(1101, LEFT), Some(Action::MoveLeft));
    assert_eq!(gate.last_accepted_ms(), 1101);
}

#[test]
fn an_accepted_action_shuts_the_other_lines_too() {
    let mut gate = Debouncer::new(250, 0);
    assert_eq!(gate.poll(251, ROTATE), Some(Action::Rotate));
    assert_eq!(gate.poll(300, LEFT), None);
    assert_eq!(gate.poll(501, RIGHT), None);
    assert_eq!(gate.poll(502, RIGHT), Some(Action::MoveRight));
    assert_eq!(gate.poll(502, LEFT), None);
}

#[test]
fn idle_lines_leave_the_window_alone() {
    let mut gate = Debouncer::new(100, 0);
    assert_eq!(gate.poll(500, IDLE), None);
    assert_eq!(gate.last_accepted_ms(), 0);
    assert_eq!(gate.poll(501, RIGHT), Some(Action::MoveRight));
}

#[test]
fn one_action_per_poll_left_before_right_before_rotate() {
    let mut gate = Debouncer::new(100, 0);
    assert_eq!(gate.poll(200, ALL), Some(Action::MoveLeft));
    assert_eq!(gate.last_accepted_ms(), 200);
    let both = Lines { left_low: false, right_low: true, rotate_low: true };
    assert_eq!(gate.poll(400, both), Some(Action::MoveRight));
    assert_eq!(gate.poll(600, ROTATE), Some(Action::Rotate));
}

#[test]
fn a_clock_that_reads_earlier_accepts_nothing() {
    let mut gate = Debouncer::new(100, 1000);
    assert_eq!(gate.poll(10, LEFT), None);
    assert_eq!(gate.last_accepted_ms(), 1000);
    let mut zero = Debouncer::new(0, 1000);
    assert_eq!(zero.poll(1000, LEFT), None);
    assert_eq!(zero.poll(1001, LEFT), Some(Action::MoveLeft));
}

#[test]
fn gravity_steps_when_the_interval_has_passed() {
    let mut looped = GameLoop::new(GameState::new(10, 20, 1), 1000, 500, 100);
    assert!(!looped.is_halted());
    let tick = looped.iterate(1499, IDLE, 0);
    assert!(!tick.halted);
    assert_eq!(looped.game().piece().y, 0);
    assert_eq!(tick.frame, looped.game().frame());
    looped.iterate(1500, IDLE, 0);
    assert_eq!(looped.game().piece().y, 1);
    looped.iterate(1999, IDLE, 0);
    assert_eq!(looped.game().piece().y, 1);
    looped.iterate(2100, IDLE, 0);
    assert_eq!(looped.game().piece().y, 2);
    looped.iterate(2599, IDLE, 0);
    assert_eq!(looped.game().piece().y, 2);
    looped.iterate(2600, IDLE, 0);
    assert_eq!(looped.game().piece().y, 3);
}

#[test]
fn a_late_iteration_takes_one_gravity_step_only() {
    let mut looped = GameLoop::new(GameState::new(10, 20, 1), 0, 500, 100);
    looped.iterate(5000, IDLE, 0);
    assert_eq!(looped.game().piece().y, 1);
    looped.iterate(5001, IDLE, 0);
    assert_eq!(looped.game().piece().y, 1);
}

#[test]
fn an_iteration_applies_gravity_and_one_action() {
    let mut looped = GameLoop::new(GameState::new(10, 20, 1), 0, 500, 100);
    let tick = looped.iterate(500, ALL, 0);
    let piece = looped.game().piece();
    assert_eq!((piece.x, piece.y), (2, 1));
    let mut want = Board::new(10, 20);
    for (x, y) in [(3, 1), (4, 1), (3, 2), (4, 2)] {
        want.set(x, y, Some(Color::Yellow));
    }
    assert_eq!(tick.frame, want);
    looped.iterate(550, RIGHT, 0);
    assert_eq!(looped.game().piece().x, 2);
    looped.iterate(601, RIGHT, 0);
    assert_eq!(looped.game().piece().x, 3);
    looped.iterate(702, ROTATE, 0);
    assert_eq!(looped.game().piece().shape.offsets(), [(0, 2), (0, 1), (1, 2), (1, 1)]);
}

#[test]
fn the_loop_halts_when_the_game_is_over_and_then_changes_nothing() {
    let mut board = Board::new(10, 20);
    board.set(4, 2, Some(Color::Red));
    board.set(5, 2, Some(Color::Red));
    let mut looped = GameLoop::new(GameState::from_board(board, 1), 0, 500, 100);
    let tick = looped.iterate(500, LEFT, 1);
    assert!(tick.halted);
    assert!(looped.is_halted());
    assert!(looped.game().is_game_over());
    assert_eq!(tick.frame, looped.game().frame());
    let halted = looped.clone();
    let again = looped.iterate(5000, ALL, 3);
    assert!(again.halted);
    assert_eq!(again.frame, tick.frame);
    assert_eq!(looped, halted);
}

#[test]
fn a_loop_around_a_finished_game_is_halted_from_the_start() {
    let mut looped = GameLoop::new(GameState::new(2, 2, 0), 0, 500, 100);
    assert!(looped.is_halted());
    let before = looped.clone();
    let tick = looped.iterate(1000, ALL, 0);
    assert!(tick.halted);
    assert_eq!(looped, before);
}
