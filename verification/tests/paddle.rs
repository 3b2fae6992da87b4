use pong::paddle::{move_paddle, paddle_bounds, window_has_room, PaddleInput};

const PX: i64 = 1_000_000_000;
const WINDOW: u64 = 600_000_000_000;
const TICK: u64 = 15_625_000;

#[test]
fn bounds_are_half_the_window_less_half_a_paddle() {
    assert_eq!(paddle_bounds(WINDOW), (-240 * PX, 240 * PX));
    assert_eq!(paddle_bounds(120_000_000_000), (0, 0));
    assert_eq!(paddle_bounds(120_000_000_001), (0, 0));
    assert_eq!(paddle_bounds(120_000_000_002), (-1, 1));
}

#[test]
fn window_needs_room_for_a_paddle() {
    assert!(window_has_room(WINDOW));
    assert!(window_has_room(120_000_000_000));
    assert!(!window_has_room(119_999_999_999));
    assert!(!window_has_room(0));
    assert!(window_has_room(u64::MAX));
}

#[test]
fn directions_of_input() {
    assert_eq!(PaddleInput::idle().steer(), 0);
    assert_eq!(PaddleInput::new(true, false).steer(), 1);
    assert_eq!(PaddleInput::new(false, true).steer(), -1);
    assert_eq!(PaddleInput::new(true, true).steer(), -1);
    assert_eq!(PaddleInput::idle(), PaddleInput::new(false, false));
}

#[test]
fn idle_paddle_does_not_move() {
    for y in [-240 * PX, -1, 0, 17, 240 * PX] {
        for dt in [0u64, 1, TICK, 1_000_000_000, u64::MAX] {
            assert_eq!(move_paddle(y, PaddleInput::idle(), dt, WINDOW), y);
        }
    }
}

#[test]
fn idle_paddle_outside_the_window_is_brought_back() {
    assert_eq!(move_paddle(300 * PX, PaddleInput::idle(), TICK, WINDOW), 240 * PX);
    assert_eq!(move_paddle(-300 * PX, PaddleInput::idle(), TICK, WINDOW), -240 * PX);
}

#[test]
fn paddle_moves_by_speed_times_time() {
    assert_eq!(move_paddle(0, PaddleInput::new(true, false), TICK, WINDOW), 6_250_000_000);
    assert_eq!(move_paddle(0, PaddleInput::new(false, true), TICK, WINDOW), -6_250_000_000);
    assert_eq!(move_paddle(PX, PaddleInput::new(true, false), 1, WINDOW), PX + 400);
}

#[test]
fn down_wins_when_both_keys_are_held() {
    assert_eq!(move_paddle(0, PaddleInput::new(true, true), TICK, WINDOW), -6_250_000_000);
}

#[test]
fn paddle_is_stopped_at_the_upper_bound() {
    assert_eq!(move_paddle(239 * PX, PaddleInput::new(true, false), TICK, WINDOW), 240 * PX);
    assert_eq!(move_paddle(0, PaddleInput::new(true, false), u64::MAX, WINDOW), 240 * PX);
    assert_eq!(move_paddle(i64::MAX, PaddleInput::new(true, false), u64::MAX, WINDOW), 240 * PX);
}

#[test]
fn paddle_is_stopped_at_the_lower_bound() {
    assert_eq!(move_paddle(-239 * PX, PaddleInput::new(false, true), TICK, WINDOW), -240 * PX);
    assert_eq!(move_paddle(0, PaddleInput::new(false, true), u64::MAX, WINDOW), -240 * PX);
    assert_eq!(move_paddle(i64::MIN, PaddleInput::new(false, true), u64::MAX, WINDOW), -240 * PX);
}

#[test]
fn paddle_always_ends_inside_the_window() {
    let inputs = [
        PaddleInput::idle(),
        PaddleInput::new(true, false),
        PaddleInput::new(false, true),
        PaddleInput::new(true, true),
    ];
    for window in [120_000_000_000u64, WINDOW, 1_000_000_000_000, u64::MAX] {
        let (low, high) = paddle_bounds(window);
        for y in [i64::MIN, -500 * PX, -1, 0, 1, 500 * PX, i64::MAX] {
            for dt in [0u64, 1, TICK, 3_000_000_000, u64::MAX] {
                for input in inputs {
                    let moved = move_paddle(y, input, dt, window);
                    assert!(low <= moved && moved <= high);
                }
            }
        }
    }
}
