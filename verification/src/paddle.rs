//! The paddle controller: from held keys to a new height, kept on the
//! playfield.

use crate::config::{PADDLE_HEIGHT, PADDLE_SPEED};
use crate::motion::{advance_clamped, clamped};
use vstd::prelude::*;

verus! {

/// Which of the two movement keys are held during a tick.
#[derive(Clone, Copy, Debug, PartialEq, Eq, Structural)]
pub struct PaddleInput {
    pub up: bool,
    pub down: bool,
}

impl PaddleInput {
    /// The way the paddle is asked to go: 1 for up, -1 for down, 0 for
    /// neither. With both keys held, down wins.
    pub open spec fn direction(self) -> int {
        if self.down {
            -1
        } else if self.up {
            1
        } else {
            0
        }
    }

    /// No key held.
    pub fn idle() -> (input: PaddleInput)
        ensures
            input == (PaddleInput { up: false, down: false }),
            input.direction() == 0,
    {
        PaddleInput { up: false, down: false }
    }

    pub fn new(up: bool, down: bool) -> (input: PaddleInput)
        ensures
            input == (PaddleInput { up, down }),
    {
        PaddleInput { up, down }
    }

    pub fn steer(&self) -> (d: i64)
        ensures
            d == self.direction(),
    {
        let mut d: i64 = 0;
        if self.up {
            d = 1;
        }
        if self.down {
            d = -1;
        }
        d
    }
}

/// The lowest height a paddle's center may have in a window of the given
/// height: the window's lower edge plus half a paddle.
pub open spec fn lower_bound(window_height: u64) -> int {
    -(window_height / 2) + PADDLE_HEIGHT / 2
}

/// The greatest height a paddle's center may have in a window of the given
/// height: the window's upper edge minus half a paddle.
pub open spec fn upper_bound(window_height: u64) -> int {
    window_height / 2 - PADDLE_HEIGHT / 2
}

/// A window has room for a paddle when the bounds are in order, which is to
/// say when half the window is at least half a paddle high.
pub open spec fn has_room(window_height: u64) -> bool {
    lower_bound(window_height) <= upper_bound(window_height)
}

/// The paddle's height after one tick:
/// `clamp(y + direction * speed * dt, lower, upper)`.
pub open spec fn moved_height(y: i64, input: PaddleInput, dt: u64, window_height: u64) -> int {
    clamped(
        y + input.direction() * PADDLE_SPEED * dt,
        lower_bound(window_height),
        upper_bound(window_height),
    )
}

/// Whether a paddle fits into a window of the given height.
pub fn window_has_room(window_height: u64) -> (ok: bool)
    ensures
        ok == has_room(window_height),
{
    window_height / 2 >= PADDLE_HEIGHT / 2
}

/// The lower and upper bound of a paddle's height.
pub fn paddle_bounds(window_height: u64) -> (bounds: (i64, i64))
    ensures
        bounds.0 == lower_bound(window_height),
        bounds.1 == upper_bound(window_height),
{
    let half_window: i64 = (window_height / 2) as i64;
    let half_paddle: i64 = (PADDLE_HEIGHT / 2) as i64;
    (-half_window + half_paddle, half_window - half_paddle)
}

/// Moves a paddle that stands at height `y` for one tick of `dt`
/// nanoseconds and keeps it inside the window.
pub fn move_paddle(y: i64, input: PaddleInput, dt: u64, window_height: u64) -> (new_y: i64)
    requires
        has_room(window_height),
    ensures
        new_y == moved_height(y, input, dt, window_height),
        lower_bound(window_height) <= new_y <= upper_bound(window_height),
{
    let (low, high) = paddle_bounds(window_height);
    let velocity: i64 = input.steer() * PADDLE_SPEED;
    assert(velocity * dt == input.direction() * PADDLE_SPEED * dt) by (nonlinear_arith)
        requires
            velocity == input.direction() * PADDLE_SPEED,
    ;
    advance_clamped(y, velocity, dt, low, high)
}

/// With no key held, a paddle that is inside the window stays where it is.
pub proof fn lemma_idle_paddle_stays(y: i64, input: PaddleInput, dt: u64, window_height: u64)
    requires
        input.direction() == 0,
        lower_bound(window_height) <= y <= upper_bound(window_height),
    ensures
        moved_height(y, input, dt, window_height) == y,
{
    assert(input.direction() * PADDLE_SPEED * dt == 0) by (nonlinear_arith)
        requires
            input.direction() == 0,
    ;
}

/// Whatever is asked of it, a paddle ends up inside the window.
pub proof fn lemma_paddle_stays_in_window(y: i64, input: PaddleInput, dt: u64, window_height: u64)
    requires
        has_room(window_height),
    ensures
        lower_bound(window_height) <= moved_height(y, input, dt, window_height) <= upper_bound(
            window_height,
        ),
{
}

} // verus!
