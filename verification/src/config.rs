//! The measures of the game.
//!
//! Lengths are in world units, 10^9 to the pixel; speeds in units per
//! nanosecond, which is pixels per second; times in nanoseconds.

use vstd::prelude::*;

verus! {

pub const UNITS_PER_PIXEL: u64 = 1_000_000_000;

pub const WINDOW_WIDTH: u64 = 800_000_000_000;

pub const WINDOW_HEIGHT: u64 = 600_000_000_000;

pub const PADDLE_WIDTH: u64 = 20_000_000_000;

pub const PADDLE_HEIGHT: u64 = 120_000_000_000;

pub const PADDLE_SPEED: i64 = 400;

/// The player's paddle starts one paddle width inside the left edge.
pub const PLAYER_PADDLE_START_X: i64 = -370_000_000_000;

/// The opponent's paddle starts one paddle width inside the right edge.
pub const OPPONENT_PADDLE_START_X: i64 = 370_000_000_000;

pub const BALL_WIDTH: u64 = 20_000_000_000;

pub const BALL_HEIGHT: u64 = 20_000_000_000;

pub const BALL_SPEED: i64 = 500;

pub const BALL_START_X: i64 = 0;

pub const BALL_START_Y: i64 = 0;

/// A served ball flies to the left.
pub const BALL_START_DIRECTION_X: i64 = -1;

pub const BALL_START_DIRECTION_Y: i64 = 0;

pub const SCORING_ZONE_WIDTH: u64 = 20_000_000_000;

pub const SCORING_ZONE_HEIGHT: u64 = 20_000_000_000;

/// The left scoring zone lies just outside the left edge of the window.
pub const LEFT_SCORING_ZONE_X: i64 = -410_000_000_000;

/// The right scoring zone lies just outside the right edge of the window.
pub const RIGHT_SCORING_ZONE_X: i64 = 410_000_000_000;

/// How long the game waits after a point before it serves again.
pub const RESPAWN_NANOS: u64 = 3_000_000_000;

} // verus!
