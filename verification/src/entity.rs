//! What stands on the playfield: paddles, scoring zones and the ball.

use crate::config::{
    BALL_HEIGHT, BALL_SPEED, BALL_START_DIRECTION_X, BALL_START_DIRECTION_Y, BALL_START_X,
    BALL_START_Y, BALL_WIDTH, PADDLE_HEIGHT, PADDLE_WIDTH, SCORING_ZONE_HEIGHT,
    SCORING_ZONE_WIDTH,
};
use crate::geometry::{Aabb, Extent, Vec2};
use crate::motion::{advance, displaced};
use crate::score::Side;
use vstd::prelude::*;

verus! {

/// Something the ball can run into. One without a side is a paddle and sends
/// the ball back; one with a side is the scoring zone of that side.
#[derive(Clone, Copy, Debug, PartialEq, Eq)]
pub struct Collider {
    pub position: Vec2,
    pub size: Extent,
    pub scoring_zone: Option<Side>,
}

impl Collider {
    pub open spec fn is_paddle(self) -> bool {
        self.scoring_zone is None
    }

    /// The box the collider fills: its position and half its size.
    pub open spec fn bounds(self) -> Aabb {
        Aabb::around(self.position, self.size)
    }

    /// A paddle of the standard size at `position`.
    pub open spec fn paddle_at(position: Vec2) -> Collider {
        Collider {
            position,
            size: Extent { x: PADDLE_WIDTH, y: PADDLE_HEIGHT },
            scoring_zone: None,
        }
    }

    /// The scoring zone of `side` at `position`.
    pub open spec fn zone_at(position: Vec2, side: Side) -> Collider {
        Collider {
            position,
            size: Extent { x: SCORING_ZONE_WIDTH, y: SCORING_ZONE_HEIGHT },
            scoring_zone: Some(side),
        }
    }

    pub fn paddle(position: Vec2) -> (c: Collider)
        ensures
            c == Collider::paddle_at(position),
    {
        Collider {
            position,
            size: Extent { x: PADDLE_WIDTH, y: PADDLE_HEIGHT },
            scoring_zone: None,
        }
    }

    pub fn scoring_zone(position: Vec2, side: Side) -> (c: Collider)
        ensures
            c == Collider::zone_at(position, side),
    {
        Collider {
            position,
            size: Extent { x: SCORING_ZONE_WIDTH, y: SCORING_ZONE_HEIGHT },
            scoring_zone: Some(side),
        }
    }

    pub fn aabb(&self) -> (b: Aabb)
        ensures
            b == self.bounds(),
    {
        Aabb::from_position_size(self.position, self.size)
    }
}

/// The ball: where it is, how fast it flies, and how large it is.
#[derive(Clone, Copy, Debug, PartialEq, Eq, Structural)]
pub struct Ball {
    pub position: Vec2,
    pub velocity: Vec2,
    pub size: Extent,
}

impl Ball {
    /// A ball's horizontal speed can be turned round: it is never the one
    /// value of `i64` that has no negative.
    pub open spec fn wf(self) -> bool {
        self.velocity.x > i64::MIN
    }

    pub open spec fn bounds(self) -> Aabb {
        Aabb::around(self.position, self.size)
    }

    /// The ball as it is served: at the center, flying in the starting
    /// direction at the standard speed.
    pub open spec fn served() -> Ball {
        Ball {
            position: Vec2 { x: BALL_START_X, y: BALL_START_Y },
            velocity: Vec2 {
                x: (BALL_START_DIRECTION_X * BALL_SPEED) as i64,
                y: (BALL_START_DIRECTION_Y * BALL_SPEED) as i64,
            },
            size: Extent { x: BALL_WIDTH, y: BALL_HEIGHT },
        }
    }

    /// The ball after flying for `dt` nanoseconds:
    /// `position + velocity * dt` on each axis.
    pub open spec fn advanced(self, dt: u64) -> Ball {
        Ball {
            position: Vec2 {
                x: displaced(self.position.x, self.velocity.x, dt),
                y: displaced(self.position.y, self.velocity.y, dt),
            },
            velocity: self.velocity,
            size: self.size,
        }
    }

    /// The ball with its horizontal speed turned round.
    pub open spec fn reflected(self) -> Ball {
        Ball {
            position: self.position,
            velocity: Vec2 { x: (-self.velocity.x) as i64, y: self.velocity.y },
            size: self.size,
        }
    }

    /// The ball after bouncing off `hits` paddles in one tick: each bounce
    /// turns the horizontal speed round, so an even number leaves it as it
    /// was.
    pub open spec fn bounced(self, hits: nat) -> Ball {
        if hits % 2 == 1 {
            self.reflected()
        } else {
            self
        }
    }

    /// A ball of the standard size at `position` with the given velocity.
    pub fn new(position: Vec2, velocity: Vec2) -> (b: Ball)
        requires
            velocity.x > i64::MIN,
        ensures
            b == (Ball { position, velocity, size: Extent { x: BALL_WIDTH, y: BALL_HEIGHT } }),
            b.wf(),
    {
        Ball { position, velocity, size: Extent { x: BALL_WIDTH, y: BALL_HEIGHT } }
    }

    pub fn serve() -> (b: Ball)
        ensures
            b == Ball::served(),
            b.wf(),
    {
        Ball {
            position: Vec2 { x: BALL_START_X, y: BALL_START_Y },
            velocity: Vec2 {
                x: BALL_START_DIRECTION_X * BALL_SPEED,
                y: BALL_START_DIRECTION_Y * BALL_SPEED,
            },
            size: Extent { x: BALL_WIDTH, y: BALL_HEIGHT },
        }
    }

    pub fn aabb(&self) -> (b: Aabb)
        ensures
            b == self.bounds(),
    {
        Aabb::from_position_size(self.position, self.size)
    }

    /// Moves the ball by its velocity over `dt` nanoseconds.
    pub fn integrate(&mut self, dt: u64)
        ensures
            *final(self) == old(self).advanced(dt),
            old(self).wf() ==> final(self).wf(),
    {
        self.position = Vec2 {
            x: advance(self.position.x, self.velocity.x, dt),
            y: advance(self.position.y, self.velocity.y, dt),
        };
    }

    /// Turns the ball's horizontal speed round.
    pub fn reflect(&mut self)
        requires
            old(self).wf(),
        ensures
            *final(self) == old(self).reflected(),
            final(self).wf(),
    {
        self.velocity = Vec2 { x: -self.velocity.x, y: self.velocity.y };
    }
}

} // verus!
