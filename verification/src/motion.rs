//! Moving a coordinate by a velocity over one tick.

use vstd::prelude::*;

verus! {

/// `v`, held to the range of a coordinate.
pub open spec fn saturate(v: int) -> i64 {
    if v < i64::MIN {
        i64::MIN
    } else if v > i64::MAX {
        i64::MAX
    } else {
        v as i64
    }
}

/// Where a coordinate stands after moving at `velocity` units per nanosecond
/// for `dt` nanoseconds. A coordinate that would leave the range of `i64`
/// stops at its end.
pub open spec fn displaced(position: i64, velocity: i64, dt: u64) -> i64 {
    saturate(position + velocity * dt)
}

proof fn lemma_product_bounds(velocity: i64, dt: u64)
    ensures
        -0x8000_0000_0000_0000 * 0xffff_ffff_ffff_ffff <= velocity * dt,
        velocity * dt <= 0x7fff_ffff_ffff_ffff * 0xffff_ffff_ffff_ffff,
{
    assert(-0x8000_0000_0000_0000 * 0xffff_ffff_ffff_ffff <= velocity * dt) by (nonlinear_arith)
        requires
            -0x8000_0000_0000_0000 <= velocity,
            0 <= dt <= 0xffff_ffff_ffff_ffff,
    ;
    assert(velocity * dt <= 0x7fff_ffff_ffff_ffff * 0xffff_ffff_ffff_ffff) by (nonlinear_arith)
        requires
            velocity <= 0x7fff_ffff_ffff_ffff,
            0 <= dt <= 0xffff_ffff_ffff_ffff,
    ;
}

/// Moves one coordinate: `position + velocity * dt`, held to the range of
/// `i64`.
pub fn advance(position: i64, velocity: i64, dt: u64) -> (moved: i64)
    ensures
        moved == displaced(position, velocity, dt),
{
    proof {
        lemma_product_bounds(velocity, dt);
    }
    let step: i128 = (velocity as i128) * (dt as i128);
    let target: i128 = position as i128 + step;
    if target < i64::MIN as i128 {
        i64::MIN
    } else if target > i64::MAX as i128 {
        i64::MAX
    } else {
        target as i64
    }
}

/// `v` between `low` and `high`.
pub open spec fn clamped(v: int, low: int, high: int) -> int
    recommends
        low <= high,
{
    if v < low {
        low
    } else if v > high {
        high
    } else {
        v
    }
}

/// Moves one coordinate and holds it between `low` and `high`:
/// `clamp(position + velocity * dt, low, high)`.
pub fn advance_clamped(position: i64, velocity: i64, dt: u64, low: i64, high: i64) -> (moved: i64)
    requires
        low <= high,
    ensures
        moved == clamped(position + velocity * dt, low as int, high as int),
        low <= moved <= high,
{
    proof {
        lemma_product_bounds(velocity, dt);
    }
    let step: i128 = (velocity as i128) * (dt as i128);
    let target: i128 = position as i128 + step;
    if target < low as i128 {
        low
    } else if target > high as i128 {
        high
    } else {
        target as i64
    }
}

} // verus!
