//! Points, sizes and axis-aligned boxes.

use vstd::prelude::*;

verus! {

/// A point or a displacement, in world units.
#[derive(Clone, Copy, Debug, PartialEq, Eq, Structural)]
pub struct Vec2 {
    pub x: i64,
    pub y: i64,
}

impl Vec2 {
    pub fn new(x: i64, y: i64) -> (v: Vec2)
        ensures
            v == (Vec2 { x, y }),
    {
        Vec2 { x, y }
    }
}

/// A width and a height, in world units. Neither can be negative.
#[derive(Clone, Copy, Debug, PartialEq, Eq, Structural)]
pub struct Extent {
    pub x: u64,
    pub y: u64,
}

impl Extent {
    /// Half of each dimension, rounded down.
    pub open spec fn halved(self) -> Extent {
        Extent { x: self.x / 2, y: self.y / 2 }
    }

    pub fn new(x: u64, y: u64) -> (e: Extent)
        ensures
            e == (Extent { x, y }),
    {
        Extent { x, y }
    }

    pub fn half(self) -> (h: Extent)
        ensures
            h == self.halved(),
    {
        Extent { x: self.x / 2, y: self.y / 2 }
    }
}

/// An axis-aligned box, given by its center and its half-extents.
#[derive(Clone, Copy, Debug, PartialEq, Eq, Structural)]
pub struct Aabb {
    pub center: Vec2,
    pub half_extents: Extent,
}

impl Aabb {
    pub open spec fn min_x(self) -> int {
        self.center.x - self.half_extents.x
    }

    pub open spec fn max_x(self) -> int {
        self.center.x + self.half_extents.x
    }

    pub open spec fn min_y(self) -> int {
        self.center.y - self.half_extents.y
    }

    pub open spec fn max_y(self) -> int {
        self.center.y + self.half_extents.y
    }

    /// A point lies in the box when it lies between the box's edges on both
    /// axes, the edges included.
    pub open spec fn contains(self, x: int, y: int) -> bool {
        self.min_x() <= x <= self.max_x() && self.min_y() <= y <= self.max_y()
    }

    /// Two boxes overlap when their closed intervals overlap on both axes.
    pub open spec fn overlaps(self, other: Aabb) -> bool {
        &&& self.min_x() <= other.max_x()
        &&& self.max_x() >= other.min_x()
        &&& self.min_y() <= other.max_y()
        &&& self.max_y() >= other.min_y()
    }

    pub fn new(center: Vec2, half_extents: Extent) -> (b: Aabb)
        ensures
            b == (Aabb { center, half_extents }),
    {
        Aabb { center, half_extents }
    }

    /// The box of something that sits at `position` and is `size` wide and
    /// high.
    pub open spec fn around(position: Vec2, size: Extent) -> Aabb {
        Aabb { center: position, half_extents: size.halved() }
    }

    pub fn from_position_size(position: Vec2, size: Extent) -> (b: Aabb)
        ensures
            b == Aabb::around(position, size),
    {
        Aabb { center: position, half_extents: size.half() }
    }

    /// Whether the two boxes overlap. Boxes that only touch along an edge or
    /// at a corner do overlap.
    pub fn intersects(&self, other: &Aabb) -> (hit: bool)
        ensures
            hit == self.overlaps(*other),
    {
        let a_min_x: i128 = self.center.x as i128 - self.half_extents.x as i128;
        let a_max_x: i128 = self.center.x as i128 + self.half_extents.x as i128;
        let a_min_y: i128 = self.center.y as i128 - self.half_extents.y as i128;
        let a_max_y: i128 = self.center.y as i128 + self.half_extents.y as i128;
        let b_min_x: i128 = other.center.x as i128 - other.half_extents.x as i128;
        let b_max_x: i128 = other.center.x as i128 + other.half_extents.x as i128;
        let b_min_y: i128 = other.center.y as i128 - other.half_extents.y as i128;
        let b_max_y: i128 = other.center.y as i128 + other.half_extents.y as i128;
        let x_overlaps = a_min_x <= b_max_x && a_max_x >= b_min_x;
        let y_overlaps = a_min_y <= b_max_y && a_max_y >= b_min_y;
        x_overlaps && y_overlaps
    }
}

/// Overlap does not depend on the order of the two boxes.
pub proof fn lemma_overlaps_symmetric(a: Aabb, b: Aabb)
    ensures
        a.overlaps(b) == b.overlaps(a),
{
}

/// Two boxes overlap exactly when some point lies in both.
pub proof fn lemma_overlaps_iff_common_point(a: Aabb, b: Aabb)
    ensures
        a.overlaps(b) <==> exists|x: int, y: int| a.contains(x, y) && #[trigger] b.contains(x, y),
{
    if a.overlaps(b) {
        let x = if a.min_x() >= b.min_x() { a.min_x() } else { b.min_x() };
        let y = if a.min_y() >= b.min_y() { a.min_y() } else { b.min_y() };
        assert(a.contains(x, y) && b.contains(x, y));
    }
}

} // verus!
