//! The two score counters.

use vstd::prelude::*;

verus! {

/// A side of the playfield.
#[derive(Clone, Copy, Debug, PartialEq, Eq, Structural)]
pub enum Side {
    Left,
    Right,
}

/// The points counted on each side. The counters only ever go up.
#[derive(Clone, Copy, Debug, PartialEq, Eq, Structural)]
pub struct Score {
    pub left: usize,
    pub right: usize,
}

impl Score {
    /// The counter that belongs to `side`.
    pub open spec fn of(self, side: Side) -> usize {
        match side {
            Side::Left => self.left,
            Side::Right => self.right,
        }
    }

    /// The score after one more point on `side`.
    pub open spec fn awarded(self, side: Side) -> Score
        recommends
            self.of(side) < usize::MAX,
    {
        match side {
            Side::Left => Score { left: (self.left + 1) as usize, right: self.right },
            Side::Right => Score { left: self.left, right: (self.right + 1) as usize },
        }
    }

    /// Both counters at zero.
    pub fn new() -> (s: Score)
        ensures
            s == (Score { left: 0, right: 0 }),
    {
        Score { left: 0, right: 0 }
    }

    pub fn count(&self, side: Side) -> (n: usize)
        ensures
            n == self.of(side),
    {
        match side {
            Side::Left => self.left,
            Side::Right => self.right,
        }
    }

    /// Counts one point on `side` and leaves the other side alone.
    pub fn award(&mut self, side: Side)
        requires
            old(self).of(side) < usize::MAX,
        ensures
            *final(self) == old(self).awarded(side),
            final(self).of(side) == old(self).of(side) + 1,
    {
        match side {
            Side::Left => {
                self.left = self.left + 1;
            },
            Side::Right => {
                self.right = self.right + 1;
            },
        }
    }
}

} // verus!
