//! Plain two-dimensional integer vectors, used for positions and velocities.

use vstd::prelude::*;

verus! {

/// Coordinates and velocity components are kept within this range so that
/// every sum and squared distance the simulation computes fits in an `i64`.
pub const COORD_LIMIT: i64 = 500_000_000;

/// Screen dimensions are sampled live each frame and must stay within this
/// range for the wrap-around arithmetic to be exact.
pub const DIM_LIMIT: i64 = 100_000_000;

/// A point or displacement on the playing field.
#[derive(Clone, Copy, PartialEq, Eq, Structural, Debug)]
pub struct Vec2 {
    pub x: i64,
    pub y: i64,
}

pub open spec fn coord_ok(c: int) -> bool {
    -COORD_LIMIT <= c <= COORD_LIMIT
}

pub open spec fn vec_ok(v: Vec2) -> bool {
    coord_ok(v.x as int) && coord_ok(v.y as int)
}

pub open spec fn dim_ok(d: int) -> bool {
    0 <= d <= DIM_LIMIT
}

/// Component-wise sum of two vectors, as a mathematical value.
pub open spec fn spec_add(a: Vec2, b: Vec2) -> Vec2 {
    Vec2 { x: (a.x + b.x) as i64, y: (a.y + b.y) as i64 }
}

impl Vec2 {
    pub fn new(x: i64, y: i64) -> (v: Vec2)
        ensures
            v.x == x,
            v.y == y,
    {
        Vec2 { x, y }
    }

    /// Component-wise sum; the bounds keep the additions exact.
    pub fn plus(self, other: Vec2) -> (v: Vec2)
        requires
            vec_ok(self),
            vec_ok(other),
        ensures
            v == spec_add(self, other),
    {
        Vec2 { x: self.x + other.x, y: self.y + other.y }
    }
}

} // verus!
