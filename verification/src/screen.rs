//! The wrap-around and bounds rules that tie entity positions to the
//! viewport, sampled live each frame.

use vstd::prelude::*;
use crate::vec2::Vec2;

verus! {

/// Correction applied to a single axis coordinate after a move.
///
/// A negative coordinate re-reflects past the far edge using the original
/// negative value (`max - coord`, deliberately not `max + coord`); a
/// coordinate beyond `max` comes back by `coord - max`; an in-range
/// coordinate is left alone.
pub open spec fn spec_bound_to(coord: int, max: int) -> int {
    if coord < 0 {
        max - coord
    } else if coord > max {
        coord - max
    } else {
        coord
    }
}

/// Wrap correction applied to both axes of a position.
pub open spec fn spec_bound_pos(pos: Vec2, width: int, height: int) -> Vec2 {
    Vec2 {
        x: spec_bound_to(pos.x as int, width) as i64,
        y: spec_bound_to(pos.y as int, height) as i64,
    }
}

/// Whether a position lies inside the viewport `[0, width] x [0, height]`.
pub open spec fn spec_in_bounds(pos: Vec2, width: int, height: int) -> bool {
    0 <= pos.x <= width && 0 <= pos.y <= height
}

} // verus!
