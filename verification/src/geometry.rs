//! Integer 2D positions and the bounds that keep the arithmetic of the
//! simulation free of overflow.

use vstd::prelude::*;

verus! {

/// Coordinates are kept well inside `i64`, so that sums and differences of
/// positions, sizes and per-tick displacements never overflow.
pub const COORD_BOUND: i64 = 1_000_000_000_000;

/// Sizes (widths and heights) of collidable objects stay below this bound.
pub const DIM_BOUND: i64 = 1_000_000_000;

/// A single tick covers at most this many milliseconds.
pub const MAX_TICK_MS: u64 = 1_000_000;

/// The accumulated game clock stays below this many milliseconds, so that
/// timestamp arithmetic never overflows.
pub const MAX_TIME_MS: u64 = 1_000_000_000_000_000;

/// A 2D position in play-area units.
#[derive(Clone, Copy, PartialEq, Eq, Structural, Debug)]
pub struct Translation {
    pub x: i64,
    pub y: i64,
}

/// The position lies within the range the simulation's arithmetic assumes.
pub open spec fn translation_bounded(t: Translation) -> bool {
    &&& -COORD_BOUND <= t.x <= COORD_BOUND
    &&& -COORD_BOUND <= t.y <= COORD_BOUND
}

/// A width/height pair lies within the range the simulation's arithmetic
/// assumes.
pub open spec fn dimension_bounded(w: int, h: int) -> bool {
    &&& 0 <= w <= DIM_BOUND
    &&& 0 <= h <= DIM_BOUND
}

/// Absolute value of the difference of two bounded coordinates.
pub open spec fn spec_abs_diff(a: int, b: int) -> int {
    if a >= b {
        a - b
    } else {
        b - a
    }
}

/// Absolute difference of two coordinates.
pub fn abs_diff(a: i64, b: i64) -> (r: i64)
    requires
        -COORD_BOUND <= a <= COORD_BOUND,
        -COORD_BOUND <= b <= COORD_BOUND,
    ensures
        r == spec_abs_diff(a as int, b as int),
{
    if a >= b {
        a - b
    } else {
        b - a
    }
}

} // verus!
