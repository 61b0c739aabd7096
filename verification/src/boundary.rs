//! The playable rectangle, computed once from the window size.

use vstd::prelude::*;
use crate::geometry::Translation;

verus! {

/// Width of the player sprite in play-area units.
pub const CHARACTER_WIDTH: i64 = 70;

/// Height of the player sprite in play-area units.
pub const CHARACTER_HEIGHT: i64 = 84;

/// Width of the play area: seven player widths.
pub const WINDOW_WIDTH: i64 = 490;

/// Height of the play area: nine player widths.
pub const WINDOW_HEIGHT: i64 = 630;

/// Boundary coordinates stay well below the general coordinate bound, so
/// that a position just outside the rectangle is still a bounded coordinate.
pub const BOUNDARY_COORD_BOUND: i64 = 500_000_000_000;

/// The playable rectangle, centered on the window, with its midpoints.
#[derive(Clone, Copy, PartialEq, Eq, Structural, Debug)]
pub struct GameBonudary {
    pub x_min: i64,
    pub x_max: i64,
    pub y_min: i64,
    pub y_max: i64,
    pub x_mid: i64,
    pub y_mid: i64,
}

impl GameBonudary {
    /// The rectangle is non-empty and its coordinates stay within the range
    /// the simulation's arithmetic assumes.
    pub open spec fn wf(self) -> bool {
        &&& -BOUNDARY_COORD_BOUND <= self.x_min <= self.x_max <= BOUNDARY_COORD_BOUND
        &&& -BOUNDARY_COORD_BOUND <= self.y_min <= self.y_max <= BOUNDARY_COORD_BOUND
        &&& -BOUNDARY_COORD_BOUND <= self.x_mid <= BOUNDARY_COORD_BOUND
        &&& -BOUNDARY_COORD_BOUND <= self.y_mid <= BOUNDARY_COORD_BOUND
    }

    /// The position lies inside the rectangle on both axes.
    pub open spec fn contains(self, t: Translation) -> bool {
        &&& self.x_min <= t.x <= self.x_max
        &&& self.y_min <= t.y <= self.y_max
    }
}

/// Computes the playable rectangle from the window size: a fixed-size
/// rectangle of `WINDOW_WIDTH` by `WINDOW_HEIGHT` centered on the window.
/// The rectangle is computed once at startup; a later window resize is not
/// handled.
pub fn get_game_boundary(window_width: i64, window_height: i64) -> (b: GameBonudary)
    requires
        0 <= window_width <= 1_000_000_000,
        0 <= window_height <= 1_000_000_000,
    ensures
        b.x_mid == window_width / 2,
        b.y_mid == window_height / 2,
        b.x_min == b.x_mid - WINDOW_WIDTH / 2,
        b.x_max == b.x_mid + WINDOW_WIDTH / 2,
        b.y_min == b.y_mid - WINDOW_HEIGHT / 2,
        b.y_max == b.y_mid + WINDOW_HEIGHT / 2,
        b.wf(),
        b.x_max - b.x_min == WINDOW_WIDTH,
        b.y_max - b.y_min == WINDOW_HEIGHT,
{
    let x_mid: i64 = window_width / 2;
    let y_mid: i64 = window_height / 2;
    let x_min: i64 = x_mid - WINDOW_WIDTH / 2;
    let x_max: i64 = x_mid + WINDOW_WIDTH / 2;
    let y_min: i64 = y_mid - WINDOW_HEIGHT / 2;
    let y_max: i64 = y_mid + WINDOW_HEIGHT / 2;
    GameBonudary { x_max, x_min, y_max, y_min, x_mid, y_mid }
}

} // verus!
