//! Arena geometry and the numeric bounds of the simulation.
//!
//! Every length in this module is in milliunits (one thousandth of an
//! arena unit). The arena is 700 x 500 units, so the walls sit at
//! `y = +/-250` units and the side boundaries at `x = +/-350` units.

use vstd::prelude::*;

verus! {

/// Half the arena width: the side boundary sits at `x = +/-350` units.
pub const ARENA_HALF_WIDTH: i64 = 350_000;

/// Half the arena height: the walls sit at `y = +/-250` units.
pub const ARENA_HALF_HEIGHT: i64 = 250_000;

/// Half the ball's 25-unit diameter, on both axes.
pub const BALL_HALF_EXTENT: i64 = 12_500;

/// Half the paddle's 10-unit width.
pub const PADDLE_HALF_WIDTH: i64 = 5_000;

/// Half the paddle's 150-unit height.
pub const PADDLE_HALF_HEIGHT: i64 = 75_000;

/// A paddle centre stays within `+/-175` units, so the paddle body stays
/// inside the walls.
pub const PADDLE_Y_LIMIT: i64 = ARENA_HALF_HEIGHT - PADDLE_HALF_HEIGHT;

/// Paddle speed while a key is held: 200 units per second.
pub const PADDLE_SPEED: i64 = 200;

/// The ball is served with this horizontal speed, in units per second.
pub const SERVE_SPEED: i64 = 250;

/// A paddle bounce redraws the vertical velocity uniformly from
/// `[-BOUNCE_SPEED_LIMIT, BOUNCE_SPEED_LIMIT)` units per second.
pub const BOUNCE_SPEED_LIMIT: i64 = 250;

/// Positions saturate at this magnitude (a billion arena units), far
/// beyond the arena, so that integration is total: once a coordinate
/// would pass it, it is held there instead of overflowing.
pub const POS_LIMIT: i64 = 1_000_000_000_000;

/// Velocities never exceed this magnitude (a million units per second):
/// collisions only flip signs or redraw within the bounce range, so the
/// bound is preserved by every frame.
pub const VEL_LIMIT: i64 = 1_000_000;

/// Largest accepted frame time: a million milliseconds, about a quarter
/// of an hour. Keeps `velocity * dt` comfortably inside `i64`.
pub const DT_LIMIT_MS: i64 = 1_000_000;

/// `v` forced into `[lo, hi]`.
pub open spec fn clamp_val(v: int, lo: int, hi: int) -> int {
    if v < lo {
        lo
    } else if v > hi {
        hi
    } else {
        v
    }
}

/// Executable counterpart of [`clamp_val`].
pub fn clamp_i64(v: i64, lo: i64, hi: i64) -> (r: i64)
    requires
        lo <= hi,
    ensures
        r == clamp_val(v as int, lo as int, hi as int),
{
    if v < lo {
        lo
    } else if v > hi {
        hi
    } else {
        v
    }
}

} // verus!
