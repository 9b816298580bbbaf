//! The ball and its kinematic integration.
//!
//! The ball carries a position in milliunits and a velocity in units per
//! second. One unit per second is one milliunit per millisecond, so over
//! `dt` milliseconds each coordinate advances by exactly `velocity * dt`
//! milliunits. To keep integration total, a coordinate that would pass
//! [`POS_LIMIT`] saturates there instead; the bound lies far beyond the
//! arena, so the clamp never binds during ordinary play.

use vstd::prelude::*;
use crate::arena::{clamp_i64, clamp_val, POS_LIMIT, VEL_LIMIT, DT_LIMIT_MS, SERVE_SPEED};

verus! {

/// The mathematical value of a [`Ball`]: its coordinates and velocity
/// components as unbounded integers.
pub struct BallState {
    /// Horizontal position (milliunits).
    pub x: int,
    /// Vertical position (milliunits).
    pub y: int,
    /// Horizontal velocity (units per second).
    pub vx: int,
    /// Vertical velocity (units per second).
    pub vy: int,
}

/// The single ball: centre position in milliunits, velocity in units per
/// second.
#[derive(Clone, Copy, Debug)]
pub struct Ball {
    /// Horizontal position (milliunits).
    pub x: i64,
    /// Vertical position (milliunits).
    pub y: i64,
    /// Horizontal velocity (units per second).
    pub vx: i64,
    /// Vertical velocity (units per second).
    pub vy: i64,
}

impl View for Ball {
    type V = BallState;

    open spec fn view(&self) -> BallState {
        BallState { x: self.x as int, y: self.y as int, vx: self.vx as int, vy: self.vy as int }
    }
}

/// A coordinate at `p` with velocity `v` after `dt` milliseconds:
/// advanced by `v * dt` milliunits and saturated at the position bound.
pub open spec fn moved_coord(p: int, v: int, dt: int) -> int {
    clamp_val(p + v * dt, -POS_LIMIT as int, POS_LIMIT as int)
}

/// A ball state after `dt` milliseconds of free flight: both coordinates
/// advance under the current velocity, the velocity itself is unchanged.
pub open spec fn integrated(b: BallState, dt: int) -> BallState {
    BallState {
        x: moved_coord(b.x, b.vx, dt),
        y: moved_coord(b.y, b.vy, dt),
        vx: b.vx,
        vy: b.vy,
    }
}

impl Ball {
    /// Position within the saturation bound and velocity within the
    /// velocity bound, on both axes.
    pub open spec fn wf(self) -> bool {
        &&& -POS_LIMIT <= self.x <= POS_LIMIT
        &&& -POS_LIMIT <= self.y <= POS_LIMIT
        &&& -VEL_LIMIT <= self.vx <= VEL_LIMIT
        &&& -VEL_LIMIT <= self.vy <= VEL_LIMIT
    }

    /// The ball as served at startup: centred at the origin, moving
    /// horizontally at [`SERVE_SPEED`] units per second.
    pub fn new() -> (r: Ball)
        ensures
            r == (Ball { x: 0i64, y: 0i64, vx: SERVE_SPEED, vy: 0i64 }),
            r.wf(),
    {
        Ball { x: 0, y: 0, vx: SERVE_SPEED, vy: 0 }
    }

    /// A ball in an arbitrary well-formed state.
    pub fn with_state(x: i64, y: i64, vx: i64, vy: i64) -> (r: Ball)
        requires
            -POS_LIMIT <= x <= POS_LIMIT,
            -POS_LIMIT <= y <= POS_LIMIT,
            -VEL_LIMIT <= vx <= VEL_LIMIT,
            -VEL_LIMIT <= vy <= VEL_LIMIT,
        ensures
            r == (Ball { x, y, vx, vy }),
            r.wf(),
    {
        Ball { x, y, vx, vy }
    }

    /// One frame of kinematic integration: `position += velocity * dt`,
    /// per axis, saturating at the position bound. No collision
    /// awareness; the velocity is untouched.
    pub fn integrate(&mut self, dt: i64)
        requires
            old(self).wf(),
            0 <= dt <= DT_LIMIT_MS,
        ensures
            final(self).wf(),
            final(self)@ == integrated(old(self)@, dt as int),
    {
        proof {
            let v = self.vx as int;
            let w = self.vy as int;
            let d = dt as int;
            assert(-(VEL_LIMIT * DT_LIMIT_MS) <= v * d <= VEL_LIMIT * DT_LIMIT_MS
                && -(VEL_LIMIT * DT_LIMIT_MS) <= w * d <= VEL_LIMIT * DT_LIMIT_MS)
                by (nonlinear_arith)
                requires
                    -VEL_LIMIT <= v <= VEL_LIMIT,
                    -VEL_LIMIT <= w <= VEL_LIMIT,
                    0 <= d <= DT_LIMIT_MS,
            ;
        }
        self.x = clamp_i64(self.x + self.vx * dt, -POS_LIMIT, POS_LIMIT);
        self.y = clamp_i64(self.y + self.vy * dt, -POS_LIMIT, POS_LIMIT);
    }
}

} // verus!
