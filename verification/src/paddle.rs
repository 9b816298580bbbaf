//! Paddles and their response to key input.
//!
//! A paddle sits at a fixed horizontal position and moves vertically at
//! [`PADDLE_SPEED`] units per second while its up or down key is held,
//! clamped so its body stays between the walls.

use vstd::prelude::*;
use crate::arena::{clamp_i64, clamp_val, PADDLE_SPEED, PADDLE_Y_LIMIT, POS_LIMIT, DT_LIMIT_MS};
use crate::input::{InputState, Key};

verus! {

/// A player-controlled paddle: a centre position in milliunits and the
/// two keys bound to it.
#[derive(Clone, Copy, Debug)]
pub struct Paddle {
    /// Horizontal centre, fixed after construction (milliunits).
    pub x: i64,
    /// Vertical centre (milliunits).
    pub y: i64,
    /// Key that moves this paddle up.
    pub up_key: Key,
    /// Key that moves this paddle down.
    pub down_key: Key,
}

/// Where a paddle centred at `y` ends up after `dt` milliseconds with the
/// given keys held: each held key contributes a full `PADDLE_SPEED * dt`
/// displacement (so both at once cancel exactly), and the result is
/// clamped into `[-PADDLE_Y_LIMIT, PADDLE_Y_LIMIT]`.
pub open spec fn paddle_moved_y(y: int, dt: int, up: bool, down: bool) -> int {
    let raised = if up {
        y + PADDLE_SPEED * dt
    } else {
        y
    };
    let moved = if down {
        raised - PADDLE_SPEED * dt
    } else {
        raised
    };
    clamp_val(moved, -PADDLE_Y_LIMIT as int, PADDLE_Y_LIMIT as int)
}

impl Paddle {
    /// The paddle is inside the arena: its centre within the vertical
    /// clamp band and its horizontal position within the saturation bound.
    pub open spec fn wf(self) -> bool {
        &&& -POS_LIMIT <= self.x <= POS_LIMIT
        &&& -PADDLE_Y_LIMIT <= self.y <= PADDLE_Y_LIMIT
    }

    /// A paddle at `(x, y)` bound to the two given keys.
    pub fn new(x: i64, y: i64, up_key: Key, down_key: Key) -> (r: Paddle)
        requires
            -POS_LIMIT <= x <= POS_LIMIT,
            -PADDLE_Y_LIMIT <= y <= PADDLE_Y_LIMIT,
        ensures
            r == (Paddle { x, y, up_key, down_key }),
            r.wf(),
    {
        Paddle { x, y, up_key, down_key }
    }

    /// One frame of input response: move up while the up key is held and
    /// down while the down key is held, then clamp into the arena. The
    /// horizontal position and the key bindings never change.
    pub fn step(&mut self, dt: i64, input: &InputState)
        requires
            old(self).wf(),
            0 <= dt <= DT_LIMIT_MS,
        ensures
            final(self).wf(),
            final(self).y == paddle_moved_y(
                old(self).y as int,
                dt as int,
                input.spec_pressed(old(self).up_key),
                input.spec_pressed(old(self).down_key),
            ),
            final(self).x == old(self).x,
            final(self).up_key == old(self).up_key,
            final(self).down_key == old(self).down_key,
    {
        let mut y = self.y;
        if input.is_pressed(self.up_key) {
            y = y + PADDLE_SPEED * dt;
        }
        if input.is_pressed(self.down_key) {
            y = y - PADDLE_SPEED * dt;
        }
        self.y = clamp_i64(y, -PADDLE_Y_LIMIT, PADDLE_Y_LIMIT);
    }
}

/// With only the up key held, a frame moves the paddle up by exactly
/// `PADDLE_SPEED * dt`, clamped into the arena band.
pub proof fn lemma_step_up_only(y: int, dt: int)
    requires
        0 <= dt,
    ensures
        paddle_moved_y(y, dt, true, false) == clamp_val(
            y + PADDLE_SPEED * dt,
            -PADDLE_Y_LIMIT as int,
            PADDLE_Y_LIMIT as int,
        ),
{
}

/// With both keys held at once the displacements cancel exactly: the
/// frame only clamps the previous position into the arena band.
pub proof fn lemma_step_both_keys(y: int, dt: int)
    requires
        0 <= dt,
    ensures
        paddle_moved_y(y, dt, true, true) == clamp_val(
            y,
            -PADDLE_Y_LIMIT as int,
            PADDLE_Y_LIMIT as int,
        ),
{
}

} // verus!
