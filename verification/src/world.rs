//! The whole simulation state and the per-frame drive.
//!
//! A [`World`] owns the two paddles and the ball, and [`World::advance`]
//! runs one frame in the fixed order the simulation is defined by: input
//! response (both paddles), kinematic integration, collision resolution.
//! The ball is optional; a frame without a ball moves the paddles and is
//! otherwise a no-op.
//!
//! [`World::advance_with`] is the same frame with the two possible
//! vertical-velocity redraws supplied by the caller, which makes the
//! whole frame deterministic; [`World::advance`] draws them from the
//! thread-local random number generator.

use vstd::prelude::*;
use crate::arena::{BOUNCE_SPEED_LIMIT, DT_LIMIT_MS, SERVE_SPEED, PADDLE_Y_LIMIT, POS_LIMIT};
use crate::ball::{integrated, Ball, BallState};
use crate::collide::resolved;
use crate::input::{InputState, Key};
use crate::paddle::{paddle_moved_y, Paddle};
use crate::rng::random_in;

verus! {

/// Horizontal centre of the left paddle at startup (milliunits).
pub const LEFT_PADDLE_X: i64 = -300_000;

/// Horizontal centre of the right paddle at startup (milliunits).
pub const RIGHT_PADDLE_X: i64 = 300_000;

/// The full simulation state: two paddles and, usually, a ball.
#[derive(Clone, Copy, Debug)]
pub struct World {
    /// The left player's paddle, bound to the first player's keys.
    pub left: Paddle,
    /// The right player's paddle, bound to the second player's keys.
    pub right: Paddle,
    /// The single ball, absent only in a degenerate, not-yet-served
    /// state, which every frame treats as a silent no-op.
    pub ball: Option<Ball>,
}

/// A ball state carried through one whole frame: integrated over `dt`
/// milliseconds, then passed through the resolver against paddles at
/// `(lx, ly)` and `(rx, ry)` with redraw values `r1` and `r2`.
pub open spec fn ball_frame(
    b: BallState,
    dt: int,
    lx: int,
    ly: int,
    rx: int,
    ry: int,
    r1: int,
    r2: int,
) -> BallState {
    resolved(integrated(b, dt), lx, ly, rx, ry, r1, r2)
}

impl World {
    /// Both paddles well-formed, and the ball too if present.
    pub open spec fn wf(self) -> bool {
        &&& self.left.wf()
        &&& self.right.wf()
        &&& (self.ball matches Some(b) ==> b.wf())
    }

    /// The startup state: paddles at `x = -300` and `x = +300` units,
    /// centred vertically, bound to the first and second player's keys;
    /// the ball served from the origin at [`SERVE_SPEED`] units per
    /// second towards the right.
    pub fn new() -> (r: World)
        ensures
            r.wf(),
            r.left == (Paddle {
                x: LEFT_PADDLE_X,
                y: 0i64,
                up_key: Key::P1Up,
                down_key: Key::P1Down,
            }),
            r.right == (Paddle {
                x: RIGHT_PADDLE_X,
                y: 0i64,
                up_key: Key::P2Up,
                down_key: Key::P2Down,
            }),
            r.ball == Some(Ball { x: 0i64, y: 0i64, vx: SERVE_SPEED, vy: 0i64 }),
    {
        World {
            left: Paddle::new(LEFT_PADDLE_X, 0, Key::P1Up, Key::P1Down),
            right: Paddle::new(RIGHT_PADDLE_X, 0, Key::P2Up, Key::P2Down),
            ball: Some(Ball::new()),
        }
    }

    /// One deterministic frame: input response for both paddles, then
    /// integration and collision resolution for the ball, with the two
    /// possible vertical-velocity redraws supplied as `draw_a` and
    /// `draw_b` (consumed in hit order, `draw_a` first). The paddles
    /// move exactly by their key response; the ball, if present, goes
    /// through [`ball_frame`] against the already-moved paddles.
    pub fn advance_with(&mut self, dt: i64, input: &InputState, draw_a: i64, draw_b: i64)
        requires
            old(self).wf(),
            0 <= dt <= DT_LIMIT_MS,
            -BOUNCE_SPEED_LIMIT <= draw_a < BOUNCE_SPEED_LIMIT,
            -BOUNCE_SPEED_LIMIT <= draw_b < BOUNCE_SPEED_LIMIT,
        ensures
            final(self).wf(),
            final(self).left.y == paddle_moved_y(
                old(self).left.y as int,
                dt as int,
                input.spec_pressed(old(self).left.up_key),
                input.spec_pressed(old(self).left.down_key),
            ),
            final(self).right.y == paddle_moved_y(
                old(self).right.y as int,
                dt as int,
                input.spec_pressed(old(self).right.up_key),
                input.spec_pressed(old(self).right.down_key),
            ),
            final(self).left.x == old(self).left.x,
            final(self).right.x == old(self).right.x,
            final(self).left.up_key == old(self).left.up_key,
            final(self).left.down_key == old(self).left.down_key,
            final(self).right.up_key == old(self).right.up_key,
            final(self).right.down_key == old(self).right.down_key,
            old(self).ball is None ==> final(self).ball is None,
            old(self).ball matches Some(b) ==> final(self).ball matches Some(nb) && nb@
                == ball_frame(
                b@,
                dt as int,
                final(self).left.x as int,
                final(self).left.y as int,
                final(self).right.x as int,
                final(self).right.y as int,
                draw_a as int,
                draw_b as int,
            ),
    {
        self.left.step(dt, input);
        self.right.step(dt, input);
        match &mut self.ball {
            Some(b) => {
                b.integrate(dt);
                b.resolve(&self.left, &self.right, draw_a, draw_b);
            },
            None => {},
        }
    }

    /// One frame as the external driver calls it: like
    /// [`World::advance_with`], with the redraw values drawn uniformly
    /// from `[-BOUNCE_SPEED_LIMIT, BOUNCE_SPEED_LIMIT)`. Everything but
    /// the drawn values is fixed by the contract: the frame equals
    /// [`World::advance_with`] for some pair of values in that range.
    pub fn advance(&mut self, dt: i64, input: &InputState)
        requires
            old(self).wf(),
            0 <= dt <= DT_LIMIT_MS,
        ensures
            final(self).wf(),
            final(self).left.y == paddle_moved_y(
                old(self).left.y as int,
                dt as int,
                input.spec_pressed(old(self).left.up_key),
                input.spec_pressed(old(self).left.down_key),
            ),
            final(self).right.y == paddle_moved_y(
                old(self).right.y as int,
                dt as int,
                input.spec_pressed(old(self).right.up_key),
                input.spec_pressed(old(self).right.down_key),
            ),
            final(self).left.x == old(self).left.x,
            final(self).right.x == old(self).right.x,
            final(self).left.up_key == old(self).left.up_key,
            final(self).left.down_key == old(self).left.down_key,
            final(self).right.up_key == old(self).right.up_key,
            final(self).right.down_key == old(self).right.down_key,
            old(self).ball is None ==> final(self).ball is None,
            old(self).ball matches Some(b) ==> final(self).ball matches Some(nb)
                && (exists|ra: int, rb: int|
                -BOUNCE_SPEED_LIMIT <= ra < BOUNCE_SPEED_LIMIT && -BOUNCE_SPEED_LIMIT <= rb
                    < BOUNCE_SPEED_LIMIT && nb@ == ball_frame(
                    b@,
                    dt as int,
                    final(self).left.x as int,
                    final(self).left.y as int,
                    final(self).right.x as int,
                    final(self).right.y as int,
                    ra,
                    rb,
                )),
    {
        let draw_a = random_in(-BOUNCE_SPEED_LIMIT, BOUNCE_SPEED_LIMIT);
        let draw_b = random_in(-BOUNCE_SPEED_LIMIT, BOUNCE_SPEED_LIMIT);
        self.advance_with(dt, input, draw_a, draw_b);
    }
}

} // verus!
