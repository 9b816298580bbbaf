//! Collision detection and response for the ball.
//!
//! Once per frame, after integration, the resolver applies three checks in
//! a fixed order: a wall bounce (vertical velocity flips while the ball
//! overlaps a wall), an out-of-bounds reset (position returns to the
//! centre, velocity untouched, once the ball leaves the field on either
//! side), and a paddle bounce per paddle (both velocity components flip,
//! then the vertical one is overwritten by a freshly drawn value).
//!
//! None of the checks corrects the position: the ball may visibly overlap
//! a wall or paddle for a frame before its velocity reacts. That matches
//! the behaviour this simulation is specified to have and is deliberate.

use vstd::prelude::*;
use crate::arena::{
    ARENA_HALF_HEIGHT, ARENA_HALF_WIDTH, BALL_HALF_EXTENT, BOUNCE_SPEED_LIMIT, PADDLE_HALF_HEIGHT,
    PADDLE_HALF_WIDTH,
};
use crate::ball::{Ball, BallState};
use crate::paddle::Paddle;

verus! {

/// A ball centred at height `y` overlaps the top or bottom wall.
pub open spec fn wall_overlap(y: int) -> bool {
    (if y >= 0 {
        y
    } else {
        -y
    }) + BALL_HALF_EXTENT > ARENA_HALF_HEIGHT
}

/// A ball centred at `x` has left the field past a side boundary.
pub open spec fn side_out(x: int) -> bool {
    (if x >= 0 {
        x
    } else {
        -x
    }) + BALL_HALF_EXTENT > ARENA_HALF_WIDTH
}

/// The ball's bounding box, centred at `(bx, by)` with half-extent
/// [`BALL_HALF_EXTENT`] on both axes, overlaps the box of a paddle
/// centred at `(px, py)`, with half-extents [`PADDLE_HALF_WIDTH`] and
/// [`PADDLE_HALF_HEIGHT`]. All four inequalities are strict: boxes that
/// merely touch do not collide.
pub open spec fn paddle_overlap(bx: int, by: int, px: int, py: int) -> bool {
    &&& bx - BALL_HALF_EXTENT < px + PADDLE_HALF_WIDTH
    &&& by - BALL_HALF_EXTENT < py + PADDLE_HALF_HEIGHT
    &&& bx + BALL_HALF_EXTENT > px - PADDLE_HALF_WIDTH
    &&& by + BALL_HALF_EXTENT > py - PADDLE_HALF_HEIGHT
}

/// The wall check: while the ball overlaps a wall, the vertical velocity
/// flips sign; magnitude and everything else are unchanged.
pub open spec fn wall_step(b: BallState) -> BallState {
    if wall_overlap(b.y) {
        BallState { vy: -b.vy, ..b }
    } else {
        b
    }
}

/// The out-of-bounds check: once the ball has left the field past a side
/// boundary, its position resets to the centre; the velocity is left
/// unchanged, so the ball resumes in whatever direction it was going.
pub open spec fn oob_step(b: BallState) -> BallState {
    if side_out(b.x) {
        BallState { x: 0, y: 0, ..b }
    } else {
        b
    }
}

/// The response to one paddle: if the ball overlaps the paddle's box,
/// both velocity components flip sign, and the vertical one is then
/// overwritten with the drawn value `r`; otherwise nothing changes.
pub open spec fn bounce_step(b: BallState, px: int, py: int, r: int) -> BallState {
    if paddle_overlap(b.x, b.y, px, py) {
        BallState { vx: -b.vx, vy: r, ..b }
    } else {
        b
    }
}

/// One full resolver pass: the wall check, then the out-of-bounds check,
/// then the paddle check against the left and the right paddle in turn.
/// `r1` and `r2` are the redraw values, consumed in hit order: the first
/// paddle hit of the frame uses `r1`, a second hit in the same frame uses
/// `r2`.
pub open spec fn resolved(
    b: BallState,
    lx: int,
    ly: int,
    rx: int,
    ry: int,
    r1: int,
    r2: int,
) -> BallState {
    let after_wall = wall_step(b);
    let after_oob = oob_step(after_wall);
    let left_hit = paddle_overlap(after_oob.x, after_oob.y, lx, ly);
    let after_left = bounce_step(after_oob, lx, ly, r1);
    let right_draw = if left_hit {
        r2
    } else {
        r1
    };
    bounce_step(after_left, rx, ry, right_draw)
}

impl Ball {
    /// Whether the ball's bounding box overlaps `paddle`'s.
    pub fn overlaps_paddle(&self, paddle: &Paddle) -> (r: bool)
        requires
            self.wf(),
            paddle.wf(),
        ensures
            r == paddle_overlap(self.x as int, self.y as int, paddle.x as int, paddle.y as int),
    {
        self.x - BALL_HALF_EXTENT < paddle.x + PADDLE_HALF_WIDTH
            && self.y - BALL_HALF_EXTENT < paddle.y + PADDLE_HALF_HEIGHT
            && self.x + BALL_HALF_EXTENT > paddle.x - PADDLE_HALF_WIDTH
            && self.y + BALL_HALF_EXTENT > paddle.y - PADDLE_HALF_HEIGHT
    }

    /// One resolver pass against the two paddles, with the redraw values
    /// `draw_a` and `draw_b` supplied by the caller (consumed in hit
    /// order, `draw_a` first).
    pub fn resolve(&mut self, left: &Paddle, right: &Paddle, draw_a: i64, draw_b: i64)
        requires
            old(self).wf(),
            left.wf(),
            right.wf(),
            -BOUNCE_SPEED_LIMIT <= draw_a < BOUNCE_SPEED_LIMIT,
            -BOUNCE_SPEED_LIMIT <= draw_b < BOUNCE_SPEED_LIMIT,
        ensures
            final(self).wf(),
            final(self)@ == resolved(
                old(self)@,
                left.x as int,
                left.y as int,
                right.x as int,
                right.y as int,
                draw_a as int,
                draw_b as int,
            ),
    {
        let abs_y = if self.y >= 0 {
            self.y
        } else {
            -self.y
        };
        if abs_y + BALL_HALF_EXTENT > ARENA_HALF_HEIGHT {
            self.vy = -self.vy;
        }

        let abs_x = if self.x >= 0 {
            self.x
        } else {
            -self.x
        };
        if abs_x + BALL_HALF_EXTENT > ARENA_HALF_WIDTH {
            self.x = 0;
            self.y = 0;
        }

        let mut first_draw_used = false;
        if self.overlaps_paddle(left) {
            self.vx = -self.vx;
            self.vy = draw_a;
            first_draw_used = true;
        }
        if self.overlaps_paddle(right) {
            self.vx = -self.vx;
            self.vy = if first_draw_used {
                draw_b
            } else {
                draw_a
            };
        }
    }
}

/// Two consecutive wall bounces cancel: if the ball satisfies the wall
/// overlap in one frame and again in the next, and nothing else touches
/// its vertical velocity in between, the second flip restores the
/// vertical velocity of the first frame.
pub proof fn lemma_wall_bounce_round_trip(a: BallState, b: BallState)
    requires
        wall_overlap(a.y),
        wall_overlap(b.y),
        b.vy == wall_step(a).vy,
    ensures
        wall_step(b).vy == a.vy,
{
}

/// Out-of-bounds reset: a ball past a side boundary (and clear of the
/// walls) comes out of the resolver at the centre with its velocity
/// exactly as it was, provided no paddle box covers the centre.
pub proof fn lemma_out_of_bounds_reset(
    b: BallState,
    lx: int,
    ly: int,
    rx: int,
    ry: int,
    r1: int,
    r2: int,
)
    requires
        side_out(b.x),
        !wall_overlap(b.y),
        !paddle_overlap(0, 0, lx, ly),
        !paddle_overlap(0, 0, rx, ry),
    ensures
        resolved(b, lx, ly, rx, ry, r1, r2) == (BallState { x: 0, y: 0, vx: b.vx, vy: b.vy }),
{
}

/// A paddle bounce always inverts both velocity components before the
/// vertical one is overwritten: after the bounce the horizontal velocity
/// is exactly the negation of what it was, and the vertical one is the
/// drawn value.
pub proof fn lemma_paddle_bounce_inverts(b: BallState, px: int, py: int, r: int)
    requires
        paddle_overlap(b.x, b.y, px, py),
    ensures
        bounce_step(b, px, py, r).vx == -b.vx,
        bounce_step(b, px, py, r).vy == r,
        bounce_step(b, px, py, r).x == b.x,
        bounce_step(b, px, py, r).y == b.y,
{
}

/// Over a whole resolver pass in which exactly one of the two paddles is
/// hit, the horizontal velocity comes out exactly negated and the
/// vertical one is the first drawn value. (The wall and out-of-bounds
/// checks never touch the horizontal velocity, and a bounce does not move
/// the ball, so both paddles are tested against the same position.)
pub proof fn lemma_single_hit_inverts_vx(
    b: BallState,
    lx: int,
    ly: int,
    rx: int,
    ry: int,
    r1: int,
    r2: int,
)
    requires
        ({
            let pos = oob_step(wall_step(b));
            paddle_overlap(pos.x, pos.y, lx, ly) != paddle_overlap(pos.x, pos.y, rx, ry)
        }),
    ensures
        resolved(b, lx, ly, rx, ry, r1, r2).vx == -b.vx,
        resolved(b, lx, ly, rx, ry, r1, r2).vy == r1,
{
}

} // verus!
