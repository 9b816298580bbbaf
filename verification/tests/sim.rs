use pong::arena::{clamp_i64, BOUNCE_SPEED_LIMIT, PADDLE_Y_LIMIT, SERVE_SPEED};
use pong::ball::Ball;
use pong::input::{InputState, Key};
use pong::paddle::Paddle;
use pong::world::{World, LEFT_PADDLE_X, RIGHT_PADDLE_X};

fn no_keys() -> InputState {
    InputState::released()
}

#[test]
fn clamp_inside_below_above() {
    assert_eq!(clamp_i64(5, -10, 10), 5);
    assert_eq!(clamp_i64(-11, -10, 10), -10);
    assert_eq!(clamp_i64(11, -10, 10), 10);
    assert_eq!(clamp_i64(-10, -10, 10), -10);
    assert_eq!(clamp_i64(10, -10, 10), 10);
}

#[test]
fn is_pressed_reads_each_key() {
    let s = InputState { p1_up: true, p1_down: false, p2_up: false, p2_down: true };
    assert!(s.is_pressed(Key::P1Up));
    assert!(!s.is_pressed(Key::P1Down));
    assert!(!s.is_pressed(Key::P2Up));
    assert!(s.is_pressed(Key::P2Down));
    let r = InputState::released();
    assert!(!r.is_pressed(Key::P1Up));
    assert!(!r.is_pressed(Key::P2Down));
}

#[test]
fn world_new_matches_startup_state() {
    let w = World::new();
    assert_eq!(w.left.x, LEFT_PADDLE_X);
    assert_eq!(w.left.y, 0);
    assert_eq!(w.right.x, RIGHT_PADDLE_X);
    assert_eq!(w.right.y, 0);
    let b = w.ball.unwrap();
    assert_eq!((b.x, b.y), (0, 0));
    assert_eq!((b.vx, b.vy), (SERVE_SPEED, 0));
}

#[test]
fn paddle_up_only_moves_by_speed_times_dt() {
    // 200 units/s for half a second: up by 100 units (100_000 milliunits).
    let mut p = Paddle::new(LEFT_PADDLE_X, 0, Key::P1Up, Key::P1Down);
    let input = InputState { p1_up: true, p1_down: false, p2_up: false, p2_down: false };
    p.step(500, &input);
    assert_eq!(p.y, 100_000);
    assert_eq!(p.x, LEFT_PADDLE_X);
}

#[test]
fn paddle_up_only_clamps_at_band_edge() {
    let mut p = Paddle::new(LEFT_PADDLE_X, 150_000, Key::P1Up, Key::P1Down);
    let input = InputState { p1_up: true, p1_down: false, p2_up: false, p2_down: false };
    p.step(1000, &input);
    assert_eq!(p.y, PADDLE_Y_LIMIT);
}

#[test]
fn paddle_down_only_moves_down_and_clamps() {
    let mut p = Paddle::new(RIGHT_PADDLE_X, -100_000, Key::P2Up, Key::P2Down);
    let input = InputState { p1_up: false, p1_down: false, p2_up: false, p2_down: true };
    p.step(200, &input);
    assert_eq!(p.y, -140_000);
    p.step(1000, &input);
    assert_eq!(p.y, -PADDLE_Y_LIMIT);
}

#[test]
fn paddle_both_keys_net_zero() {
    let mut p = Paddle::new(LEFT_PADDLE_X, 50_000, Key::P1Up, Key::P1Down);
    let input = InputState { p1_up: true, p1_down: true, p2_up: false, p2_down: false };
    p.step(700, &input);
    assert_eq!(p.y, 50_000);
}

#[test]
fn paddle_zero_dt_only_clamps() {
    let mut p = Paddle::new(LEFT_PADDLE_X, 20_000, Key::P1Up, Key::P1Down);
    let input = InputState { p1_up: true, p1_down: false, p2_up: false, p2_down: false };
    p.step(0, &input);
    assert_eq!(p.y, 20_000);
}

#[test]
fn integrate_moves_by_velocity_times_dt() {
    let mut b = Ball::with_state(1_000, 2_000, 3, -4);
    b.integrate(500);
    assert_eq!((b.x, b.y), (2_500, 0));
    assert_eq!((b.vx, b.vy), (3, -4));
}

#[test]
fn straight_flight_one_second() {
    // Ball at the origin with velocity (250, 0): one second later it is at
    // (250, 0) units with the velocity unchanged, no paddle being near.
    let mut w = World::new();
    w.advance_with(1000, &no_keys(), 0, 0);
    let b = w.ball.unwrap();
    assert_eq!((b.x, b.y), (250_000, 0));
    assert_eq!((b.vx, b.vy), (SERVE_SPEED, 0));
}

#[test]
fn wall_overlap_flips_vertical_velocity_once() {
    // |245| + 12.5 = 257.5 > 250: one qualifying frame flips the sign of
    // the vertical velocity exactly once.
    let mut w = World::new();
    w.ball = Some(Ball::with_state(0, 245_000, 0, 100));
    w.advance_with(0, &no_keys(), 0, 0);
    let b = w.ball.unwrap();
    assert_eq!((b.x, b.y), (0, 245_000));
    assert_eq!((b.vx, b.vy), (0, -100));
}

#[test]
fn wall_bounce_twice_restores_sign() {
    // Two consecutive qualifying frames flip the vertical velocity twice,
    // returning it to its original sign and value.
    let mut w = World::new();
    w.ball = Some(Ball::with_state(0, 245_000, 0, 100));
    w.advance_with(0, &no_keys(), 0, 0);
    assert_eq!(w.ball.unwrap().vy, -100);
    w.advance_with(0, &no_keys(), 0, 0);
    assert_eq!(w.ball.unwrap().vy, 100);
}

#[test]
fn out_of_bounds_reset_keeps_velocity() {
    // Ball at x = 400 units: one frame resets the position to the centre
    // and leaves the velocity exactly as it was.
    let mut w = World::new();
    w.ball = Some(Ball::with_state(400_000, 30_000, 123, -45));
    w.advance_with(0, &no_keys(), 77, 88);
    let b = w.ball.unwrap();
    assert_eq!((b.x, b.y), (0, 0));
    assert_eq!((b.vx, b.vy), (123, -45));
}

#[test]
fn paddle_bounce_inverts_vx_and_redraws_vy() {
    // Ball at (249, 0) moving right fast enough to reach the right
    // paddle's box within the frame: the horizontal velocity flips sign
    // and the vertical one becomes the first supplied redraw value.
    let mut w = World::new();
    w.ball = Some(Ball::with_state(249_000, 0, 5_000, 0));
    w.advance_with(10, &no_keys(), 123, -77);
    let b = w.ball.unwrap();
    assert_eq!((b.x, b.y), (299_000, 0));
    assert_eq!(b.vx, -5_000);
    assert_eq!(b.vy, 123);
}

#[test]
fn double_hit_applies_response_twice_in_draw_order() {
    // With both paddle boxes covering the ball, the response applies
    // twice: the horizontal velocity flips back to its original value and
    // the vertical one ends at the second redraw value.
    let mut w = World::new();
    w.left = Paddle::new(-10_000, 0, Key::P1Up, Key::P1Down);
    w.right = Paddle::new(10_000, 0, Key::P2Up, Key::P2Down);
    w.ball = Some(Ball::with_state(0, 0, 250, 7));
    w.advance_with(0, &no_keys(), 11, -22);
    let b = w.ball.unwrap();
    assert_eq!(b.vx, 250);
    assert_eq!(b.vy, -22);
}

#[test]
fn advance_redraw_lands_in_bounce_range() {
    // A paddle hit under the real random source: the horizontal velocity
    // still flips, and the redrawn vertical velocity lies in
    // [-BOUNCE_SPEED_LIMIT, BOUNCE_SPEED_LIMIT).
    let mut w = World::new();
    w.ball = Some(Ball::with_state(299_000, 0, 40, 9));
    w.advance(0, &no_keys());
    let b = w.ball.unwrap();
    assert_eq!(b.vx, -40);
    assert!(-BOUNCE_SPEED_LIMIT <= b.vy && b.vy < BOUNCE_SPEED_LIMIT);
}

#[test]
fn missing_ball_frame_is_a_paddle_only_noop() {
    let mut w = World::new();
    w.ball = None;
    let input = InputState { p1_up: true, p1_down: false, p2_up: true, p2_down: false };
    w.advance(250, &input);
    assert!(w.ball.is_none());
    assert_eq!(w.left.y, 50_000);
    assert_eq!(w.right.y, 50_000);
}

#[test]
fn advance_moves_paddles_and_ball_together() {
    // Whole-frame order: the paddles move first, then the ball flies.
    let mut w = World::new();
    let input = InputState { p1_up: false, p1_down: true, p2_up: true, p2_down: false };
    w.advance(100, &input);
    assert_eq!(w.left.y, -20_000);
    assert_eq!(w.right.y, 20_000);
    let b = w.ball.unwrap();
    assert_eq!((b.x, b.y), (25_000, 0));
    assert_eq!((b.vx, b.vy), (SERVE_SPEED, 0));
}
