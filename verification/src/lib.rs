//! A minimal two-player paddle-and-ball simulation.
//!
//! The arena is a fixed rectangle; two paddles move vertically under key
//! input, and a single ball travels under its velocity, bouncing off the
//! horizontal walls and the paddles and resetting to the centre when it
//! leaves the field on either side.
//!
//! All quantities are integers. Positions are measured in *milliunits*
//! (one thousandth of an arena unit), velocities in arena units per second,
//! and elapsed time in milliseconds. Since one unit per second is exactly
//! one milliunit per millisecond, a body with velocity `v` moves by exactly
//! `v * dt` milliunits over `dt` milliseconds, with no rounding anywhere.

pub mod arena;
pub mod ball;
pub mod collide;
pub mod input;
pub mod paddle;
mod rng;
pub mod world;
