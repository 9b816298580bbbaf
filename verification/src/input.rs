//! Key identifiers and the sampled key state a frame is driven by.
//!
//! The simulation never polls a device itself: the caller samples whatever
//! input source it has into an [`InputState`] and hands it to each frame.

use vstd::prelude::*;

verus! {

/// The four logical keys the simulation knows about: up and down for each
/// player.
#[derive(Clone, Copy, Debug, PartialEq, Eq, Structural)]
pub enum Key {
    P1Up,
    P1Down,
    P2Up,
    P2Down,
}

/// Which of the four keys are held during the current frame.
#[derive(Clone, Copy, Debug, PartialEq, Eq, Structural)]
pub struct InputState {
    pub p1_up: bool,
    pub p1_down: bool,
    pub p2_up: bool,
    pub p2_down: bool,
}

impl InputState {
    /// Whether `key` is held in this state.
    pub open spec fn spec_pressed(self, key: Key) -> bool {
        match key {
            Key::P1Up => self.p1_up,
            Key::P1Down => self.p1_down,
            Key::P2Up => self.p2_up,
            Key::P2Down => self.p2_down,
        }
    }

    /// A state with no key held.
    pub fn released() -> (r: InputState)
        ensures
            forall|k: Key| !r.spec_pressed(k),
    {
        InputState { p1_up: false, p1_down: false, p2_up: false, p2_down: false }
    }

    /// Whether `key` is currently held.
    pub fn is_pressed(&self, key: Key) -> (r: bool)
        ensures
            r == self.spec_pressed(key),
    {
        match key {
            Key::P1Up => self.p1_up,
            Key::P1Down => self.p1_down,
            Key::P2Up => self.p2_up,
            Key::P2Down => self.p2_down,
        }
    }
}

} // verus!
