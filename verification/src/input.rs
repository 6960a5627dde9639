//! The keys that steer the paddles.

use vstd::prelude::*;

verus! {

/// One of the four keys the game listens to.
#[derive(Clone, Copy, Debug, PartialEq, Eq, Structural)]
pub enum Key {
    W,
    S,
    Up,
    Down,
}

/// Which of the four keys are held down at one instant.
#[derive(Clone, Copy, Debug, PartialEq, Eq, Structural)]
pub struct Keys {
    pub w: bool,
    pub s: bool,
    pub up: bool,
    pub down: bool,
}

impl Keys {
    /// Whether `key` is held.
    pub open spec fn spec_is_down(&self, key: Key) -> bool {
        match key {
            Key::W => self.w,
            Key::S => self.s,
            Key::Up => self.up,
            Key::Down => self.down,
        }
    }

    /// Whether `key` is held.
    #[verifier::when_used_as_spec(spec_is_down)]
    pub fn is_down(&self, key: Key) -> (held: bool)
        ensures
            held == self.is_down(key),
    {
        match key {
            Key::W => self.w,
            Key::S => self.s,
            Key::Up => self.up,
            Key::Down => self.down,
        }
    }

    /// No key held.
    pub fn none() -> (keys: Keys)
        ensures
            keys == (Keys { w: false, s: false, up: false, down: false }),
    {
        Keys { w: false, s: false, up: false, down: false }
    }
}

/// The vertical direction two opposed keys ask for: `-1` is up, `1` is
/// down, and `0` is rest, which is also what both keys together give.
pub open spec fn spec_direction(up: bool, down: bool) -> int {
    if up && !down {
        -1
    } else if down && !up {
        1
    } else {
        0
    }
}

/// The vertical direction two opposed keys ask for.
pub fn direction(up: bool, down: bool) -> (d: i8)
    ensures
        d == spec_direction(up, down),
{
    match (up, down) {
        (true, false) => -1,
        (false, true) => 1,
        _ => 0,
    }
}

} // verus!
