//! The keys of one frame, sampled before the frame is simulated.

use vstd::prelude::*;

verus! {

/// The logical keys that the simulation asks about.
#[derive(Clone, Copy, Debug, PartialEq, Eq, Structural)]
pub enum Key {
    Up,
    Left,
    Right,
}

/// Which keys are held during a frame and which were let go in it. The
/// snapshot does not change while the frame is simulated.
#[derive(Clone, Copy, Debug, PartialEq, Eq, Structural)]
pub struct Input {
    pub up: bool,
    pub left: bool,
    pub right: bool,
    pub up_released: bool,
    pub left_released: bool,
    pub right_released: bool,
}

impl Input {
    pub open spec fn is_down(self, key: Key) -> bool {
        match key {
            Key::Up => self.up,
            Key::Left => self.left,
            Key::Right => self.right,
        }
    }

    pub open spec fn was_released(self, key: Key) -> bool {
        match key {
            Key::Up => self.up_released,
            Key::Left => self.left_released,
            Key::Right => self.right_released,
        }
    }

    /// A frame in which no key is held and none was let go.
    pub fn idle() -> (r: Input)
        ensures
            forall|key: Key| !r.is_down(key) && !r.was_released(key),
            r == (Input {
                up: false,
                left: false,
                right: false,
                up_released: false,
                left_released: false,
                right_released: false,
            }),
    {
        Input {
            up: false,
            left: false,
            right: false,
            up_released: false,
            left_released: false,
            right_released: false,
        }
    }

    /// A frame in which exactly the given keys are held.
    pub fn holding(up: bool, left: bool, right: bool) -> (r: Input)
        ensures
            r == (Input {
                up,
                left,
                right,
                up_released: false,
                left_released: false,
                right_released: false,
            }),
    {
        Input { up, left, right, up_released: false, left_released: false, right_released: false }
    }

    /// Whether `key` is held during the frame.
    pub fn key_down(&self, key: Key) -> (r: bool)
        ensures
            r == self.is_down(key),
    {
        match key {
            Key::Up => self.up,
            Key::Left => self.left,
            Key::Right => self.right,
        }
    }

    /// Whether `key` went from held to let go in this frame.
    pub fn key_released(&self, key: Key) -> (r: bool)
        ensures
            r == self.was_released(key),
    {
        match key {
            Key::Up => self.up_released,
            Key::Left => self.left_released,
            Key::Right => self.right_released,
        }
    }
}

} // verus!
