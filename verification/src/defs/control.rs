//! Platform-independent input abstractions.

use vstd::prelude::*;

verus! {

/// Platform-independent abstraction for key codes that the engine recognises.
#[derive(Copy, Clone, Debug, PartialEq, Eq, Structural)]
pub enum KeyCode {
    Unknown,
    Left,
    Up,
    Down,
    Right,
}

/// Platform-independent abstraction for the state that an input can be in at
/// any given moment.
#[derive(Copy, Clone, Debug, PartialEq, Eq, Structural)]
pub enum InputState {
    Pressed,
    Released,
}

} // verus!
