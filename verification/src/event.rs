//! Input events as the screens see them: plain values, free of any
//! windowing system.

use vstd::prelude::*;

verus! {

/// Whether a key or button went down or came up.
#[derive(Debug, Clone, Copy, PartialEq, Eq, Structural)]
pub enum ElementState {
    Pressed,
    Released,
}

/// A mouse button. `Other` carries the number the platform gave it.
#[derive(Debug, Clone, Copy, PartialEq, Eq, Structural)]
pub enum MouseButton {
    Left,
    Right,
    Middle,
    Back,
    Forward,
    Other(u16),
}

/// One keyboard event.
#[derive(Debug, Clone, Copy, PartialEq, Eq)]
pub struct KeyEvent {
    /// The platform's scancode of the key, where it has one.
    pub physical_key: Option<u32>,
    pub state: ElementState,
    /// Set where the event comes from a key that is held down.
    pub repeat: bool,
}

} // verus!
