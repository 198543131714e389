//! Button events, as the host hands them in.
use vstd::prelude::*;

verus! {

/// One of the eight buttons of the joypad matrix.
#[derive(Clone, Copy, Debug, PartialEq, Eq, Structural)]
pub enum JoypadButton {
    /// Direction pad up.
    Up,
    /// Direction pad down.
    Down,
    /// Direction pad left.
    Left,
    /// Direction pad right.
    Right,
    /// The A action button.
    A,
    /// The B action button.
    B,
    /// The Select action button.
    Select,
    /// The Start action button.
    Start,
}

/// A button edge: pressed down or released.
#[derive(Clone, Copy, Debug)]
pub enum Input {
    /// The button went down.
    JoypadPress(JoypadButton),
    /// The button came up.
    JoypadRelease(JoypadButton),
}

/// The bit a button occupies in the action half of the matrix; 0 for a
/// direction button.
pub open spec fn action_mask(b: JoypadButton) -> u8 {
    match b {
        JoypadButton::A => 0b0001,
        JoypadButton::B => 0b0010,
        JoypadButton::Select => 0b0100,
        JoypadButton::Start => 0b1000,
        _ => 0,
    }
}

/// The bit a button occupies in the direction half of the matrix; 0 for
/// an action button.
pub open spec fn direction_mask(b: JoypadButton) -> u8 {
    match b {
        JoypadButton::Right => 0b0001,
        JoypadButton::Left => 0b0010,
        JoypadButton::Up => 0b0100,
        JoypadButton::Down => 0b1000,
        _ => 0,
    }
}

/// The two matrix masks of a button, executable form.
pub fn button_masks(b: JoypadButton) -> (r: (u8, u8))
    ensures
        r.0 == action_mask(b),
        r.1 == direction_mask(b),
        r.0 < 16,
        r.1 < 16,
{
    match b {
        JoypadButton::A => (0b0001, 0),
        JoypadButton::B => (0b0010, 0),
        JoypadButton::Select => (0b0100, 0),
        JoypadButton::Start => (0b1000, 0),
        JoypadButton::Right => (0, 0b0001),
        JoypadButton::Left => (0, 0b0010),
        JoypadButton::Up => (0, 0b0100),
        JoypadButton::Down => (0, 0b1000),
    }
}

} // verus!
