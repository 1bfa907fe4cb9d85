//! The keys that the dashboard knows.
use vstd::prelude::*;

verus! {

/// A key press.
#[derive(Clone, Copy, Debug, PartialEq, Eq, Structural)]
pub enum Key {
    Enter,
    Tab,
    Backspace,
    Esc,
    Left,
    Right,
    Up,
    Down,
    Insert,
    Delete,
    Home,
    End,
    PageUp,
    PageDown,
    /// A function key, by its number.
    F(u8),
    /// A character key.
    Char(char),
    /// A character key with the control key held.
    Ctrl(char),
    /// A character key with the alt key held.
    Alt(char),
    /// Any other key.
    Unknown,
}

} // verus!
