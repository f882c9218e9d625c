//! The keys that the dashboard is driven by.

use vstd::prelude::*;

verus! {

/// A key press, reduced to what the controllers distinguish.
#[derive(Clone, Copy, Debug, PartialEq, Eq, Structural)]
pub enum Key {
    /// A function key with its number.
    F(u8),
    /// A printable character.
    Char(char),
    Up,
    Down,
    Left,
    Right,
    Enter,
    Esc,
    Tab,
    Backspace,
    /// Any key the dashboard has no binding for.
    Other,
}

} // verus!
