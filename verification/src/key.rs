//! Key presses, as the widgets of this library read them.
use vstd::prelude::*;

verus! {

/// Which key was pressed.
#[derive(Debug, Clone, Copy, PartialEq, Eq, Structural)]
pub enum KeyCode {
    Backspace,
    Enter,
    Left,
    Right,
    Up,
    Down,
    Home,
    End,
    PageUp,
    PageDown,
    Tab,
    BackTab,
    Delete,
    Insert,
    Esc,
    Char(char),
    /// Any key the widgets do not react to (function keys, media keys, ...).
    Other,
}

/// A key press: the key and whether Control was held.
#[derive(Debug, Clone, Copy, PartialEq, Eq, Structural)]
pub struct Key {
    pub code: KeyCode,
    pub ctrl: bool,
}

impl Key {
    /// A key press without Control.
    pub fn plain(code: KeyCode) -> (k: Key)
        ensures
            k == (Key { code, ctrl: false }),
    {
        Key { code, ctrl: false }
    }

    /// A key press with Control held.
    pub fn with_ctrl(code: KeyCode) -> (k: Key)
        ensures
            k == (Key { code, ctrl: true }),
    {
        Key { code, ctrl: true }
    }
}

} // verus!
