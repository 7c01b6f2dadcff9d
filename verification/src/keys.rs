//! Key presses, as the event loop hands them to the application.

use vstd::prelude::*;

verus! {

/// The keys the application reacts to.  Any other key arrives as `Other`.
#[derive(Clone, Copy, Debug, PartialEq, Eq, Structural)]
pub enum Key {
    Char(char),
    Up,
    Down,
    Left,
    Right,
    PageUp,
    PageDown,
    Home,
    End,
    Tab,
    BackTab,
    Enter,
    Esc,
    Backspace,
    Other,
}

/// One key press: the key, and whether Ctrl was held.
#[derive(Clone, Copy, Debug, PartialEq, Eq, Structural)]
pub struct KeyPress {
    pub code: Key,
    pub ctrl: bool,
}

impl KeyPress {
    /// A press of `code` without Ctrl.
    pub fn plain(code: Key) -> (res: KeyPress)
        ensures
            res == (KeyPress { code, ctrl: false }),
    {
        KeyPress { code, ctrl: false }
    }

    /// A press of `code` with Ctrl held.
    pub fn with_ctrl(code: Key) -> (res: KeyPress)
        ensures
            res == (KeyPress { code, ctrl: true }),
    {
        KeyPress { code, ctrl: true }
    }
}

} // verus!
