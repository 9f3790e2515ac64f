//! What all editing widgets share: abstract key events, the result of handling
//! one, and the widget state machine.
use vstd::prelude::*;
use crate::value::ConfigValue;

verus! {

/// A key, as the terminal layer reports it.
#[derive(Debug, Clone, Copy, PartialEq, Eq, Structural)]
pub enum KeyCode {
    Char(char),
    Enter,
    Esc,
    Backspace,
    Delete,
    Left,
    Right,
    Up,
    Down,
    Home,
    End,
    Tab,
    BackTab,
    /// Any key the engine has no use for.
    Other,
}

/// A key with the one modifier the engine reads.
#[derive(Debug, Clone, Copy, PartialEq, Eq, Structural)]
pub struct KeyEvent {
    pub code: KeyCode,
    pub ctrl: bool,
}

impl KeyEvent {
    pub fn new(code: KeyCode) -> (r: KeyEvent)
        ensures
            r == (KeyEvent { code, ctrl: false }),
    {
        KeyEvent { code, ctrl: false }
    }

    pub fn with_ctrl(code: KeyCode) -> (r: KeyEvent)
        ensures
            r == (KeyEvent { code, ctrl: true }),
    {
        KeyEvent { code, ctrl: true }
    }
}

/// Result of handling one key in a widget.
#[derive(Debug, PartialEq, Eq)]
pub enum WidgetResult {
    /// Keep editing; nothing to report.
    Continue,
    /// An intermediate value, for live preview.
    Changed(ConfigValue),
    /// The user confirmed this value.
    Confirmed(ConfigValue),
    /// The user abandoned the edit.
    Cancelled,
}

#[derive(Debug, Clone, Copy, PartialEq, Eq, Structural)]
pub enum WidgetState {
    Normal,
    Focused,
    Editing,
}

/// `s` with `c` inserted before index `i`.
pub open spec fn insert_at(s: Seq<char>, i: int, c: char) -> Seq<char> {
    s.take(i).push(c) + s.skip(i)
}

/// `s` without the character at index `i`.
pub open spec fn remove_at(s: Seq<char>, i: int) -> Seq<char> {
    s.take(i) + s.skip(i + 1)
}

} // verus!
