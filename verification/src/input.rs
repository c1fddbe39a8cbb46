//! Key input, as the handlers read it.

use vstd::prelude::*;

verus! {

/// Which key was pressed.
#[derive(Debug, Clone, Copy, PartialEq, Eq, Structural)]
pub enum KeyCode {
    Char(char),
    Up,
    Down,
    Left,
    Right,
    Enter,
    Esc,
    Backspace,
    /// Any key the application gives no meaning to.
    Other,
}

/// What happened to the key.
#[derive(Debug, Clone, Copy, PartialEq, Eq, Structural)]
pub enum KeyKind {
    Press,
    Repeat,
    Release,
}

/// One key event of the terminal.
#[derive(Debug, Clone, Copy)]
pub struct KeyInput {
    pub code: KeyCode,
    /// The control modifier was held.
    pub control: bool,
    pub kind: KeyKind,
}

impl KeyInput {
    /// A key pressed without modifier.
    pub fn press(code: KeyCode) -> (key: KeyInput)
        ensures
            key == (KeyInput { code, control: false, kind: KeyKind::Press }),
    {
        KeyInput { code, control: false, kind: KeyKind::Press }
    }

    /// A key pressed while control is held.
    pub fn ctrl(code: KeyCode) -> (key: KeyInput)
        ensures
            key == (KeyInput { code, control: true, kind: KeyKind::Press }),
    {
        KeyInput { code, control: true, kind: KeyKind::Press }
    }

    /// The event is one the handlers act on: a press or a repeat.
    pub open spec fn is_down(self) -> bool {
        self.kind == KeyKind::Press || self.kind == KeyKind::Repeat
    }
}

} // verus!
