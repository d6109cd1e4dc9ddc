use vstd::prelude::*;

verus! {

/// The key of a key event.
#[derive(Debug, Clone, Copy, PartialEq, Eq, Structural)]
pub enum KeyCode {
    Char(char),
    Up,
    Down,
    Left,
    Right,
    Enter,
    Esc,
    Backspace,
    /// Any key without a binding.
    Other,
}

/// Whether a key went down, repeated or went up.
#[derive(Debug, Clone, Copy, PartialEq, Eq, Structural)]
pub enum KeyEventKind {
    Press,
    Repeat,
    Release,
}

/// One key event from the terminal.
#[derive(Debug, Clone, Copy, PartialEq, Eq, Structural)]
pub struct KeyEvent {
    pub code: KeyCode,
    pub kind: KeyEventKind,
}

impl KeyEvent {
    /// A press of `code`.
    pub fn new(code: KeyCode) -> (r: KeyEvent)
        ensures
            r == (KeyEvent { code, kind: KeyEventKind::Press }),
    {
        KeyEvent { code, kind: KeyEventKind::Press }
    }
}

/// Terminal events.
#[derive(Debug, Clone, Copy, PartialEq, Eq, Structural)]
pub enum Event {
    /// Terminal tick.
    Tick,
    /// Key press.
    Key(KeyEvent),
    /// Terminal resize.
    Resize(u16, u16),
}

} // verus!
