//! The closed message and command vocabulary of the runtime.

use vstd::prelude::*;

verus! {

/// Identifies the key behind a key event: a printable character or a named key.
#[derive(Clone, Copy, Debug, PartialEq, Eq, Structural)]
pub enum KeyCode {
    Char(char),
    Up,
    Down,
    Left,
    Right,
    Enter,
    Esc,
    Backspace,
    Tab,
    Other,
}

/// The kind of a key event: initial press, auto-repeat, or release.
#[derive(Clone, Copy, Debug, PartialEq, Eq, Structural)]
pub enum KeyEventKind {
    Press,
    Repeat,
    Release,
}

/// A discrete keyboard event.
#[derive(Clone, Copy, Debug, PartialEq, Eq, Structural)]
pub struct KeyEvent {
    pub code: KeyCode,
    pub kind: KeyEventKind,
}

/// A message delivered to the model: key input, a timer fire, or the quit
/// signal. Messages are immutable and consumed exactly once.
#[derive(Clone, Copy, Debug, PartialEq, Eq, Structural)]
pub enum Msg {
    Key(KeyEvent),
    Tick,
    Quit,
}

/// An effect requested by the model: do nothing, schedule a timer fire after
/// the given number of milliseconds, or terminate the runtime.
#[derive(Clone, Copy, Debug, PartialEq, Eq, Structural)]
pub enum Cmd {
    Nothing,
    Tick(u64),
    Quit,
}

} // verus!
