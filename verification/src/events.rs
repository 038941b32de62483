//! Normalized terminal input and lifecycle occurrences, produced only by the
//! input source and fanned out unchanged to every component.

use vstd::prelude::*;

verus! {

/// Whether a key event is the initial press, an auto-repeat, or the release.
/// Only presses are forwarded by the input source.
#[derive(Clone, Copy, Debug, PartialEq, Eq, Structural)]
pub enum KeyEventKind {
    Press,
    Repeat,
    Release,
}

/// The key that an event concerns. The runtime's bindings only distinguish
/// printable characters; every other key is `Other`.
#[derive(Clone, Copy, Debug, PartialEq, Eq, Structural)]
pub enum KeyCode {
    Char(char),
    Other,
}

/// A keyboard event as the runtime sees it: which key, and which transition.
#[derive(Clone, Copy, Debug, PartialEq, Eq, Structural)]
pub struct KeyEvent {
    pub code: KeyCode,
    pub kind: KeyEventKind,
}

/// A mouse event; the runtime forwards it to components but binds nothing to
/// it, so only the position is modeled.
#[derive(Clone, Copy, Debug, PartialEq, Eq, Structural)]
pub struct MouseEvent {
    pub column: u16,
    pub row: u16,
}

/// A normalized terminal input or lifecycle occurrence.
#[derive(Clone, Debug, PartialEq)]
pub enum Event {
    /// Emitted once when the input source starts, so the UI draws before any
    /// user interaction.
    Init,
    /// A request to end the session.
    Quit,
    /// A periodic wake-up.
    Tick,
    /// A key press (never a repeat or release; see the input source).
    Key(KeyEvent),
    /// A mouse event.
    Mouse(MouseEvent),
    /// Pasted text.
    Paste(String),
    FocusGained,
    FocusLost,
    /// The terminal was resized to the given columns and rows.
    Resize(u16, u16),
    /// A terminal read failed; the session continues.
    Error,
}

} // verus!
