//! Input events produced by the decoder.

use vstd::prelude::*;

verus! {

/// A key press, as decoded from the terminal's input stream.
#[derive(Clone, Copy, Debug, PartialEq, Eq, Hash, Structural)]
pub enum Key {
    /// Backspace.
    Backspace,
    /// Left arrow.
    Left,
    /// Shift Left arrow.
    ShiftLeft,
    /// Alt Left arrow.
    AltLeft,
    /// Ctrl Left arrow.
    CtrlLeft,
    /// Right arrow.
    Right,
    /// Shift Right arrow.
    ShiftRight,
    /// Alt Right arrow.
    AltRight,
    /// Ctrl Right arrow.
    CtrlRight,
    /// Up arrow.
    Up,
    /// Shift Up arrow.
    ShiftUp,
    /// Alt Up arrow.
    AltUp,
    /// Ctrl Up arrow.
    CtrlUp,
    /// Down arrow.
    Down,
    /// Shift Down arrow.
    ShiftDown,
    /// Alt Down arrow.
    AltDown,
    /// Ctrl Down arrow.
    CtrlDown,
    /// Home key.
    Home,
    /// Ctrl Home key.
    CtrlHome,
    /// End key.
    End,
    /// Ctrl End key.
    CtrlEnd,
    /// Page Up key.
    PageUp,
    /// Page Down key.
    PageDown,
    /// Backward Tab key.
    BackTab,
    /// Delete key.
    Delete,
    /// Insert key.
    Insert,
    /// Function keys; only 1 through 12 are produced.
    F(u8),
    /// Normal character.
    Char(char),
    /// Alt modified character.
    Alt(char),
    /// Ctrl modified character.
    Ctrl(char),
    /// Null byte.
    Null,
    /// Esc key.
    Esc,
}

/// One unit of input.
#[derive(Clone, Debug, PartialEq, Eq)]
pub enum Event {
    /// A recognised key.
    Key(Key),
    /// A mouse report; it carries the raw bytes of the report.
    Mouse(Vec<u8>),
    /// Bytes that match no known pattern, kept as they came.
    Unsupported(Vec<u8>),
}

/// Mathematical model of an [`Event`].
pub ghost enum EventModel {
    Key(Key),
    Mouse(Seq<u8>),
    Unsupported(Seq<u8>),
}

impl View for Event {
    type V = EventModel;

    open spec fn view(&self) -> EventModel {
        match self {
            Event::Key(k) => EventModel::Key(*k),
            Event::Mouse(b) => EventModel::Mouse(b@),
            Event::Unsupported(b) => EventModel::Unsupported(b@),
        }
    }
}

/// An event together with the number of input bytes it was decoded from.
#[derive(Clone, Debug, PartialEq, Eq)]
pub struct Decoded {
    pub event: Event,
    pub len: usize,
}

} // verus!
