//! What the terminal reports, and what the front-end asks of the back-end.

use vstd::prelude::*;
use crate::operation::Update;
use crate::style::Style;

verus! {

/// A mouse button.
#[derive(Clone, Copy, Debug, PartialEq, Eq, Hash, Structural)]
pub enum MouseButton {
    Left,
    Right,
    Middle,
    WheelUp,
    WheelDown,
}

/// What the mouse did. The coordinates are the column and then the row, and
/// both count from one.
#[derive(Clone, Copy, Debug, PartialEq, Eq, Hash, Structural)]
pub enum MouseEvent {
    Press(MouseButton, u16, u16),
    Release(u16, u16),
    Hold(u16, u16),
}

/// A key.
#[derive(Clone, Copy, Debug, PartialEq, Eq, Hash, Structural)]
pub enum Key {
    Backspace,
    Left,
    Right,
    Up,
    Down,
    Home,
    End,
    PageUp,
    PageDown,
    BackTab,
    Delete,
    Insert,
    F(u8),
    Char(char),
    Alt(char),
    Ctrl(char),
    Null,
    Esc,
}

/// An event that the terminal reports.
#[derive(Clone, Debug, PartialEq, Eq, Hash)]
pub enum Event {
    Key(Key),
    Mouse(MouseEvent),
    /// Bytes that the terminal could not make sense of.
    Unsupported(Vec<u8>),
}

/// What an `Event` holds.
pub enum EventView {
    Key(Key),
    Mouse(MouseEvent),
    Unsupported(Seq<u8>),
}

impl View for Event {
    type V = EventView;

    open spec fn view(&self) -> EventView {
        match *self {
            Event::Key(key) => EventView::Key(key),
            Event::Mouse(mouse_event) => EventView::Mouse(mouse_event),
            Event::Unsupported(bytes) => EventView::Unsupported(bytes@),
        }
    }
}

/// Whether two runs of bytes are the same.
fn same_bytes(bytes: &Vec<u8>, other: &Vec<u8>) -> (same: bool)
    ensures
        same == (bytes@ == other@),
{
    if bytes.len() != other.len() {
        return false;
    }
    let mut i: usize = 0;
    while i < bytes.len()
        invariant
            i <= bytes.len(),
            bytes.len() == other.len(),
            forall|j: int| 0 <= j < i ==> bytes[j] == other[j],
        decreases bytes.len() - i,
    {
        if bytes[i] != other[i] {
            assert(bytes@[i as int] != other@[i as int]);
            return false;
        }
        i = i + 1;
    }
    assert(bytes@ =~= other@);
    true
}

/// Whether two events are the same.
pub fn same_event(event: &Event, other: &Event) -> (same: bool)
    ensures
        same == (event@ == other@),
{
    match (event, other) {
        (Event::Key(key), Event::Key(other_key)) => *key == *other_key,
        (Event::Mouse(mouse_event), Event::Mouse(other_event)) => *mouse_event == *other_event,
        (Event::Unsupported(bytes), Event::Unsupported(other_bytes)) => same_bytes(
            bytes,
            other_bytes,
        ),
        _ => false,
    }
}

/// What a view asks of the back-end for its document. Nothing is waited for:
/// the back-end answers, if at all, with notifications.
#[derive(Clone, Debug, PartialEq, Eq)]
pub enum Request {
    /// Insert a character at the cursor.
    Insert(char),
    InsertNewline,
    InsertTab,
    /// Tell the back-end which lines of the document are on screen: the first
    /// and the line after the last.
    Scroll(u64, u64),
    Down,
    Up,
    Right,
    Left,
    PageDown,
    PageUp,
    /// Move to the start of the line.
    Home,
    /// Move to the end of the line.
    End,
    Delete,
    Backspace,
    Undo,
    Redo,
    SelectAll,
    /// Write the document to the file of this name.
    Save(String),
    /// A click on a line and column of the document.
    Click(u64, u64),
    /// A drag to a line and column of the document.
    Drag(u64, u64),
}

/// A notification of the back-end.
#[derive(Debug, PartialEq, Eq)]
pub enum CoreEvent {
    /// The lines of a view changed.
    Update { view_id: usize, update: Update },
    /// The cursor of a view moved.
    ScrollTo { view_id: usize, line: u64, column: u64 },
    /// A style was defined, or defined anew.
    DefStyle(Style),
    /// The settings of a view changed; `tab_size` is the new distance between
    /// tab stops, if that changed.
    ConfigChanged { view_id: usize, tab_size: Option<u64> },
}

/// What the editor asks of the outside world.
#[derive(Clone, Debug, PartialEq, Eq)]
pub enum Action {
    /// Send the request of the view of this id to the back-end.
    Request(usize, Request),
    /// Ask the back-end for a new view, of this file if one is named. The id
    /// that it answers with opens the view.
    NewView(Option<String>),
    /// Ask the back-end to use the color theme of this name.
    SetTheme(String),
}

} // verus!
