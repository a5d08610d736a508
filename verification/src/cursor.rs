//! The cursor position, as the back-end reports it.

use vstd::prelude::*;

verus! {

/// A position in document coordinates: `line` counts from the first line of
/// the document, `column` counts characters from the start of that line.
#[derive(Clone, Copy, Debug, PartialEq, Eq, Structural)]
pub struct Cursor {
    pub line: u64,
    pub column: u64,
}

impl From<(u64, u64)> for Cursor {
    fn from(pair: (u64, u64)) -> (cursor: Self) {
        Cursor { line: pair.0, column: pair.1 }
    }
}

impl vstd::std_specs::convert::FromSpecImpl<(u64, u64)> for Cursor {
    open spec fn obeys_from_spec() -> bool {
        true
    }

    open spec fn from_spec(pair: (u64, u64)) -> Self {
        Cursor { line: pair.0, column: pair.1 }
    }
}

impl Default for Cursor {
    fn default() -> (cursor: Self)
        ensures
            cursor == (Cursor { line: 0, column: 0 }),
    {
        Cursor { line: 0, column: 0 }
    }
}

impl Cursor {
    /// The cursor at the start of the document.
    pub fn new() -> (cursor: Self)
        ensures
            cursor == (Cursor { line: 0, column: 0 }),
    {
        Cursor { line: 0, column: 0 }
    }

    /// Moves the cursor to the position `(line, column)` that the back-end
    /// announced.
    pub fn update(&mut self, cursor_pos: (u64, u64))
        ensures
            final(self).line == cursor_pos.0,
            final(self).column == cursor_pos.1,
    {
        let new_cursor = Cursor::from(cursor_pos);
        if *self != new_cursor {
            *self = new_cursor;
        }
    }
}

} // verus!
