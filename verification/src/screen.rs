//! The escape sequences that place the cursor and clear a line.

use vstd::prelude::*;
use crate::text::decimal;

verus! {

/// The sequence that moves the cursor to a column and a row, both counted
/// from one: CSI, the row, a semicolon, the column, and `H`.
pub open spec fn goto_sequence(column: u16, row: u16) -> Seq<char> {
    "\x1b["@ + decimal(row as nat) + seq![';'] + decimal(column as nat) + seq!['H']
}

/// The sequence that clears the line on which the cursor stands: CSI `2K`.
pub open spec fn clear_line_sequence() -> Seq<char> {
    "\x1b[2K"@
}

/// `value` as a screen coordinate, or the largest coordinate when it does not
/// fit.
pub open spec fn coordinate(value: nat) -> u16 {
    if value > u16::MAX {
        u16::MAX
    } else {
        value as u16
    }
}

/// `termion::cursor::Goto` as text: CSI, the row in decimal, a semicolon, the
/// column in decimal, and `H`. Termion refuses the position `(0, 0)` in a
/// debug build, so that position is left out.
#[verifier::external_body]
pub(crate) fn goto(column: u16, row: u16) -> (sequence: String)
    requires
        column != 0 || row != 0,
    ensures
        sequence@ == goto_sequence(column, row),
{
    format!("{}", termion::cursor::Goto(column, row))
}

/// `termion::clear::CurrentLine` as text: CSI `2K`.
#[verifier::external_body]
pub(crate) fn clear_line() -> (sequence: String)
    ensures
        sequence@ == clear_line_sequence(),
{
    format!("{}", termion::clear::CurrentLine)
}

} // verus!
