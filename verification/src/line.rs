//! A line of text as the back-end sends it.

use vstd::prelude::*;
use vstd::string::StrSliceExecFns;

verus! {

/// A span of a line's text that is drawn in one style.
///
/// `offset` is counted from the end of the range before it on the same line
/// (from the start of the line for the first range) and may be negative.
/// Both `offset` and `length` count bytes of the line's text in UTF-8, as the
/// back-end does.
#[derive(Clone, Copy, Debug, PartialEq, Eq, Structural)]
pub struct StyleRange {
    pub offset: i64,
    pub length: u64,
    pub style_id: u64,
}

/// A line of the document: its text, the offsets in it at which a cursor
/// stands, and its style ranges in the order in which they apply.
#[derive(Debug, PartialEq, Eq)]
pub struct Line {
    pub text: String,
    pub cursor: Vec<u64>,
    pub styles: Vec<StyleRange>,
}

/// What a `Line` holds.
pub struct LineView {
    pub text: Seq<char>,
    pub cursor: Seq<u64>,
    pub styles: Seq<StyleRange>,
}

impl View for Line {
    type V = LineView;

    open spec fn view(&self) -> LineView {
        LineView { text: self.text@, cursor: self.cursor@, styles: self.styles@ }
    }
}

/// The views of `lines`, in order.
pub open spec fn line_views(lines: Seq<Line>) -> Seq<LineView> {
    lines.map_values(|line: Line| line@)
}

/// `text` without the newline that ends it, if one does.
pub open spec fn without_newline(text: Seq<char>) -> Seq<char> {
    if text.len() > 0 && text.last() == '\n' {
        text.drop_last()
    } else {
        text
    }
}

impl LineView {
    /// This line without the newline that ends its text, if one does.
    pub open spec fn trimmed(self) -> LineView {
        LineView { text: without_newline(self.text), ..self }
    }

    /// This line with the cursors and style ranges of `other`.
    pub open spec fn restyled(self, other: LineView) -> LineView {
        LineView { text: self.text, cursor: other.cursor, styles: other.styles }
    }
}

impl Clone for Line {
    fn clone(&self) -> (line: Self)
        ensures
            line@ == self@,
    {
        Line { text: self.text.clone(), cursor: self.cursor.clone(), styles: self.styles.clone() }
    }
}

impl Default for Line {
    fn default() -> (line: Self)
        ensures
            line@ == (LineView { text: Seq::empty(), cursor: Seq::empty(), styles: Seq::empty() }),
    {
        Line { text: String::new(), cursor: Vec::new(), styles: Vec::new() }
    }
}

/// Removes the newline that ends `text`, if one does.
pub fn trim_new_line(text: &mut String)
    ensures
        final(text)@ == without_newline(old(text)@),
{
    let length = text.as_str().unicode_len();
    if length > 0 && text.as_str().get_char(length - 1) == '\n' {
        let trimmed = text.as_str().substring_char(0, length - 1).to_owned();
        *text = trimmed;
    }
}

} // verus!
