//! From characters to screen columns.

use vstd::prelude::*;

verus! {

broadcast use vstd::string::group_string_axioms;

/// Whether `c` is drawn in caret notation: a control character other than
/// the tab, or the delete character.
pub open spec fn is_control(c: char) -> bool {
    (c as u32) < 0x09 || (0x0a <= c as u32 && c as u32 <= 0x1f) || c as u32 == 0x7f
}

/// The number of columns that `c` takes when it is drawn at the column
/// `position`, with a tab stop every `tab_width` columns.
///
/// A tab reaches to the next tab stop. A control character is drawn in caret
/// notation and takes two columns. Any other character takes one.
pub open spec fn char_width(position: nat, c: char, tab_width: nat) -> nat {
    if c == '\t' {
        if tab_width == 0 {
            0
        } else {
            (tab_width - position % tab_width) as nat
        }
    } else if is_control(c) {
        2
    } else {
        1
    }
}

/// The column at which the character `index` of `text` is drawn: the widths
/// of the characters before it, added up from the left. An index past the
/// end of the text gives the column after the last character.
pub open spec fn column_for(text: Seq<char>, index: nat, tab_width: nat) -> nat
    decreases index,
{
    if index == 0 {
        0
    } else if index > text.len() {
        column_for(text, text.len(), tab_width)
    } else {
        let before = column_for(text, (index - 1) as nat, tab_width);
        before + char_width(before, text[index - 1], tab_width)
    }
}

/// `value` as a 64-bit number, or the largest such number when it does not
/// fit.
pub open spec fn saturated(value: nat) -> u64 {
    if value > u64::MAX {
        u64::MAX
    } else {
        value as u64
    }
}

/// The column on which a click at the screen column `column` lands, counted
/// from `from` characters on: the number of characters, from the start of
/// the text, whose widths together first reach `column`; one more than the
/// length of the text when they never do.
pub open spec fn first_reaching(text: Seq<char>, column: nat, tab_width: nat, from: nat) -> nat
    decreases text.len() - from,
{
    if from >= text.len() {
        text.len() + 1
    } else if column_for(text, from + 1, tab_width) >= column {
        from + 1
    } else {
        first_reaching(text, column, tab_width, from + 1)
    }
}

/// The document column of a click at the screen column `column` of a line
/// that shows `text`: zero for a click before the first character, else the
/// number of characters that it takes to reach the click, and one more than
/// the length of the text for a click past the end of the line.
pub open spec fn click_column(text: Seq<char>, column: nat, tab_width: nat) -> nat {
    if column == 0 {
        0
    } else {
        first_reaching(text, column, tab_width, 0)
    }
}

/// The column never goes back as the index goes on.
pub proof fn lemma_column_for_monotonic(text: Seq<char>, i: nat, j: nat, tab_width: nat)
    requires
        i <= j,
    ensures
        column_for(text, i, tab_width) <= column_for(text, j, tab_width),
    decreases j,
{
    if i < j {
        if j > text.len() {
            if i <= text.len() {
                lemma_column_for_monotonic(text, i, text.len(), tab_width);
            } else {
            }
        } else {
            lemma_column_for_monotonic(text, i, (j - 1) as nat, tab_width);
        }
    }
}

/// What `first_reaching` finds, said directly: no earlier character reaches
/// the column, and the character found does, unless the result is past the
/// end of the text.
pub proof fn lemma_first_reaching(text: Seq<char>, column: nat, tab_width: nat, from: nat)
    requires
        from <= text.len(),
        column_for(text, from, tab_width) < column,
    ensures
        ({
            let found = first_reaching(text, column, tab_width, from);
            &&& from < found <= text.len() + 1
            &&& column_for(text, (found - 1) as nat, tab_width) < column
            &&& found <= text.len() ==> column_for(text, found, tab_width) >= column
        }),
    decreases text.len() - from,
{
    if from < text.len() && column_for(text, from + 1, tab_width) < column {
        lemma_first_reaching(text, column, tab_width, from + 1);
    }
}

/// With tab stops apart, every character takes room: the column grows from
/// each index to the next.
pub proof fn lemma_column_for_increasing(text: Seq<char>, i: nat, j: nat, tab_width: nat)
    requires
        tab_width > 0,
        i < j <= text.len(),
    ensures
        column_for(text, i, tab_width) < column_for(text, j, tab_width),
    decreases j,
{
    let before = column_for(text, (j - 1) as nat, tab_width);
    assert(char_width(before, text[j - 1], tab_width) >= 1) by {
        if text[j - 1] == '\t' {
            assert(before % tab_width < tab_width) by (nonlinear_arith)
                requires
                    tab_width > 0,
            ;
        }
    }
    if i < j - 1 {
        lemma_column_for_increasing(text, i, (j - 1) as nat, tab_width);
    }
}

/// A click on the column at which a character ends lands behind that
/// character: with tab stops apart, the document column of a click on the
/// screen column of the index `index` is `index`.
pub proof fn lemma_click_column_inverse(text: Seq<char>, index: nat, tab_width: nat)
    requires
        tab_width > 0,
        index <= text.len(),
    ensures
        click_column(text, column_for(text, index, tab_width), tab_width) == index,
{
    let column = column_for(text, index, tab_width);
    if index > 0 {
        lemma_column_for_increasing(text, 0, index, tab_width);
        lemma_first_reaching(text, column, tab_width, 0);
        let found = first_reaching(text, column, tab_width, 0);
        if found < index {
            lemma_column_for_increasing(text, found, index, tab_width);
        } else if found > index {
            lemma_column_for_monotonic(text, index, (found - 1) as nat, tab_width);
        }
    }
}

/// The number of columns that `c` takes at the column `position`.
pub fn translate_char_width(position: u64, c: char, tab_size: u16) -> (width: u16)
    requires
        tab_size > 0,
    ensures
        width == char_width(position as nat, c, tab_size as nat),
        width >= 1,
{
    let code = c as u32;
    if c == '\t' {
        tab_size - (position % (tab_size as u64)) as u16
    } else if code < 0x09 || (0x0a <= code && code <= 0x1f) || code == 0x7f {
        2
    } else {
        1
    }
}

/// The column after a character `c` that is drawn at the column `acc`; the
/// largest column that can be counted when that is less.
pub fn add_char_width(acc: u64, c: char, tab_size: u16) -> (column: u64)
    requires
        tab_size > 0,
    ensures
        column == saturated(acc as nat + char_width(acc as nat, c, tab_size as nat)),
{
    let width = translate_char_width(acc, c, tab_size) as u64;
    if width > u64::MAX - acc {
        u64::MAX
    } else {
        acc + width
    }
}

/// The screen column of the character `index` of `text`, counted from zero,
/// with a tab stop every `tab_size` columns; the largest column that can be
/// counted when that is less.
pub fn cursor_column(text: &str, index: u64, tab_size: u16) -> (column: u64)
    requires
        tab_size > 0,
    ensures
        column == saturated(column_for(text@, index as nat, tab_size as nat)),
{
    let mut column: u64 = 0;
    let mut seen: u64 = 0;
    for c in it: text.chars()
        invariant
            tab_size > 0,
            it.seq() == text@,
            seen <= index,
            seen <= it.index(),
            seen < index ==> seen == it.index(),
            column == saturated(column_for(text@, seen as nat, tab_size as nat)),
    {
        if seen < index {
            if column < u64::MAX {
                column = add_char_width(column, c, tab_size);
            }
            seen = seen + 1;
        }
    }
    assert(column_for(text@, seen as nat, tab_size as nat) == column_for(
        text@,
        index as nat,
        tab_size as nat,
    ));
    column
}

/// The document column of a click at the screen column `column`, counted
/// from zero, of a line that shows `text`.
pub fn clicked_column(text: &str, column: u64, tab_size: u16) -> (index: u64)
    requires
        tab_size > 0,
    ensures
        index == saturated(click_column(text@, column as nat, tab_size as nat)),
{
    if column == 0 {
        return 0;
    }
    let mut reached: u64 = 0;
    let mut seen: u64 = 0;
    for c in it: text.chars()
        invariant
            tab_size > 0,
            column > 0,
            it.seq() == text@,
            seen == it.index(),
            reached == saturated(column_for(text@, seen as nat, tab_size as nat)),
            reached < column,
            first_reaching(text@, column as nat, tab_size as nat, 0) == first_reaching(
                text@,
                column as nat,
                tab_size as nat,
                seen as nat,
            ),
    {
        if seen == u64::MAX {
            proof {
                lemma_first_reaching(text@, column as nat, tab_size as nat, seen as nat);
            }
            return u64::MAX;
        }
        reached = add_char_width(reached, c, tab_size);
        if reached >= column {
            return seen + 1;
        }
        seen = seen + 1;
    }
    if seen == u64::MAX {
        u64::MAX
    } else {
        seen + 1
    }
}

} // verus!
