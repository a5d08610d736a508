//! Styled text: where the escape sequences of a line's style ranges go, and
//! the text with the sequences in it.
//!
//! Each style range gives two insertion points: the sequence that switches
//! its style on, at its start, and the sequence that switches it off, at its
//! end. The back-end counts these places in bytes of the line's text in
//! UTF-8. The points are kept in descending order of their place and
//! inserted in that order, from the back of the text to the front, so that no
//! insertion moves a place at which a later one goes.

use std::collections::HashMap;
use vstd::prelude::*;
use vstd::string::{StrSliceExecFns, StringExecFns};
use crate::cache::clip;
use crate::column::{char_width, column_for, is_control, translate_char_width};
use crate::line::{Line, StyleRange};
use crate::style::{reset_sequence, reset_style, set_sequence, set_style, Style};
use crate::text::{chars_of, push_char};

verus! {

broadcast use {vstd::string::group_string_axioms, vstd::std_specs::hash::group_hash_axioms};

/// An escape sequence and the place at which it goes into a text. The place
/// is an offset in bytes of the text in UTF-8, as the back-end counts.
pub type Point = (nat, Seq<char>);

/// What `points` hold.
pub open spec fn point_views(points: Seq<(u64, String)>) -> Seq<Point> {
    points.map_values(|point: (u64, String)| (point.0 as nat, point.1@))
}

/// Where a style range starts, when the range before it ended at
/// `previous_end`. Positions stay within what a 64-bit index can hold.
pub open spec fn range_start(previous_end: nat, range: StyleRange) -> nat {
    clip(previous_end + range.offset, 0, u64::MAX as int) as nat
}

/// Where a style range ends, when the range before it ended at
/// `previous_end`.
pub open spec fn range_end(previous_end: nat, range: StyleRange) -> nat {
    clip(range_start(previous_end, range) + range.length, 0, u64::MAX as int) as nat
}

/// Where the last of `ranges` ends; zero when there is none.
pub open spec fn ranges_end(ranges: Seq<StyleRange>) -> nat
    decreases ranges.len(),
{
    if ranges.len() == 0 {
        0
    } else {
        range_end(ranges_end(ranges.drop_last()), ranges.last())
    }
}

/// `points`, which are in descending order of their place, with one more
/// point. The new point goes before the points of the same index.
pub open spec fn placed(points: Seq<Point>, index: nat, sequence: Seq<char>) -> Seq<Point>
    decreases points.len(),
{
    if points.len() == 0 || points[0].0 <= index {
        seq![(index, sequence)] + points
    } else {
        seq![points[0]] + placed(points.drop_first(), index, sequence)
    }
}

/// The insertion points of `ranges`, in descending order of their place. A
/// range whose style the table does not hold gives no point, but the ranges
/// after it still count from its end.
pub open spec fn style_points(table: Map<u64, Style>, ranges: Seq<StyleRange>) -> Seq<Point>
    decreases ranges.len(),
{
    if ranges.len() == 0 {
        Seq::empty()
    } else {
        let earlier = style_points(table, ranges.drop_last());
        let range = ranges.last();
        let previous_end = ranges_end(ranges.drop_last());
        if table.contains_key(range.style_id) {
            let style = table[range.style_id];
            placed(
                placed(earlier, range_start(previous_end, range), set_sequence(style)),
                range_end(previous_end, range),
                reset_sequence(style),
            )
        } else {
            earlier
        }
    }
}

/// Whether `points` are in descending order of their place.
pub open spec fn descending(points: Seq<Point>) -> bool {
    forall|i: int, j: int| 0 <= i <= j < points.len() ==> points[i].0 >= points[j].0
}

/// The number of bytes that `c` takes in UTF-8.
pub open spec fn utf8_width(c: char) -> nat {
    if (c as u32) < 0x80 {
        1
    } else if (c as u32) < 0x800 {
        2
    } else if (c as u32) < 0x1_0000 {
        3
    } else {
        4
    }
}

/// The character of `text` in which the byte `offset` lies, counted in
/// characters: the number of whole characters that the first `offset` bytes
/// of the text hold. An offset past the end gives the length of the text; an
/// offset inside a character gives the place of that character.
pub open spec fn char_index(text: Seq<char>, offset: nat) -> nat
    decreases text.len(),
{
    if text.len() == 0 || offset < utf8_width(text[0]) {
        0
    } else {
        1 + char_index(text.drop_first(), (offset - utf8_width(text[0])) as nat)
    }
}

/// `points` with each place as a number of characters of `text`.
pub open spec fn char_points(text: Seq<char>, points: Seq<Point>) -> Seq<Point> {
    points.map_values(|point: Point| (char_index(text, point.0), point.1))
}

/// `text` with `sequence` put in before the character `index`, or at the end
/// when the text is shorter than that.
pub open spec fn inserted_at(text: Seq<char>, index: nat, sequence: Seq<char>) -> Seq<char> {
    let at = if index < text.len() {
        index as int
    } else {
        text.len() as int
    };
    text.take(at) + sequence + text.skip(at)
}

/// `text` with the sequences of `points` put in one after the other, in the
/// order of `points`, each before the character that its place names.
pub open spec fn inserted_all(text: Seq<char>, points: Seq<Point>) -> Seq<char>
    decreases points.len(),
{
    if points.len() == 0 {
        text
    } else {
        inserted_all(inserted_at(text, points[0].0, points[0].1), points.drop_first())
    }
}

/// `text` with the sequences of `points` put in one after the other, in the
/// order of `points`. Each sequence goes in at its offset in the bytes of
/// `text` as it was before any sequence went in: at the end for an offset
/// past the end, before the character in which the offset lies otherwise.
pub open spec fn with_sequences(text: Seq<char>, points: Seq<Point>) -> Seq<char> {
    inserted_all(text, char_points(text, points))
}

/// The number of characters of the sequences of `points`, all together.
pub open spec fn sequences_length(points: Seq<Point>) -> nat
    decreases points.len(),
{
    if points.len() == 0 {
        0
    } else {
        points[0].1.len() + sequences_length(points.drop_first())
    }
}

/// `text` with the escape sequences of its style ranges in it.
pub open spec fn styled(text: Seq<char>, table: Map<u64, Style>, ranges: Seq<StyleRange>) -> Seq<
    char,
> {
    with_sequences(text, style_points(table, ranges))
}

/// The letter that stands for the control character `c` in caret notation.
pub open spec fn caret_letter(c: char) -> char {
    ((c as u8) ^ 0x40) as char
}

/// What is drawn for the character `c` at the column `position`: blanks up
/// to the next tab stop for a tab, a caret and a letter for a control
/// character, the character itself otherwise.
pub open spec fn escaped_char(position: nat, c: char, tab_width: nat) -> Seq<char> {
    if c == '\t' {
        Seq::new(char_width(position, c, tab_width), |i: int| ' ')
    } else if is_control(c) {
        seq!['^', caret_letter(c)]
    } else {
        seq![c]
    }
}

/// What is drawn for the first `index` characters of `text`.
pub open spec fn escaped_upto(text: Seq<char>, index: nat, tab_width: nat) -> Seq<char>
    decreases index,
{
    if index == 0 {
        Seq::empty()
    } else {
        escaped_upto(text, (index - 1) as nat, tab_width) + escaped_char(
            column_for(text, (index - 1) as nat, tab_width),
            text[index - 1],
            tab_width,
        )
    }
}

/// What is drawn for `text`: tabs as blanks, control characters in caret
/// notation.
pub open spec fn escaped(text: Seq<char>, tab_width: nat) -> Seq<char> {
    escaped_upto(text, text.len(), tab_width)
}

/// The points stay in descending order when one more is placed, and each
/// point of the result is the new point or one of the old ones.
pub proof fn lemma_placed_descending(points: Seq<Point>, index: nat, sequence: Seq<char>)
    requires
        descending(points),
    ensures
        descending(placed(points, index, sequence)),
        placed(points, index, sequence).len() == points.len() + 1,
        forall|i: int|
            0 <= i < points.len() + 1 ==> (#[trigger] placed(points, index, sequence)[i]).0
                == index || exists|j: int|
                0 <= j < points.len() && placed(points, index, sequence)[i] == points[j],
    decreases points.len(),
{
    let result = placed(points, index, sequence);
    if points.len() == 0 || points[0].0 <= index {
        assert forall|i: int| 0 <= i < points.len() + 1 implies (#[trigger] result[i]).0 == index
            || exists|j: int| 0 <= j < points.len() && result[i] == points[j] by {
            if i > 0 {
                assert(result[i] == points[i - 1]);
            }
        }
    } else {
        let rest = points.drop_first();
        lemma_placed_descending(rest, index, sequence);
        let tail = placed(rest, index, sequence);
        assert forall|i: int| 0 <= i < points.len() + 1 implies (#[trigger] result[i]).0 == index
            || exists|j: int| 0 <= j < points.len() && result[i] == points[j] by {
            if i == 0 {
                assert(result[0] == points[0]);
            } else {
                assert(result[i] == tail[i - 1]);
                if tail[i - 1].0 != index {
                    let j = choose|j: int| 0 <= j < rest.len() && tail[i - 1] == rest[j];
                    assert(result[i] == points[j + 1]);
                }
            }
        }
        assert forall|i: int, j: int| 0 <= i <= j < result.len() implies result[i].0
            >= result[j].0 by {
            if i == 0 && j > 0 {
                assert(result[j] == tail[j - 1]);
                if tail[j - 1].0 != index {
                    let k = choose|k: int| 0 <= k < rest.len() && tail[j - 1] == rest[k];
                    assert(rest[k] == points[k + 1]);
                }
            } else if i > 0 {
                assert(result[i] == tail[i - 1]);
                assert(result[j] == tail[j - 1]);
            }
        }
    }
}

/// The insertion points of a line are in descending order of their place:
/// the sequences go in from the back of the text to the front.
pub proof fn lemma_style_points_descending(table: Map<u64, Style>, ranges: Seq<StyleRange>)
    ensures
        descending(style_points(table, ranges)),
    decreases ranges.len(),
{
    if ranges.len() > 0 {
        lemma_style_points_descending(table, ranges.drop_last());
        let earlier = style_points(table, ranges.drop_last());
        let range = ranges.last();
        let previous_end = ranges_end(ranges.drop_last());
        if table.contains_key(range.style_id) {
            let style = table[range.style_id];
            lemma_placed_descending(
                earlier,
                range_start(previous_end, range),
                set_sequence(style),
            );
            lemma_placed_descending(
                placed(earlier, range_start(previous_end, range), set_sequence(style)),
                range_end(previous_end, range),
                reset_sequence(style),
            );
        }
    }
}

/// No offset lies past the end of the text.
pub proof fn lemma_char_index_bound(text: Seq<char>, offset: nat)
    ensures
        char_index(text, offset) <= text.len(),
    decreases text.len(),
{
    if !(text.len() == 0 || offset < utf8_width(text[0])) {
        lemma_char_index_bound(text.drop_first(), (offset - utf8_width(text[0])) as nat);
    }
}

/// A larger offset lies in the same character or in a later one.
pub proof fn lemma_char_index_monotonic(text: Seq<char>, offset: nat, larger: nat)
    requires
        offset <= larger,
    ensures
        char_index(text, offset) <= char_index(text, larger),
    decreases text.len(),
{
    if !(text.len() == 0 || offset < utf8_width(text[0])) {
        lemma_char_index_monotonic(
            text.drop_first(),
            (offset - utf8_width(text[0])) as nat,
            (larger - utf8_width(text[0])) as nat,
        );
    }
}

/// Putting sequences in leaves the text before them as it is: no insertion
/// moves a character that stands before every place. This is why the points
/// go in from the back to the front: what is still to go in goes further to
/// the front, where nothing has moved.
pub proof fn lemma_inserted_all_keeps_front(text: Seq<char>, points: Seq<Point>, front: nat)
    requires
        front <= text.len(),
        forall|i: int| 0 <= i < points.len() ==> (#[trigger] points[i]).0 >= front,
    ensures
        inserted_all(text, points).take(front as int) == text.take(front as int),
    decreases points.len(),
{
    if points.len() > 0 {
        let next = inserted_at(text, points[0].0, points[0].1);
        assert(next.take(front as int) =~= text.take(front as int));
        let rest = points.drop_first();
        assert forall|i: int| 0 <= i < rest.len() implies (#[trigger] rest[i]).0 >= front by {
            assert(rest[i] == points[i + 1]);
        }
        lemma_inserted_all_keeps_front(next, rest, front);
    }
}

/// What goes in is all that is added: the text with its sequences is as long
/// as the text and the sequences together.
pub proof fn lemma_inserted_all_length(text: Seq<char>, points: Seq<Point>)
    ensures
        inserted_all(text, points).len() == text.len() + sequences_length(points),
    decreases points.len(),
{
    if points.len() > 0 {
        lemma_inserted_all_length(
            inserted_at(text, points[0].0, points[0].1),
            points.drop_first(),
        );
    }
}

/// The text with its sequences is as long as the text and the sequences
/// together, wherever the sequences go.
pub proof fn lemma_with_sequences_length(text: Seq<char>, points: Seq<Point>)
    ensures
        with_sequences(text, points).len() == text.len() + sequences_length(points),
{
    lemma_inserted_all_length(text, char_points(text, points));
    lemma_char_points_length(text, points);
}

/// Counting the places in characters leaves the sequences as they are.
pub proof fn lemma_char_points_length(text: Seq<char>, points: Seq<Point>)
    ensures
        sequences_length(char_points(text, points)) == sequences_length(points),
    decreases points.len(),
{
    if points.len() > 0 {
        assert(char_points(text, points).drop_first() =~= char_points(text, points.drop_first()));
        lemma_char_points_length(text, points.drop_first());
    }
}

/// `text` without the `length` characters that went in before the character
/// `index`, or at the end.
pub open spec fn removed_at(text: Seq<char>, index: nat, length: nat) -> Seq<char> {
    let at = if index < text.len() - length {
        index as int
    } else {
        text.len() - length
    };
    text.take(at) + text.skip(at + length)
}

/// `text` without the sequences of `points`, taken out one after the other,
/// the one that went in last first.
pub open spec fn removed_all(text: Seq<char>, points: Seq<Point>) -> Seq<char>
    decreases points.len(),
{
    if points.len() == 0 {
        text
    } else {
        removed_all(
            removed_at(text, points.last().0, points.last().1.len()),
            points.drop_last(),
        )
    }
}

/// Putting in one more sequence after the others is putting it into the text
/// that holds the others.
pub proof fn lemma_inserted_all_push(text: Seq<char>, points: Seq<Point>, point: Point)
    ensures
        inserted_all(text, points.push(point)) == inserted_at(
            inserted_all(text, points),
            point.0,
            point.1,
        ),
    decreases points.len(),
{
    let all = points.push(point);
    if points.len() == 0 {
        assert(all[0] == point);
        assert(all.drop_first() =~= Seq::<Point>::empty());
        reveal_with_fuel(inserted_all, 2);
    } else {
        assert(all[0] == points[0]);
        assert(all.drop_first() =~= points.drop_first().push(point));
        lemma_inserted_all_push(
            inserted_at(text, points[0].0, points[0].1),
            points.drop_first(),
            point,
        );
    }
}

/// Taking out the sequences that went in gives the text back, whatever the
/// text holds and wherever the sequences went: no character of the text is
/// lost, added or moved.
pub proof fn lemma_inserted_all_undone(text: Seq<char>, points: Seq<Point>)
    ensures
        removed_all(inserted_all(text, points), points) == text,
    decreases points.len(),
{
    if points.len() > 0 {
        let front = points.drop_last();
        let last = points.last();
        assert(front.push(last) =~= points);
        lemma_inserted_all_push(text, front, last);
        let before = inserted_all(text, front);
        assert(removed_at(inserted_at(before, last.0, last.1), last.0, last.1.len()) =~= before);
        lemma_inserted_all_undone(text, front);
    }
}

/// Taking the sequences of a line's style ranges out of the styled text,
/// each where it went in, gives the text of the line back, for every text and
/// every range.
pub proof fn lemma_styled_undone(text: Seq<char>, table: Map<u64, Style>, ranges: Seq<StyleRange>)
    ensures
        removed_all(styled(text, table, ranges), char_points(text, style_points(table, ranges)))
            == text,
        styled(text, table, ranges).len() == text.len() + sequences_length(
            style_points(table, ranges),
        ),
{
    lemma_inserted_all_undone(text, char_points(text, style_points(table, ranges)));
    lemma_with_sequences_length(text, style_points(table, ranges));
}

/// A line without style ranges is drawn as it is.
pub proof fn lemma_styled_without_ranges(text: Seq<char>, table: Map<u64, Style>)
    ensures
        styled(text, table, Seq::empty()) == text,
{
}

/// A character is drawn as wide as it counts: what is drawn for the first
/// `index` characters of a text ends at the column of the character `index`.
pub proof fn lemma_escaped_length(text: Seq<char>, index: nat, tab_width: nat)
    requires
        index <= text.len(),
    ensures
        escaped_upto(text, index, tab_width).len() == column_for(text, index, tab_width),
    decreases index,
{
    if index > 0 {
        lemma_escaped_length(text, (index - 1) as nat, tab_width);
    }
}

/// Adds a point to `points`, which are in descending order of their place,
/// before the points of the same index.
pub fn place(points: &mut Vec<(u64, String)>, index: u64, sequence: String)
    ensures
        point_views(final(points)@) == placed(point_views(old(points)@), index as nat, sequence@),
{
    let ghost before = point_views(points@);
    assert(before.skip(0) =~= before);
    assert(before.take(0) + placed(before, index as nat, sequence@) =~= placed(
        before,
        index as nat,
        sequence@,
    ));
    let mut at: usize = 0;
    while at < points.len() && points[at].0 > index
        invariant
            at <= points.len(),
            points@ == old(points)@,
            before == point_views(points@),
            placed(before, index as nat, sequence@) == before.take(at as int) + placed(
                before.skip(at as int),
                index as nat,
                sequence@,
            ),
        decreases points.len() - at,
    {
        let ghost rest = before.skip(at as int);
        assert(rest[0] == before[at as int]);
        assert(rest.drop_first() =~= before.skip(at + 1));
        assert(before.take(at as int) + (seq![rest[0]] + placed(
            rest.drop_first(),
            index as nat,
            sequence@,
        )) =~= before.take(at + 1) + placed(before.skip(at + 1), index as nat, sequence@));
        at = at + 1;
    }
    proof {
        let rest = before.skip(at as int);
        if at < points.len() {
            assert(rest[0] == before[at as int]);
        }
        assert(placed(rest, index as nat, sequence@) == seq![(index as nat, sequence@)] + rest);
    }
    points.insert(at, (index, sequence));
    assert(point_views(points@) =~= before.take(at as int) + (seq![(index as nat, sequence@)]
        + before.skip(at as int)));
}

/// The insertion points of a line's style ranges, in descending order of
/// their index. A range whose style `styles` does not hold is passed over.
pub fn get_style_sequences(styles: &HashMap<u64, Style>, line: &Line) -> (points: Vec<
    (u64, String),
>)
    ensures
        point_views(points@) == style_points(styles@, line@.styles),
{
    let mut points: Vec<(u64, String)> = Vec::new();
    let mut previous_end: u64 = 0;
    let ghost ranges = line@.styles;
    assert(point_views(points@) =~= Seq::empty());
    let mut i: usize = 0;
    while i < line.styles.len()
        invariant
            i <= line.styles.len(),
            ranges == line.styles@,
            previous_end == ranges_end(ranges.take(i as int)),
            point_views(points@) == style_points(styles@, ranges.take(i as int)),
        decreases line.styles.len() - i,
    {
        let range = line.styles[i];
        assert(ranges.take(i + 1).drop_last() =~= ranges.take(i as int));
        assert(ranges.take(i + 1).last() == range);
        let shifted: i128 = previous_end as i128 + range.offset as i128;
        let start: u64 = if shifted < 0 {
            0
        } else if shifted > u64::MAX as i128 {
            u64::MAX
        } else {
            shifted as u64
        };
        let end: u64 = if range.length > u64::MAX - start {
            u64::MAX
        } else {
            start + range.length
        };
        match styles.get(&range.style_id) {
            Some(style) => {
                place(&mut points, start, set_style(style));
                place(&mut points, end, reset_style(style));
            },
            None => {},
        }
        previous_end = end;
        i = i + 1;
    }
    assert(ranges.take(line.styles.len() as int) =~= ranges);
    points
}

/// The number of bytes that `c` takes in UTF-8.
pub fn char_width_utf8(c: char) -> (width: u64)
    ensures
        width == utf8_width(c),
{
    let code = c as u32;
    if code < 0x80 {
        1
    } else if code < 0x800 {
        2
    } else if code < 0x1_0000 {
        3
    } else {
        4
    }
}

/// The character of `chars` in which the byte `offset` lies, counted in
/// characters.
pub fn char_index_of(chars: &Vec<char>, offset: u64) -> (index: usize)
    ensures
        index == char_index(chars@, offset as nat),
        index <= chars.len(),
{
    let mut index: usize = 0;
    let mut left = offset;
    assert(chars@.skip(0) =~= chars@);
    while index < chars.len() && char_width_utf8(chars[index]) <= left
        invariant
            index <= chars.len(),
            left <= offset,
            char_index(chars@, offset as nat) == index + char_index(
                chars@.skip(index as int),
                left as nat,
            ),
        decreases chars.len() - index,
    {
        let ghost rest = chars@.skip(index as int);
        assert(rest[0] == chars@[index as int]);
        assert(rest.drop_first() =~= chars@.skip(index + 1));
        left = left - char_width_utf8(chars[index]);
        index = index + 1;
    }
    proof {
        let rest = chars@.skip(index as int);
        if index < chars.len() {
            assert(rest[0] == chars@[index as int]);
        }
    }
    index
}

/// `text` with the sequences of `points` put in, one after the other, each
/// at its offset in the bytes of `text`.
pub fn insert_sequences(text: &str, points: &Vec<(u64, String)>) -> (result: String)
    ensures
        result@ == with_sequences(text@, point_views(points@)),
{
    let chars = chars_of(text);
    let mut result = text.to_owned();
    let ghost all = char_points(text@, point_views(points@));
    assert(all.skip(0) =~= all);
    let mut i: usize = 0;
    while i < points.len()
        invariant
            i <= points.len(),
            chars@ == text@,
            all == char_points(text@, point_views(points@)),
            result@.len() >= text@.len(),
            inserted_all(text@, all) == inserted_all(result@, all.skip(i as int)),
        decreases points.len() - i,
    {
        let ghost rest = all.skip(i as int);
        assert(rest[0] == (char_index(text@, points[i as int].0 as nat), points[i as int].1@));
        assert(rest.drop_first() =~= all.skip(i + 1));
        let at = char_index_of(&chars, points[i].0);
        let length = result.as_str().unicode_len();
        let mut next = result.as_str().substring_char(0, at).to_owned();
        next.append(points[i].1.as_str());
        next.append(result.as_str().substring_char(at, length));
        assert(next@ =~= inserted_at(result@, rest[0].0, rest[0].1));
        result = next;
        i = i + 1;
    }
    result
}

/// The text of `line` with the escape sequences of its style ranges in it.
pub fn add_styles(styles: &HashMap<u64, Style>, line: &Line) -> (text: String)
    ensures
        text@ == styled(line@.text, styles@, line@.styles),
        line@.styles.len() == 0 ==> text@ == line@.text,
{
    if line.styles.len() == 0 {
        return line.text.clone();
    }
    let points = get_style_sequences(styles, line);
    insert_sequences(line.text.as_str(), &points)
}

/// What is drawn for `text`, with a tab stop every `tab_size` columns: each
/// tab as blanks up to the next stop, each control character as a caret and
/// a letter.
pub fn escape_control(text: &str, tab_size: u16) -> (result: String)
    requires
        tab_size > 0,
    ensures
        result@ == escaped(text@, tab_size as nat),
{
    let mut drawn: Vec<char> = Vec::new();
    for c in it: text.chars()
        invariant
            tab_size > 0,
            it.seq() == text@,
            drawn@ == escaped_upto(text@, it.index() as nat, tab_size as nat),
    {
        proof {
            lemma_escaped_length(text@, it.index() as nat, tab_size as nat);
        }
        let ghost before = drawn@;
        let ghost position = drawn@.len();
        let code = c as u32;
        if c == '\t' {
            let width = translate_char_width(drawn.len() as u64, c, tab_size);
            let mut filled: u16 = 0;
            while filled < width
                invariant
                    filled <= width,
                    drawn@ == before + Seq::new(filled as nat, |i: int| ' '),
                decreases width - filled,
            {
                drawn.push(' ');
                filled = filled + 1;
                assert(drawn@ =~= before + Seq::new(filled as nat, |i: int| ' '));
            }
        } else if code < 0x09 || (0x0a <= code && code <= 0x1f) || code == 0x7f {
            drawn.push('^');
            drawn.push(((c as u8) ^ 0x40u8) as char);
            assert(drawn@ =~= before + seq!['^', caret_letter(c)]);
        } else {
            drawn.push(c);
            assert(drawn@ =~= before + seq![c]);
        }
    }
    let mut result = String::new();
    let mut i: usize = 0;
    while i < drawn.len()
        invariant
            i <= drawn.len(),
            result@ == drawn@.take(i as int),
        decreases drawn.len() - i,
    {
        push_char(&mut result, drawn[i]);
        assert(drawn@.take(i as int).push(drawn[i as int]) =~= drawn@.take(i + 1));
        i = i + 1;
    }
    assert(drawn@.take(drawn.len() as int) =~= drawn@);
    result
}

/// What is drawn for `line`: its text with control characters escaped, and
/// in that the escape sequences of its style ranges.
pub fn escape_control_and_add_styles(styles: &HashMap<u64, Style>, line: &Line, tab_size: u16) -> (text:
    String)
    requires
        tab_size > 0,
    ensures
        text@ == styled(escaped(line@.text, tab_size as nat), styles@, line@.styles),
{
    let drawn = escape_control(line.text.as_str(), tab_size);
    if line.styles.len() == 0 {
        return drawn;
    }
    let points = get_style_sequences(styles, line);
    insert_sequences(drawn.as_str(), &points)
}

} // verus!
