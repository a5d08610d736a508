//! Taking escape sequences out of a text again.
//!
//! An escape sequence starts with the escape character and ends with the
//! first letter after it. What is left of a text when its escape sequences
//! are taken out is what a terminal shows of it. The sequences that style a
//! line are of this form and go in between the characters of the text, so
//! taking them out gives the text back.

use vstd::prelude::*;
use crate::column::{column_for, is_control};
use crate::compose::{
    caret_letter, char_points, descending, escaped, escaped_char, escaped_upto, inserted_all,
    inserted_at, lemma_char_index_bound, lemma_char_index_monotonic, lemma_placed_descending,
    lemma_style_points_descending, placed, range_end, range_start, ranges_end, style_points,
    styled, with_sequences, Point,
};
use crate::line::StyleRange;
use crate::style::{
    bg_sequence, color_parts, fg_sequence, reset_sequence, rgb_parameters, set_sequence, Style,
};
use crate::text::{decimal, digit, push_char};

verus! {

broadcast use vstd::string::group_string_axioms;

/// Whether `c` is the escape character.
pub open spec fn is_escape(c: char) -> bool {
    c == '\x1b'
}

/// Whether `c` ends an escape sequence: a letter.
pub open spec fn is_final(c: char) -> bool {
    ('a' <= c && c <= 'z') || ('A' <= c && c <= 'Z')
}

/// Whether a reader that is inside an escape sequence, or not, is inside one
/// after the character `c`.
pub open spec fn inside_after(inside: bool, c: char) -> bool {
    if inside {
        !is_final(c)
    } else {
        is_escape(c)
    }
}

/// Whether a reader that starts inside an escape sequence, or not, is inside
/// one at the end of `text`.
pub open spec fn ends_inside(text: Seq<char>, inside: bool) -> bool
    decreases text.len(),
{
    if text.len() == 0 {
        inside
    } else {
        ends_inside(text.drop_first(), inside_after(inside, text[0]))
    }
}

/// What is left of `text` without its escape sequences, for a reader that
/// starts inside an escape sequence, or not.
pub open spec fn visible_from(text: Seq<char>, inside: bool) -> Seq<char>
    decreases text.len(),
{
    if text.len() == 0 {
        Seq::empty()
    } else if inside || is_escape(text[0]) {
        visible_from(text.drop_first(), inside_after(inside, text[0]))
    } else {
        seq![text[0]] + visible_from(text.drop_first(), false)
    }
}

/// What is left of `text` without its escape sequences.
pub open spec fn visible(text: Seq<char>) -> Seq<char> {
    visible_from(text, false)
}

/// Whether `text` is made of whole escape sequences and nothing else.
pub open spec fn is_sequence(text: Seq<char>) -> bool {
    visible(text).len() == 0 && !ends_inside(text, false)
}

/// Whether `text` holds no escape character.
pub open spec fn is_plain(text: Seq<char>) -> bool {
    forall|i: int| 0 <= i < text.len() ==> !is_escape(#[trigger] text[i])
}

/// Reading two texts one after the other is reading the second from where
/// the first ends.
pub proof fn lemma_visible_concat(first: Seq<char>, second: Seq<char>, inside: bool)
    ensures
        visible_from(first + second, inside) == visible_from(first, inside) + visible_from(
            second,
            ends_inside(first, inside),
        ),
        ends_inside(first + second, inside) == ends_inside(second, ends_inside(first, inside)),
    decreases first.len(),
{
    if first.len() == 0 {
        assert(first + second =~= second);
        assert(visible_from(first, inside) + visible_from(second, inside) =~= visible_from(
            second,
            inside,
        ));
    } else {
        let next = inside_after(inside, first[0]);
        assert((first + second).drop_first() =~= first.drop_first() + second);
        lemma_visible_concat(first.drop_first(), second, next);
        if !(inside || is_escape(first[0])) {
            assert(seq![first[0]] + (visible_from(first.drop_first(), false) + visible_from(
                second,
                ends_inside(first.drop_first(), false),
            )) =~= (seq![first[0]] + visible_from(first.drop_first(), false)) + visible_from(
                second,
                ends_inside(first.drop_first(), false),
            ));
        }
    }
}

/// A text without escape characters is left as it is.
pub proof fn lemma_visible_plain(text: Seq<char>)
    requires
        is_plain(text),
    ensures
        visible(text) == text,
        !ends_inside(text, false),
    decreases text.len(),
{
    if text.len() > 0 {
        assert(!is_escape(text[0]));
        assert forall|i: int| 0 <= i < text.drop_first().len() implies !is_escape(
            #[trigger] text.drop_first()[i],
        ) by {
            assert(text.drop_first()[i] == text[i + 1]);
        }
        lemma_visible_plain(text.drop_first());
        assert(seq![text[0]] + text.drop_first() =~= text);
    }
}

/// Inside an escape sequence nothing is shown, and the sequence goes on,
/// until a letter comes.
pub proof fn lemma_visible_parameters(text: Seq<char>)
    requires
        forall|i: int| 0 <= i < text.len() ==> !is_final(#[trigger] text[i]),
    ensures
        visible_from(text, true).len() == 0,
        ends_inside(text, true),
    decreases text.len(),
{
    if text.len() > 0 {
        assert(!is_final(text[0]));
        assert forall|i: int| 0 <= i < text.drop_first().len() implies !is_final(
            #[trigger] text.drop_first()[i],
        ) by {
            assert(text.drop_first()[i] == text[i + 1]);
        }
        lemma_visible_parameters(text.drop_first());
    }
}

/// The escape character, a bracket, parameters without a letter among them,
/// and a letter make one whole escape sequence.
pub proof fn lemma_control_sequence(parameters: Seq<char>, last: char)
    requires
        forall|i: int| 0 <= i < parameters.len() ==> !is_final(#[trigger] parameters[i]),
        is_final(last),
    ensures
        is_sequence(seq!['\x1b', '['] + parameters + seq![last]),
{
    let head = seq!['\x1b', '['];
    let tail = seq![last];
    assert(visible_from(head, false).len() == 0 && ends_inside(head, false)) by {
        reveal_with_fuel(visible_from, 3);
        reveal_with_fuel(ends_inside, 3);
        assert(head.drop_first() =~= seq!['[']);
        assert(head.drop_first().drop_first() =~= Seq::<char>::empty());
    }
    assert(visible_from(tail, true).len() == 0 && !ends_inside(tail, true)) by {
        reveal_with_fuel(visible_from, 2);
        reveal_with_fuel(ends_inside, 2);
        assert(tail.drop_first() =~= Seq::<char>::empty());
    }
    lemma_visible_parameters(parameters);
    lemma_visible_concat(head, parameters, false);
    lemma_visible_concat(head + parameters, tail, false);
}

/// Whole escape sequences one after the other are whole escape sequences.
pub proof fn lemma_sequence_concat(first: Seq<char>, second: Seq<char>)
    requires
        is_sequence(first),
        is_sequence(second),
    ensures
        is_sequence(first + second),
{
    lemma_visible_concat(first, second, false);
}

/// A number in decimal is made of digits.
pub proof fn lemma_decimal_digits(value: nat)
    ensures
        forall|i: int|
            0 <= i < decimal(value).len() ==> '0' <= #[trigger] decimal(value)[i] <= '9',
    decreases value,
{
    let last = digit(value % 10);
    assert('0' <= last <= '9') by {
        let code = (48 + value % 10) as u8;
        assert(48 <= code <= 57);
        assert(code as char as u32 == code as u32);
    }
    if value >= 10 {
        lemma_decimal_digits(value / 10);
        assert forall|i: int| 0 <= i < decimal(value).len() implies '0' <= #[trigger] decimal(
            value,
        )[i] <= '9' by {
            if i < decimal(value / 10).len() {
                assert(decimal(value)[i] == decimal(value / 10)[i]);
            } else {
                assert(decimal(value)[i] == last);
            }
        }
    } else {
        assert(decimal(value) =~= seq![last]);
    }
}

/// The parameters of a true color hold no letter.
proof fn lemma_rgb_parameters(red: u8, green: u8, blue: u8)
    ensures
        forall|i: int|
            0 <= i < rgb_parameters(red, green, blue).len() ==> !is_final(
                #[trigger] rgb_parameters(red, green, blue)[i],
            ),
{
    lemma_decimal_digits(red as nat);
    lemma_decimal_digits(green as nat);
    lemma_decimal_digits(blue as nat);
}

/// The sequence that switches a style on is made of whole escape sequences,
/// and so is the sequence that switches it off.
pub proof fn lemma_style_sequences(style: Style)
    ensures
        is_sequence(set_sequence(style)),
        is_sequence(reset_sequence(style)),
{
    let nothing = Seq::<char>::empty();
    assert(is_sequence(nothing));
    reveal_strlit("\x1b[7m");
    reveal_strlit("\x1b[0m");
    reveal_strlit("\x1b[3m");
    reveal_strlit("\x1b[23m");
    reveal_strlit("\x1b[4m");
    reveal_strlit("\x1b[24m");
    reveal_strlit("\x1b[39m");
    reveal_strlit("\x1b[49m");
    reveal_strlit("\x1b[38;2;");
    reveal_strlit("\x1b[48;2;");
    lemma_control_sequence(seq!['7'], 'm');
    assert("\x1b[7m"@ =~= seq!['\x1b', '['] + seq!['7'] + seq!['m']);
    lemma_control_sequence(seq!['0'], 'm');
    assert("\x1b[0m"@ =~= seq!['\x1b', '['] + seq!['0'] + seq!['m']);
    lemma_control_sequence(seq!['3'], 'm');
    assert("\x1b[3m"@ =~= seq!['\x1b', '['] + seq!['3'] + seq!['m']);
    lemma_control_sequence(seq!['2', '3'], 'm');
    assert("\x1b[23m"@ =~= seq!['\x1b', '['] + seq!['2', '3'] + seq!['m']);
    lemma_control_sequence(seq!['4'], 'm');
    assert("\x1b[4m"@ =~= seq!['\x1b', '['] + seq!['4'] + seq!['m']);
    lemma_control_sequence(seq!['2', '4'], 'm');
    assert("\x1b[24m"@ =~= seq!['\x1b', '['] + seq!['2', '4'] + seq!['m']);
    lemma_control_sequence(seq!['3', '9'], 'm');
    assert("\x1b[39m"@ =~= seq!['\x1b', '['] + seq!['3', '9'] + seq!['m']);
    lemma_control_sequence(seq!['4', '9'], 'm');
    assert("\x1b[49m"@ =~= seq!['\x1b', '['] + seq!['4', '9'] + seq!['m']);
    let fg = match style.fg_color {
        Some(color) => {
            let parts = color_parts(color);
            fg_sequence(parts.0, parts.1, parts.2)
        },
        None => nothing,
    };
    if let Some(color) = style.fg_color {
        let parts = color_parts(color);
        let parameters = seq!['3', '8', ';', '2', ';'] + rgb_parameters(parts.0, parts.1, parts.2);
        lemma_rgb_parameters(parts.0, parts.1, parts.2);
        lemma_control_sequence(parameters, 'm');
        assert(fg =~= seq!['\x1b', '['] + parameters + seq!['m']);
    }
    let bg = if style.bg_color != 0 {
        let parts = color_parts(style.bg_color);
        bg_sequence(parts.0, parts.1, parts.2)
    } else {
        nothing
    };
    if style.bg_color != 0 {
        let parts = color_parts(style.bg_color);
        let parameters = seq!['4', '8', ';', '2', ';'] + rgb_parameters(parts.0, parts.1, parts.2);
        lemma_rgb_parameters(parts.0, parts.1, parts.2);
        lemma_control_sequence(parameters, 'm');
        assert(bg =~= seq!['\x1b', '['] + parameters + seq!['m']);
    }
    if style.id != 0 {
        let italic = if style.italic {
            "\x1b[3m"@
        } else {
            nothing
        };
        let underline = if style.underline {
            "\x1b[4m"@
        } else {
            nothing
        };
        lemma_sequence_concat(fg, bg);
        lemma_sequence_concat(fg + bg, italic);
        lemma_sequence_concat(fg + bg + italic, underline);
        let fg_off = if style.fg_color is Some {
            "\x1b[39m"@
        } else {
            nothing
        };
        let bg_off = if style.bg_color != 0 {
            "\x1b[49m"@
        } else {
            nothing
        };
        let italic_off = if style.italic {
            "\x1b[23m"@
        } else {
            nothing
        };
        let underline_off = if style.underline {
            "\x1b[24m"@
        } else {
            nothing
        };
        lemma_sequence_concat(fg_off, bg_off);
        lemma_sequence_concat(fg_off + bg_off, italic_off);
        lemma_sequence_concat(fg_off + bg_off + italic_off, underline_off);
    }
}

/// Whether every point of `points` holds whole escape sequences.
pub open spec fn whole_sequences(points: Seq<Point>) -> bool {
    forall|i: int| 0 <= i < points.len() ==> is_sequence((#[trigger] points[i]).1)
}

/// The insertion points of a line hold whole escape sequences.
pub proof fn lemma_style_points_whole(table: Map<u64, Style>, ranges: Seq<StyleRange>)
    ensures
        whole_sequences(style_points(table, ranges)),
    decreases ranges.len(),
{
    if ranges.len() > 0 {
        lemma_style_points_whole(table, ranges.drop_last());
        lemma_style_points_descending(table, ranges.drop_last());
        let earlier = style_points(table, ranges.drop_last());
        let range = ranges.last();
        let previous_end = ranges_end(ranges.drop_last());
        if table.contains_key(range.style_id) {
            let style = table[range.style_id];
            lemma_style_sequences(style);
            let start = range_start(previous_end, range);
            let end = range_end(previous_end, range);
            let with_start = placed(earlier, start, set_sequence(style));
            lemma_placed_whole(earlier, start, set_sequence(style));
            lemma_placed_descending(earlier, start, set_sequence(style));
            lemma_placed_whole(with_start, end, reset_sequence(style));
        }
    }
}

/// Points that hold whole escape sequences still do when one more such
/// point is placed.
pub proof fn lemma_placed_whole(points: Seq<Point>, index: nat, sequence: Seq<char>)
    requires
        whole_sequences(points),
        is_sequence(sequence),
    ensures
        whole_sequences(placed(points, index, sequence)),
        placed(points, index, sequence).len() == points.len() + 1,
    decreases points.len(),
{
    let result = placed(points, index, sequence);
    if points.len() == 0 || points[0].0 <= index {
        assert forall|i: int| 0 <= i < result.len() implies is_sequence(
            (#[trigger] result[i]).1,
        ) by {
            if i > 0 {
                assert(result[i] == points[i - 1]);
            }
        }
    } else {
        let rest = points.drop_first();
        assert forall|i: int| 0 <= i < rest.len() implies is_sequence((#[trigger] rest[i]).1) by {
            assert(rest[i] == points[i + 1]);
        }
        lemma_placed_whole(rest, index, sequence);
        let tail = placed(rest, index, sequence);
        assert forall|i: int| 0 <= i < result.len() implies is_sequence(
            (#[trigger] result[i]).1,
        ) by {
            if i == 0 {
                assert(result[0] == points[0]);
            } else {
                assert(result[i] == tail[i - 1]);
            }
        }
    }
}

/// Whole escape sequences that go into a text from the back to the front,
/// each at a place in the part of the text that holds no escape character, do
/// not change what is left of the text without its escape sequences.
pub proof fn lemma_inserted_all_visible(text: Seq<char>, plain: nat, points: Seq<Point>)
    requires
        plain <= text.len(),
        is_plain(text.take(plain as int)),
        descending(points),
        whole_sequences(points),
        forall|i: int| 0 <= i < points.len() ==> (#[trigger] points[i]).0 <= plain,
    ensures
        visible(inserted_all(text, points)) == visible(text),
    decreases points.len(),
{
    if points.len() > 0 {
        let at = points[0].0;
        let sequence = points[0].1;
        let before = text.take(at as int);
        let after = text.skip(at as int);
        let next = inserted_at(text, at, sequence);
        assert(next == before + sequence + after);
        assert forall|i: int| 0 <= i < before.len() implies !is_escape(#[trigger] before[i]) by {
            assert(before[i] == text.take(plain as int)[i]);
        }
        lemma_visible_plain(before);
        lemma_visible_concat(before, sequence, false);
        lemma_visible_concat(before + sequence, after, false);
        lemma_visible_concat(before, after, false);
        assert(before + after =~= text);
        assert(visible(next) =~= visible(text));
        let rest = points.drop_first();
        assert(next.take(at as int) =~= before);
        assert forall|i: int| 0 <= i < rest.len() implies (#[trigger] rest[i]).0 <= at by {
            assert(rest[i] == points[i + 1]);
        }
        assert forall|i: int| 0 <= i < rest.len() implies is_sequence((#[trigger] rest[i]).1) by {
            assert(rest[i] == points[i + 1]);
        }
        assert forall|i: int, j: int| 0 <= i <= j < rest.len() implies rest[i].0 >= rest[j].0 by {
            assert(rest[i] == points[i + 1]);
            assert(rest[j] == points[j + 1]);
        }
        lemma_inserted_all_visible(next, at, rest);
    }
}

/// Whole escape sequences that go into a text without escape characters,
/// from the back to the front, can be taken out again: what is left is the
/// text. The places need not lie in the text.
pub proof fn lemma_with_sequences_visible(text: Seq<char>, points: Seq<Point>)
    requires
        is_plain(text),
        descending(points),
        whole_sequences(points),
    ensures
        visible(with_sequences(text, points)) == text,
{
    let places = char_points(text, points);
    assert forall|i: int, j: int| 0 <= i <= j < places.len() implies places[i].0
        >= places[j].0 by {
        lemma_char_index_monotonic(text, points[j].0, points[i].0);
    }
    assert forall|i: int| 0 <= i < places.len() implies (#[trigger] places[i]).0
        <= text.len() && is_sequence(places[i].1) by {
        lemma_char_index_bound(text, points[i].0);
        assert(is_sequence(points[i].1));
    }
    assert(text.take(text.len() as int) =~= text);
    lemma_inserted_all_visible(text, text.len(), places);
    lemma_visible_plain(text);
}

/// Taking the escape sequences out of a styled text gives the text back,
/// wherever its style ranges lie. This holds of a text without escape
/// characters.
pub proof fn lemma_styled_strips_to_text(
    text: Seq<char>,
    table: Map<u64, Style>,
    ranges: Seq<StyleRange>,
)
    requires
        is_plain(text),
    ensures
        visible(styled(text, table, ranges)) == text,
{
    lemma_style_points_descending(table, ranges);
    lemma_style_points_whole(table, ranges);
    lemma_with_sequences_visible(text, style_points(table, ranges));
}

/// What is drawn for a text holds no escape character: the escape character
/// is drawn as a caret and a bracket.
pub proof fn lemma_escaped_is_plain(text: Seq<char>, index: nat, tab_width: nat)
    requires
        index <= text.len(),
    ensures
        is_plain(escaped_upto(text, index, tab_width)),
    decreases index,
{
    if index > 0 {
        lemma_escaped_is_plain(text, (index - 1) as nat, tab_width);
        let c = text[index - 1];
        let drawn = escaped_char(column_for(text, (index - 1) as nat, tab_width), c, tab_width);
        assert forall|i: int| 0 <= i < drawn.len() implies !is_escape(#[trigger] drawn[i]) by {
            if c != '\t' && is_control(c) {
                lemma_caret_letter(c);
            }
        }
    }
}

/// The letter that stands for a control character is not the escape
/// character.
proof fn lemma_caret_letter(c: char)
    requires
        is_control(c),
    ensures
        !is_escape(caret_letter(c)),
{
    let code = c as u8;
    assert(code < 0x09 || (0x0a <= code && code <= 0x1f) || code == 0x7f);
    assert((code ^ 0x40) != 0x1b) by (bit_vector)
        requires
            code < 0x09 || (0x0a <= code && code <= 0x1f) || code == 0x7f,
    ;
}

/// Taking the escape sequences out of what is drawn for a line gives what is
/// drawn for its text alone, whatever the text and wherever its style ranges
/// lie.
pub proof fn lemma_drawn_strips_to_escaped(
    text: Seq<char>,
    tab_width: nat,
    table: Map<u64, Style>,
    ranges: Seq<StyleRange>,
)
    ensures
        visible(styled(escaped(text, tab_width), table, ranges)) == escaped(text, tab_width),
{
    lemma_escaped_is_plain(text, text.len(), tab_width);
    lemma_styled_strips_to_text(escaped(text, tab_width), table, ranges);
}

/// `text` without its escape sequences.
pub fn strip_sequences(text: &str) -> (shown: String)
    ensures
        shown@ == visible(text@),
{
    let mut shown = String::new();
    let mut inside = false;
    let ghost all = text@;
    for c in it: text.chars()
        invariant
            it.seq() == text@,
            all == text@,
            inside == ends_inside(all.take(it.index()), false),
            shown@ == visible(all.take(it.index())),
    {
        let ghost read = all.take(it.index());
        proof {
            lemma_visible_concat(read, seq![c], false);
            reveal_with_fuel(visible_from, 2);
            reveal_with_fuel(ends_inside, 2);
            assert(seq![c].drop_first() =~= Seq::<char>::empty());
            assert(read + seq![c] =~= all.take(it.index() + 1));
        }
        if inside {
            if (c >= 'a' && c <= 'z') || (c >= 'A' && c <= 'Z') {
                inside = false;
            }
        } else if c == '\x1b' {
            inside = true;
        } else {
            push_char(&mut shown, c);
        }
        assert(shown@ =~= visible(all.take(it.index() + 1)));
    }
    assert(all.take(all.len() as int) =~= all);
    shown
}

} // verus!
