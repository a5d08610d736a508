//! Building text: characters and decimal numbers.

use vstd::prelude::*;

verus! {

broadcast use vstd::string::group_string_axioms;

/// The character of the decimal digit `value`.
pub open spec fn digit(value: nat) -> char
    recommends
        value < 10,
{
    (48 + value) as u8 as char
}

/// `value` in decimal, without leading zeros.
pub open spec fn decimal(value: nat) -> Seq<char>
    decreases value,
{
    if value < 10 {
        seq![digit(value)]
    } else {
        decimal(value / 10).push(digit(value % 10))
    }
}

/// `String::push`: adds the character `c` at the end of `text`.
#[verifier::external_body]
pub(crate) fn push_char(text: &mut String, c: char)
    ensures
        final(text)@ == old(text)@.push(c),
{
    text.push(c)
}

/// Adds `value`, in decimal, at the end of `text`.
pub fn push_decimal(text: &mut String, value: u64)
    ensures
        final(text)@ == old(text)@ + decimal(value as nat),
    decreases value,
{
    if value >= 10 {
        push_decimal(text, value / 10);
    }
    let last = (48 + (value % 10) as u8) as char;
    push_char(text, last);
    assert(text@ =~= old(text)@ + decimal(value as nat));
}

/// The number of digits of `value` in decimal.
pub fn decimal_length(value: u64) -> (length: u16)
    ensures
        length == decimal(value as nat).len(),
        1 <= length <= 20,
{
    let mut length: u16 = 1;
    let mut rest = value;
    assert(rest as nat * pow10(0) == rest) by (nonlinear_arith)
        requires
            pow10(0) == 1,
    ;
    while rest >= 10
        invariant
            1 <= length <= 20,
            decimal(value as nat).len() == decimal(rest as nat).len() + length - 1,
            rest as nat * pow10((length - 1) as nat) <= u64::MAX,
        decreases rest,
    {
        assert(rest as nat * pow10((length - 1) as nat) >= 10 * pow10((length - 1) as nat))
            by (nonlinear_arith)
            requires
                rest >= 10,
        ;
        assert((rest / 10) as nat * pow10(length as nat) <= rest as nat * pow10(
            (length - 1) as nat,
        )) by (nonlinear_arith)
            requires
                pow10(length as nat) == 10 * pow10((length - 1) as nat),
        ;
        proof {
            lemma_pow10_grows();
            if length >= 20 {
                lemma_pow10_monotonic(20, length as nat);
            }
        }
        rest = rest / 10;
        length = length + 1;
    }
    length
}

/// Ten to the power `exponent`.
pub open spec fn pow10(exponent: nat) -> nat
    decreases exponent,
{
    if exponent == 0 {
        1
    } else {
        10 * pow10((exponent - 1) as nat)
    }
}

/// Ten to the power twenty is more than a 64-bit number holds.
proof fn lemma_pow10_grows()
    ensures
        pow10(20) > u64::MAX,
{
    reveal_with_fuel(pow10, 21);
}

/// A higher power of ten is no less.
proof fn lemma_pow10_monotonic(low: nat, high: nat)
    requires
        low <= high,
    ensures
        pow10(low) <= pow10(high),
    decreases high,
{
    if low < high {
        lemma_pow10_monotonic(low, (high - 1) as nat);
    }
}

/// Whether two texts are the same.
pub fn same_text(text: &str, other: &str) -> (same: bool)
    ensures
        same == (text@ == other@),
{
    text.to_owned() == other.to_owned()
}

/// The characters of `text`.
pub fn chars_of(text: &str) -> (chars: Vec<char>)
    ensures
        chars@ == text@,
{
    let mut chars: Vec<char> = Vec::new();
    for c in it: text.chars()
        invariant
            it.seq() == text@,
            chars@ == text@.take(it.index()),
    {
        chars.push(c);
        assert(text@.take(it.index()).push(c) =~= text@.take(it.index() + 1));
    }
    assert(text@.take(text@.len() as int) =~= text@);
    chars
}

/// The text that the characters `chars[from..to]` make.
pub fn text_of(chars: &Vec<char>, from: usize, to: usize) -> (text: String)
    requires
        from <= to <= chars.len(),
    ensures
        text@ == chars@.subrange(from as int, to as int),
{
    let mut text = String::new();
    let mut i = from;
    while i < to
        invariant
            from <= i <= to <= chars.len(),
            text@ == chars@.subrange(from as int, i as int),
        decreases to - i,
    {
        push_char(&mut text, chars[i]);
        assert(chars@.subrange(from as int, i as int).push(chars[i as int]) =~= chars@.subrange(
            from as int,
            i + 1,
        ));
        i = i + 1;
    }
    text
}

/// The index of the first `separator` in `text` at or after `from`; the
/// length of the text when there is none.
pub open spec fn next_separator(text: Seq<char>, separator: char, from: nat) -> nat
    decreases text.len() - from,
{
    if from >= text.len() {
        text.len()
    } else if text[from as int] == separator {
        from
    } else {
        next_separator(text, separator, from + 1)
    }
}

/// The pieces of `text` between the separators, from the character `from`
/// on. There is always at least one piece; two separators in a row have an
/// empty piece between them.
pub open spec fn pieces_from(text: Seq<char>, separator: char, from: nat) -> Seq<Seq<char>>
    decreases text.len() - from,
{
    let end = next_separator(text, separator, from);
    if from > text.len() || end < from {
        Seq::empty()
    } else if end >= text.len() {
        seq![text.subrange(from as int, text.len() as int)]
    } else {
        seq![text.subrange(from as int, end as int)] + pieces_from(text, separator, end + 1)
    }
}

/// The pieces of `text` between the separators.
pub open spec fn pieces(text: Seq<char>, separator: char) -> Seq<Seq<char>> {
    pieces_from(text, separator, 0)
}

/// What `texts` hold.
pub open spec fn text_views(texts: Seq<String>) -> Seq<Seq<char>> {
    texts.map_values(|text: String| text@)
}

/// The first separator at or after `from` lies between `from` and the end of
/// the text, and no character before it is a separator.
pub proof fn lemma_next_separator(text: Seq<char>, separator: char, from: nat)
    requires
        from <= text.len(),
    ensures
        from <= next_separator(text, separator, from) <= text.len(),
        next_separator(text, separator, from) < text.len() ==> text[next_separator(
            text,
            separator,
            from,
        ) as int] == separator,
        forall|i: int|
            from <= i < next_separator(text, separator, from) ==> text[i] != separator,
    decreases text.len() - from,
{
    if from < text.len() && text[from as int] != separator {
        lemma_next_separator(text, separator, from + 1);
    }
}

/// The index of the first `separator` at or after `from`; the number of
/// characters when there is none.
fn find_separator(chars: &Vec<char>, separator: char, from: usize) -> (end: usize)
    requires
        from <= chars.len(),
    ensures
        end == next_separator(chars@, separator, from as nat),
        from <= end <= chars.len(),
{
    let mut end = from;
    while end < chars.len() && chars[end] != separator
        invariant
            from <= end <= chars.len(),
            next_separator(chars@, separator, from as nat) == next_separator(
                chars@,
                separator,
                end as nat,
            ),
        decreases chars.len() - end,
    {
        end = end + 1;
    }
    end
}

/// Splits `text` at each `separator`.
pub fn split(text: &str, separator: char) -> (parts: Vec<String>)
    ensures
        text_views(parts@) == pieces(text@, separator),
        parts.len() >= 1,
{
    let chars = chars_of(text);
    let mut parts: Vec<String> = Vec::new();
    let mut from: usize = 0;
    assert(text_views(parts@) =~= Seq::empty());
    loop
        invariant
            chars@ == text@,
            from <= chars.len(),
            pieces(text@, separator) == text_views(parts@) + pieces_from(
                text@,
                separator,
                from as nat,
            ),
        decreases chars.len() - from,
    {
        let end = find_separator(&chars, separator, from);
        let piece = text_of(&chars, from, end);
        let ghost before = text_views(parts@);
        parts.push(piece);
        assert(text_views(parts@) =~= before + seq![piece@]);
        if end >= chars.len() {
            assert(before + seq![piece@] =~= pieces(text@, separator));
            return parts;
        }
        assert(before + (seq![piece@] + pieces_from(text@, separator, (end + 1) as nat))
            =~= text_views(parts@) + pieces_from(text@, separator, (end + 1) as nat));
        from = end + 1;
    }
}

/// The part of `text` before its first `separator`, and the part after it if
/// there is a separator.
pub open spec fn halves(text: Seq<char>, separator: char) -> (Seq<char>, Option<Seq<char>>) {
    let end = next_separator(text, separator, 0);
    if end >= text.len() {
        (text, None)
    } else {
        (text.subrange(0, end as int), Some(text.subrange(end as int + 1, text.len() as int)))
    }
}

/// Splits `text` at its first `separator`.
pub fn split_once(text: &str, separator: char) -> (parts: (String, Option<String>))
    ensures
        parts.0@ == halves(text@, separator).0,
        match halves(text@, separator).1 {
            Some(rest) => parts.1 is Some && parts.1->0@ == rest,
            None => parts.1 is None,
        },
{
    let chars = chars_of(text);
    let end = find_separator(&chars, separator, 0);
    if end >= chars.len() {
        assert(chars@.subrange(0, chars.len() as int) =~= text@);
        (text_of(&chars, 0, chars.len()), None)
    } else {
        (text_of(&chars, 0, end), Some(text_of(&chars, end + 1, chars.len())))
    }
}

/// The number that `text` stands for in decimal: digits only, after a plus
/// sign if there is one, and at least one digit. `None` for any other text.
pub open spec fn number(text: Seq<char>) -> Option<nat> {
    let digits = if text.len() > 0 && text[0] == '+' {
        text.drop_first()
    } else {
        text
    };
    if digits.len() == 0 {
        None
    } else {
        digits_value(digits)
    }
}

/// Whether `c` is a decimal digit.
pub open spec fn is_digit(c: char) -> bool {
    '0' <= c <= '9'
}

/// The value of the decimal digits `digits`; `None` when one of them is not
/// a digit. No digits stand for zero.
pub open spec fn digits_value(digits: Seq<char>) -> Option<nat>
    decreases digits.len(),
{
    if digits.len() == 0 {
        Some(0)
    } else if !is_digit(digits.last()) {
        None
    } else {
        match digits_value(digits.drop_last()) {
            Some(value) => Some(value * 10 + (digits.last() as u8 - 48) as nat),
            None => None,
        }
    }
}

/// Reads `text` as a decimal number that is at most `limit`.
pub fn parse_number(text: &str, limit: u64) -> (value: Option<u64>)
    ensures
        value == (match number(text@) {
            Some(n) => if n <= limit {
                Some(n as u64)
            } else {
                None
            },
            None => None::<u64>,
        }),
{
    let chars = chars_of(text);
    let first: usize = if chars.len() > 0 && chars[0] == '+' {
        1
    } else {
        0
    };
    if first >= chars.len() {
        return None;
    }
    let ghost digits = chars@.subrange(first as int, chars.len() as int);
    assert(digits =~= if first == 1 {
        chars@.drop_first()
    } else {
        chars@
    });
    let mut value: u64 = 0;
    let mut over = false;
    let mut i = first;
    while i < chars.len()
        invariant
            first <= i <= chars.len(),
            first < chars.len(),
            digits == chars@.subrange(first as int, chars.len() as int),
            number(text@) == digits_value(digits),
            match digits_value(digits.take(i - first)) {
                Some(n) => if over {
                    n > limit
                } else {
                    n == value && value <= limit
                },
                None => false,
            },
        decreases chars.len() - i,
    {
        let c = chars[i];
        assert(digits.take(i + 1 - first).drop_last() =~= digits.take(i - first));
        assert(digits.take(i + 1 - first).last() == c);
        if c < '0' || c > '9' {
            proof {
                assert(digits_value(digits.take(i + 1 - first)) is None);
                lemma_digits_value_prefix(digits, (i + 1 - first) as nat);
            }
            return None;
        }
        let last = (c as u8 - 48) as u64;
        if !over {
            if last > limit || value > (limit - last) / 10 {
                over = true;
            } else {
                value = value * 10 + last;
            }
        }
        i = i + 1;
    }
    assert(digits.take(chars.len() - first) =~= digits);
    if over {
        None
    } else {
        Some(value)
    }
}

/// Digits that do not stand for a number do not stand for one when more
/// characters follow.
pub proof fn lemma_digits_value_prefix(digits: Seq<char>, length: nat)
    requires
        length <= digits.len(),
        digits_value(digits.take(length as int)) is None,
    ensures
        digits_value(digits) is None,
    decreases digits.len(),
{
    if length < digits.len() {
        assert(digits.drop_last().take(length as int) =~= digits.take(length as int));
        lemma_digits_value_prefix(digits.drop_last(), length);
    } else {
        assert(digits.take(length as int) =~= digits);
    }
}

/// Whether `text` starts with `prefix`.
pub open spec fn starts_with(text: Seq<char>, prefix: Seq<char>) -> bool {
    prefix.len() <= text.len() && text.take(prefix.len() as int) == prefix
}

/// Whether `text` starts with the characters `prefix`.
pub fn has_char_prefix(text: &str, prefix: &Vec<char>) -> (found: bool)
    ensures
        found == starts_with(text@, prefix@),
{
    let chars = chars_of(text);
    if prefix.len() > chars.len() {
        return false;
    }
    let mut i: usize = 0;
    while i < prefix.len()
        invariant
            i <= prefix.len() <= chars.len(),
            chars@ == text@,
            chars@.take(i as int) == prefix@.take(i as int),
        decreases prefix.len() - i,
    {
        if chars[i] != prefix[i] {
            assert(chars@.take(prefix.len() as int)[i as int] != prefix@[i as int]);
            return false;
        }
        assert(chars@.take(i + 1) =~= chars@.take(i as int).push(chars[i as int]));
        assert(prefix@.take(i + 1) =~= prefix@.take(i as int).push(prefix[i as int]));
        i = i + 1;
    }
    assert(prefix@.take(prefix.len() as int) =~= prefix@);
    true
}

/// Whether `text` starts with `prefix`.
pub fn has_prefix(text: &str, prefix: &str) -> (found: bool)
    ensures
        found == starts_with(text@, prefix@),
{
    let chars = chars_of(prefix);
    has_char_prefix(text, &chars)
}

/// Whether the character `c` occurs in `text`.
pub fn contains_char(text: &str, c: char) -> (found: bool)
    ensures
        found == text@.contains(c),
{
    let chars = chars_of(text);
    let mut i: usize = 0;
    while i < chars.len()
        invariant
            i <= chars.len(),
            chars@ == text@,
            forall|j: int| 0 <= j < i ==> chars[j] != c,
        decreases chars.len() - i,
    {
        if chars[i] == c {
            assert(chars@[i as int] == c);
            return true;
        }
        i = i + 1;
    }
    false
}

} // verus!
