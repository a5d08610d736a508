//! Styles, and the escape sequences that switch them on and off.

use vstd::prelude::*;
use vstd::string::StringExecFns;
use crate::text::decimal;

verus! {

/// The display attributes that the back-end defines under a style id.
///
/// Colors are ARGB values. A `bg_color` of zero stands for no background
/// color. The style with the id zero is the selection: it is drawn with
/// colors inverted, whatever its other attributes say.
#[derive(Clone, Copy, Debug, PartialEq, Eq)]
pub struct Style {
    pub id: u64,
    pub fg_color: Option<u32>,
    pub bg_color: u32,
    pub weight: u32,
    pub italic: bool,
    pub underline: bool,
}

impl Default for Style {
    fn default() -> (style: Self)
        ensures
            style == (Style {
                id: 0,
                fg_color: None,
                bg_color: 0,
                weight: 0,
                italic: false,
                underline: false,
            }),
    {
        Style { id: 0, fg_color: None, bg_color: 0, weight: 0, italic: false, underline: false }
    }
}

/// The parameters of a true-color sequence: the three parts in decimal,
/// separated by semicolons.
pub open spec fn rgb_parameters(red: u8, green: u8, blue: u8) -> Seq<char> {
    decimal(red as nat) + seq![';'] + decimal(green as nat) + seq![';'] + decimal(blue as nat)
}

/// The sequence that sets the foreground to a true color.
pub open spec fn fg_sequence(red: u8, green: u8, blue: u8) -> Seq<char> {
    "\x1b[38;2;"@ + rgb_parameters(red, green, blue) + seq!['m']
}

/// The sequence that sets the background to a true color.
pub open spec fn bg_sequence(red: u8, green: u8, blue: u8) -> Seq<char> {
    "\x1b[48;2;"@ + rgb_parameters(red, green, blue) + seq!['m']
}

/// `termion::style::Invert` as text: the sequence that swaps foreground and
/// background, CSI `7m`.
#[verifier::external_body]
fn invert() -> (sequence: String)
    ensures
        sequence@ == "\x1b[7m"@,
{
    format!("{}", termion::style::Invert)
}

/// `termion::style::Italic` as text: CSI `3m`.
#[verifier::external_body]
fn italic() -> (sequence: String)
    ensures
        sequence@ == "\x1b[3m"@,
{
    format!("{}", termion::style::Italic)
}

/// `termion::style::NoItalic` as text: CSI `23m`.
#[verifier::external_body]
fn no_italic() -> (sequence: String)
    ensures
        sequence@ == "\x1b[23m"@,
{
    format!("{}", termion::style::NoItalic)
}

/// `termion::style::Underline` as text: CSI `4m`.
#[verifier::external_body]
fn underline() -> (sequence: String)
    ensures
        sequence@ == "\x1b[4m"@,
{
    format!("{}", termion::style::Underline)
}

/// `termion::style::NoUnderline` as text: CSI `24m`.
#[verifier::external_body]
fn no_underline() -> (sequence: String)
    ensures
        sequence@ == "\x1b[24m"@,
{
    format!("{}", termion::style::NoUnderline)
}

/// `termion::color::Fg` of a `termion::color::Rgb` as text: CSI `38;2;`, the
/// three parts of the color in decimal with semicolons between them, and `m`.
#[verifier::external_body]
fn fg_rgb(red: u8, green: u8, blue: u8) -> (sequence: String)
    ensures
        sequence@ == fg_sequence(red, green, blue),
{
    format!("{}", termion::color::Fg(termion::color::Rgb(red, green, blue)))
}

/// `termion::color::Bg` of a `termion::color::Rgb` as text: CSI `48;2;`, the
/// three parts of the color in decimal with semicolons between them, and `m`.
#[verifier::external_body]
fn bg_rgb(red: u8, green: u8, blue: u8) -> (sequence: String)
    ensures
        sequence@ == bg_sequence(red, green, blue),
{
    format!("{}", termion::color::Bg(termion::color::Rgb(red, green, blue)))
}

/// `termion::color::Fg` of `termion::color::Reset` as text: the sequence that
/// restores the default foreground, CSI `39m`.
#[verifier::external_body]
fn fg_reset() -> (sequence: String)
    ensures
        sequence@ == "\x1b[39m"@,
{
    format!("{}", termion::color::Fg(termion::color::Reset))
}

/// `termion::color::Bg` of `termion::color::Reset` as text: the sequence that
/// restores the default background, CSI `49m`.
#[verifier::external_body]
fn bg_reset() -> (sequence: String)
    ensures
        sequence@ == "\x1b[49m"@,
{
    format!("{}", termion::color::Bg(termion::color::Reset))
}

/// The red, green and blue parts of an ARGB color.
pub open spec fn color_parts(argb_color: u32) -> (u8, u8, u8) {
    (
        (argb_color / 0x1_0000 % 0x100) as u8,
        (argb_color / 0x100 % 0x100) as u8,
        (argb_color % 0x100) as u8,
    )
}

/// The red, green and blue parts of an ARGB color; the alpha part is dropped.
pub fn get_color(argb_color: u32) -> (parts: (u8, u8, u8))
    ensures
        parts == color_parts(argb_color),
{
    let red = ((argb_color & 0x00ff_0000) >> 16) as u8;
    let green = ((argb_color & 0x0000_ff00) >> 8) as u8;
    let blue = (argb_color & 0x0000_00ff) as u8;
    assert(((argb_color & 0x00ff_0000) >> 16) == argb_color / 0x1_0000 % 0x100) by (bit_vector);
    assert(((argb_color & 0x0000_ff00) >> 8) == argb_color / 0x100 % 0x100) by (bit_vector);
    assert((argb_color & 0x0000_00ff) == argb_color % 0x100) by (bit_vector);
    (red, green, blue)
}

/// The sequence that switches a style on.
///
/// The selection inverts the colors. Any other style sets its foreground
/// color if it has one, its background color unless that is zero, then
/// italics, then underlining.
pub open spec fn set_sequence(style: Style) -> Seq<char> {
    if style.id == 0 {
        "\x1b[7m"@
    } else {
        let fg = match style.fg_color {
            Some(color) => {
                let parts = color_parts(color);
                fg_sequence(parts.0, parts.1, parts.2)
            },
            None => Seq::empty(),
        };
        let bg = if style.bg_color != 0 {
            let parts = color_parts(style.bg_color);
            bg_sequence(parts.0, parts.1, parts.2)
        } else {
            Seq::empty()
        };
        let italic = if style.italic {
            "\x1b[3m"@
        } else {
            Seq::empty()
        };
        let underline = if style.underline {
            "\x1b[4m"@
        } else {
            Seq::empty()
        };
        fg + bg + italic + underline
    }
}

/// The sequence that puts the terminal back to its plain state: CSI `0m`.
pub open spec fn plain_sequence() -> Seq<char> {
    "\x1b[0m"@
}

/// The sequence that switches a style off again. The selection is closed by
/// the sequence that puts the terminal back to its plain state. For any other
/// style each attribute that `set_sequence` sets is undone, in the same order.
pub open spec fn reset_sequence(style: Style) -> Seq<char> {
    if style.id == 0 {
        plain_sequence()
    } else {
        let fg = if style.fg_color is Some {
            "\x1b[39m"@
        } else {
            Seq::empty()
        };
        let bg = if style.bg_color != 0 {
            "\x1b[49m"@
        } else {
            Seq::empty()
        };
        let italic = if style.italic {
            "\x1b[23m"@
        } else {
            Seq::empty()
        };
        let underline = if style.underline {
            "\x1b[24m"@
        } else {
            Seq::empty()
        };
        fg + bg + italic + underline
    }
}

/// The escape sequence that switches `style` on.
pub fn set_style(style: &Style) -> (sequence: String)
    ensures
        sequence@ == set_sequence(*style),
{
    if style.id == 0 {
        return invert();
    }
    let mut sequence = String::new();
    if let Some(fg_color) = style.fg_color {
        let (red, green, blue) = get_color(fg_color);
        sequence.append(fg_rgb(red, green, blue).as_str());
    }
    if style.bg_color != 0 {
        let (red, green, blue) = get_color(style.bg_color);
        sequence.append(bg_rgb(red, green, blue).as_str());
    }
    if style.italic {
        sequence.append(italic().as_str());
    }
    if style.underline {
        sequence.append(underline().as_str());
    }
    sequence
}

/// The escape sequence that switches `style` off.
pub fn reset_style(style: &Style) -> (sequence: String)
    ensures
        sequence@ == reset_sequence(*style),
{
    if style.id == 0 {
        return "\x1b[0m".to_owned();
    }
    let mut sequence = String::new();
    if style.fg_color.is_some() {
        sequence.append(fg_reset().as_str());
    }
    if style.bg_color != 0 {
        sequence.append(bg_reset().as_str());
    }
    if style.italic {
        sequence.append(no_italic().as_str());
    }
    if style.underline {
        sequence.append(no_underline().as_str());
    }
    sequence
}

} // verus!
