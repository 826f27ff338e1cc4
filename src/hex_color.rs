use vstd::prelude::*;
use crate::geometry::Color;

verus! {

/// A color written as in a theme file, `#rrggbb`.
#[derive(Clone, Debug)]
pub struct HexColor(pub String);

pub open spec fn hex_digit_value(c: char) -> int {
    if '0' <= c && c <= '9' {
        c as int - '0' as int
    } else if 'a' <= c && c <= 'f' {
        c as int - 'a' as int + 10
    } else {
        c as int - 'A' as int + 10
    }
}

pub open spec fn is_hex_digit(c: char) -> bool {
    ('0' <= c && c <= '9') || ('a' <= c && c <= 'f') || ('A' <= c && c <= 'F')
}

/// The digits of a color: the text without one leading `#`.
pub open spec fn hex_body(s: Seq<char>) -> Seq<char> {
    if s.len() > 0 && s[0] == '#' {
        s.drop_first()
    } else {
        s
    }
}

pub open spec fn all_hex_digits(s: Seq<char>) -> bool {
    forall|i: int| 0 <= i < s.len() ==> is_hex_digit(#[trigger] s[i])
}

/// `#rrggbb`, or `rrggbb` without the `#`.
pub open spec fn is_hex6(s: Seq<char>) -> bool {
    hex_body(s).len() == 6 && all_hex_digits(hex_body(s))
}

/// `#rgb`, or `rgb` without the `#`: each digit stands for itself twice.
pub open spec fn is_hex3(s: Seq<char>) -> bool {
    hex_body(s).len() == 3 && all_hex_digits(hex_body(s))
}

/// Hex digits, as many as neither form takes.
pub open spec fn is_bad_length(s: Seq<char>) -> bool {
    all_hex_digits(hex_body(s)) && hex_body(s).len() != 3 && hex_body(s).len() != 6
}

/// The byte written twice by the single digit at `i`.
pub open spec fn short_byte(s: Seq<char>, i: int) -> u8 {
    (17 * hex_digit_value(s[i])) as u8
}

/// `s` holds a character that is neither a hex digit nor `#`.
pub open spec fn has_stray_char(s: Seq<char>) -> bool {
    exists|i: int| 0 <= i < s.len() && !is_hex_digit(#[trigger] s[i]) && s[i] != '#'
}

/// The byte written by the two hex digits at `i`.
pub open spec fn hex_byte(s: Seq<char>, i: int) -> u8 {
    (16 * hex_digit_value(s[i]) + hex_digit_value(s[i + 1])) as u8
}

/// Relies on `colorsys::Rgb::from_hex_str`: six hex digits, after an
/// optional `#`, parse to the red, green and blue bytes they write, and three
/// digits to each digit doubled; `red`, `green` and `blue` hand them back as
/// whole numbers. Any other number of digits, or a character that is neither
/// a hex digit nor `#`, fails to parse.
#[verifier::external_body]
fn parse_hex_rgb(s: &str) -> (r: Option<(u8, u8, u8)>)
    ensures
        is_hex6(s@) ==> r == Some(
            (hex_byte(hex_body(s@), 0), hex_byte(hex_body(s@), 2), hex_byte(hex_body(s@), 4)),
        ),
        is_hex3(s@) ==> r == Some(
            (short_byte(hex_body(s@), 0), short_byte(hex_body(s@), 1), short_byte(hex_body(s@), 2)),
        ),
        is_bad_length(s@) ==> r is None,
        has_stray_char(s@) ==> r is None,
{
    match colorsys::Rgb::from_hex_str(s) {
        Ok(rgb) => Some((rgb.red() as u8, rgb.green() as u8, rgb.blue() as u8)),
        Err(_) => None,
    }
}

impl HexColor {
    pub fn as_str(&self) -> (s: &str)
        ensures
            s@ == self.0@,
    {
        self.0.as_str()
    }

    /// The opaque color written, or white when the text is no color.
    pub fn to_color(&self) -> (c: Color)
        ensures
            is_hex6(self.0@) ==> c == (Color {
                r: hex_byte(hex_body(self.0@), 0),
                g: hex_byte(hex_body(self.0@), 2),
                b: hex_byte(hex_body(self.0@), 4),
                a: 255,
            }),
            is_hex3(self.0@) ==> c == (Color {
                r: short_byte(hex_body(self.0@), 0),
                g: short_byte(hex_body(self.0@), 1),
                b: short_byte(hex_body(self.0@), 2),
                a: 255,
            }),
            is_bad_length(self.0@) || has_stray_char(self.0@) ==> c == (Color {
                r: 255,
                g: 255,
                b: 255,
                a: 255,
            }),
    {
        match parse_hex_rgb(self.as_str()) {
            Some((r, g, b)) => Color { r, g, b, a: 255 },
            None => Color::white(),
        }
    }
}

} // verus!
