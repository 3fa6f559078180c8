//! Packed colors and parsing of `#RGB`, `#RGBA`, `#RRGGBB` and `#RRGGBBAA`
//! hexadecimal color strings.

use vstd::prelude::*;
use vstd::string::StringSliceAdditionalSpecFns;
use vstd::utf8::encode_utf8;

verus! {

/// An unpremultiplied color, one byte per channel.
#[derive(Clone, Copy, Debug, PartialEq, Eq, Structural)]
pub struct Color {
    /// Alpha channel; 255 is fully opaque.
    pub a: u8,
    /// Red channel.
    pub r: u8,
    /// Green channel.
    pub g: u8,
    /// Blue channel.
    pub b: u8,
}

/// ASCII byte of a hexadecimal digit, either case.
pub open spec fn is_hex_digit(c: u8) -> bool {
    (48 <= c <= 57) || (65 <= c <= 70) || (97 <= c <= 102)
}

/// Numeric value of a hexadecimal digit byte.
pub open spec fn hex_val(c: u8) -> int {
    if 48 <= c <= 57 {
        c - 48
    } else if 65 <= c <= 70 {
        c - 55
    } else {
        c - 87
    }
}

/// A single digit expanded to a byte by repetition: `f` becomes `0xff`.
pub open spec fn dup_val(c: u8) -> int {
    17 * hex_val(c)
}

/// Byte value of a high and a low hexadecimal digit.
pub open spec fn byte_val(h: u8, l: u8) -> int {
    16 * hex_val(h) + hex_val(l)
}

/// A `#` followed by 3, 4, 6 or 8 hexadecimal digits.
pub open spec fn valid_hex_color(s: Seq<u8>) -> bool {
    &&& (s.len() == 4 || s.len() == 5 || s.len() == 7 || s.len() == 9)
    &&& s[0] == 35
    &&& forall|i: int| 1 <= i < s.len() ==> is_hex_digit(#[trigger] s[i])
}

/// The color a valid hexadecimal string denotes.  Single-digit channels are
/// expanded by repetition; a missing alpha digit group means fully opaque.
pub open spec fn spec_color(s: Seq<u8>) -> Color {
    if s.len() == 4 {
        Color { a: 255, r: dup_val(s[1]) as u8, g: dup_val(s[2]) as u8, b: dup_val(s[3]) as u8 }
    } else if s.len() == 5 {
        Color {
            a: dup_val(s[4]) as u8,
            r: dup_val(s[1]) as u8,
            g: dup_val(s[2]) as u8,
            b: dup_val(s[3]) as u8,
        }
    } else if s.len() == 7 {
        Color {
            a: 255,
            r: byte_val(s[1], s[2]) as u8,
            g: byte_val(s[3], s[4]) as u8,
            b: byte_val(s[5], s[6]) as u8,
        }
    } else {
        Color {
            a: byte_val(s[7], s[8]) as u8,
            r: byte_val(s[1], s[2]) as u8,
            g: byte_val(s[3], s[4]) as u8,
            b: byte_val(s[5], s[6]) as u8,
        }
    }
}

/// Runtime check for `is_hex_digit`.
fn check_hex_digit(c: u8) -> (b: bool)
    ensures
        b == is_hex_digit(c),
{
    (48 <= c && c <= 57) || (65 <= c && c <= 70) || (97 <= c && c <= 102)
}

fn hex_digit_value(c: u8) -> (r: u8)
    requires
        is_hex_digit(c),
    ensures
        r as int == hex_val(c),
        r <= 15,
{
    if c >= 97 {
        c - 87
    } else if c >= 65 {
        c - 55
    } else {
        c - 48
    }
}

fn expand_nibble(c: u8) -> (r: u8)
    requires
        is_hex_digit(c),
    ensures
        r as int == dup_val(c),
{
    17 * hex_digit_value(c)
}

fn hex_byte(h: u8, l: u8) -> (r: u8)
    requires
        is_hex_digit(h),
        is_hex_digit(l),
    ensures
        r as int == byte_val(h, l),
{
    16 * hex_digit_value(h) + hex_digit_value(l)
}

/// Parse a valid hexadecimal color string.
pub fn parse_hex_color(s: &str) -> (c: Color)
    requires
        valid_hex_color(s.spec_bytes()),
    ensures
        c == spec_color(s.spec_bytes()),
{
    let b = s.as_bytes();
    let n = b.len();
    if n == 4 || n == 5 {
        let a = if n == 5 {
            expand_nibble(b[4])
        } else {
            255
        };
        Color { a, r: expand_nibble(b[1]), g: expand_nibble(b[2]), b: expand_nibble(b[3]) }
    } else {
        let a = if n == 9 {
            hex_byte(b[7], b[8])
        } else {
            255
        };
        Color { a, r: hex_byte(b[1], b[2]), g: hex_byte(b[3], b[4]), b: hex_byte(b[5], b[6]) }
    }
}

/// Runtime check for `valid_hex_color` on a string.
pub fn is_valid_hex_color(s: &str) -> (b: bool)
    ensures
        b == valid_hex_color(s.spec_bytes()),
{
    let bytes = s.as_bytes();
    let n = bytes.len();
    if !(n == 4 || n == 5 || n == 7 || n == 9) {
        return false;
    }
    if bytes[0] != 35 {
        return false;
    }
    let mut i: usize = 1;
    while i < n
        invariant
            1 <= i <= n,
            n == bytes@.len(),
            bytes@ == s.spec_bytes(),
            forall|j: int| 1 <= j < i ==> is_hex_digit(#[trigger] bytes@[j]),
        decreases n - i,
    {
        if !check_hex_digit(bytes[i]) {
            assert(!is_hex_digit(s.spec_bytes()[i as int]));
            return false;
        }
        i = i + 1;
    }
    true
}

/// Conversion of a color string into a channel value.
pub trait ToColor {
    /// The color type produced.
    type Target;

    /// When the conversion is defined.
    spec fn color_ready(&self) -> bool;

    /// The value the conversion produces.
    spec fn spec_target(&self) -> Self::Target;

    /// Convert the string into its color.
    fn to_color(&self) -> (r: Self::Target)
        requires
            self.color_ready(),
        ensures
            r == self.spec_target(),
    ;
}

impl ToColor for str {
    type Target = Color;

    open spec fn color_ready(&self) -> bool {
        valid_hex_color(self.spec_bytes())
    }

    open spec fn spec_target(&self) -> Color {
        spec_color(self.spec_bytes())
    }

    fn to_color(&self) -> (r: Color) {
        parse_hex_color(self)
    }
}

impl ToColor for String {
    type Target = Color;

    open spec fn color_ready(&self) -> bool {
        valid_hex_color(encode_utf8(self@))
    }

    open spec fn spec_target(&self) -> Color {
        spec_color(encode_utf8(self@))
    }

    fn to_color(&self) -> (r: Color) {
        parse_hex_color(self.as_str())
    }
}

} // verus!
