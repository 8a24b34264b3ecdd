//! Colours, and the hexadecimal notation layouts write them in.

use vstd::prelude::*;
use vstd::string::StrSliceExecFns;

verus! {

/// `rgb::Rgba`, a pixel of four public channels `r`, `g`, `b` and `a`.
#[verifier::external_type_specification]
#[verifier::reject_recursive_types(T)]
#[verifier::reject_recursive_types(A)]
pub struct ExRgba<T, A>(rgb::Rgba<T, A>);

/// `rgb::Rgba::new` builds a pixel from its four channels, red first and
/// alpha last, and changes none of them.
pub assume_specification<T: Copy>[ rgb::Rgba::<T>::new ](
    red: T,
    green: T,
    blue: T,
    alpha: T,
) -> (c: rgb::Rgba<T>)
    ensures
        c.r == red,
        c.g == green,
        c.b == blue,
        c.a == alpha,
;

/// The colour of keys, legends and backgrounds: 8 bits a channel, alpha last.
pub type Color = rgb::RGBA8;

/// The opaque colour with the given channels.
pub open spec fn opaque(r: u8, g: u8, b: u8) -> Color {
    rgb::Rgba { r, g, b, a: 255 }
}

/// Colour of a layout's background where none is given: `#EEEEEE`.
pub open spec fn background_color() -> Color {
    opaque(0xEE, 0xEE, 0xEE)
}

/// Colour of a key where none is given: `#CCCCCC`.
pub open spec fn key_color() -> Color {
    opaque(0xCC, 0xCC, 0xCC)
}

/// Colour of a legend where none is given: black.
pub open spec fn legend_color() -> Color {
    opaque(0x00, 0x00, 0x00)
}

/// The value of a hexadecimal digit of either case.
pub open spec fn hex_digit(c: char) -> Option<u8> {
    if '0' <= c <= '9' {
        Some((c as u32 - '0' as u32) as u8)
    } else if 'a' <= c <= 'f' {
        Some((c as u32 - 'a' as u32 + 10) as u8)
    } else if 'A' <= c <= 'F' {
        Some((c as u32 - 'A' as u32 + 10) as u8)
    } else {
        None
    }
}

/// The channel written as the two digits at `at` and `at + 1`.
pub open spec fn long_channel(s: Seq<char>, at: int) -> Option<u8> {
    match (hex_digit(s[at]), hex_digit(s[at + 1])) {
        (Some(high), Some(low)) => Some((16 * high + low) as u8),
        _ => None,
    }
}

/// The channel written as the single digit at `at`, which counts twice.
pub open spec fn short_channel(s: Seq<char>, at: int) -> Option<u8> {
    match hex_digit(s[at]) {
        Some(digit) => Some((17 * digit) as u8),
        None => None,
    }
}

/// The colour that `s` denotes: `#rrggbb` or `#rgb` in hexadecimal digits of
/// either case, always opaque. Any other text denotes no colour.
pub open spec fn parse_color(s: Seq<char>) -> Option<Color> {
    if s.len() == 7 && s[0] == '#' {
        match (long_channel(s, 1), long_channel(s, 3), long_channel(s, 5)) {
            (Some(r), Some(g), Some(b)) => Some(opaque(r, g, b)),
            _ => None,
        }
    } else if s.len() == 4 && s[0] == '#' {
        match (short_channel(s, 1), short_channel(s, 2), short_channel(s, 3)) {
            (Some(r), Some(g), Some(b)) => Some(opaque(r, g, b)),
            _ => None,
        }
    } else {
        None
    }
}

/// The colour of a layout's background where none is given.
pub fn default_background_color() -> (c: Color)
    ensures
        c == background_color(),
{
    Color::new(0xEE, 0xEE, 0xEE, 0xFF)
}

/// The colour of a key where none is given.
pub fn default_key_color() -> (c: Color)
    ensures
        c == key_color(),
{
    Color::new(0xCC, 0xCC, 0xCC, 0xFF)
}

/// The colour of a legend where none is given.
pub fn default_legend_color() -> (c: Color)
    ensures
        c == legend_color(),
{
    Color::new(0x00, 0x00, 0x00, 0xFF)
}

fn digit_value(c: char) -> (r: Option<u8>)
    ensures
        r == hex_digit(c),
{
    if '0' <= c && c <= '9' {
        Some((c as u32 - '0' as u32) as u8)
    } else if 'a' <= c && c <= 'f' {
        Some((c as u32 - 'a' as u32 + 10) as u8)
    } else if 'A' <= c && c <= 'F' {
        Some((c as u32 - 'A' as u32 + 10) as u8)
    } else {
        None
    }
}

fn read_long_channel(s: &str, at: usize) -> (r: Option<u8>)
    requires
        at + 1 < s@.len() <= usize::MAX,
    ensures
        r == long_channel(s@, at as int),
{
    match (digit_value(s.get_char(at)), digit_value(s.get_char(at + 1))) {
        (Some(high), Some(low)) => Some(16 * high + low),
        _ => None,
    }
}

fn read_short_channel(s: &str, at: usize) -> (r: Option<u8>)
    requires
        at < s@.len(),
    ensures
        r == short_channel(s@, at as int),
{
    match digit_value(s.get_char(at)) {
        Some(digit) => Some(17 * digit),
        None => None,
    }
}

/// Reads a colour in hexadecimal notation.
pub fn color_from_str(s: &str) -> (r: Option<Color>)
    ensures
        r == parse_color(s@),
{
    let n = s.unicode_len();
    if n == 7 && s.get_char(0) == '#' {
        match (read_long_channel(s, 1), read_long_channel(s, 3), read_long_channel(s, 5)) {
            (Some(r), Some(g), Some(b)) => Some(Color::new(r, g, b, 0xFF)),
            _ => None,
        }
    } else if n == 4 && s.get_char(0) == '#' {
        match (read_short_channel(s, 1), read_short_channel(s, 2), read_short_channel(s, 3)) {
            (Some(r), Some(g), Some(b)) => Some(Color::new(r, g, b, 0xFF)),
            _ => None,
        }
    } else {
        None
    }
}

} // verus!
