//! 8-bit RGBA colors and their `#rrggbb` / `#rrggbbaa` text form.

use vstd::prelude::*;
use vstd::string::StringSliceAdditionalSpecFns;

verus! {

/// An 8-bit-per-channel RGBA color. The default is opaque white.
#[derive(Clone, Copy, Debug, PartialEq, Eq, Hash, Structural)]
pub struct Color {
    pub r: u8,
    pub g: u8,
    pub b: u8,
    pub a: u8,
}

/// The value of an ASCII hexadecimal digit, either case.
pub open spec fn hex_digit_value(c: u8) -> Option<u8> {
    if 0x30 <= c && c <= 0x39 {
        Some((c - 0x30) as u8)
    } else if 0x61 <= c && c <= 0x66 {
        Some((c - 0x61 + 10) as u8)
    } else if 0x41 <= c && c <= 0x46 {
        Some((c - 0x41 + 10) as u8)
    } else {
        None
    }
}

/// The value of a pair of bytes that are both ASCII hex digits, as the high
/// and the low digit of a byte.
pub open spec fn hex_pair_value(c0: u8, c1: u8) -> Option<u8> {
    match (hex_digit_value(c0), hex_digit_value(c1)) {
        (Some(hi), Some(lo)) => Some((hi * 16 + lo) as u8),
        _ => None,
    }
}

/// The bytes after one leading `#`, if there is one.
pub open spec fn strip_hash(b: Seq<u8>) -> Seq<u8> {
    if b.len() > 0 && b[0] == 0x23 {
        b.subrange(1, b.len() as int)
    } else {
        b
    }
}

/// The `k`-th two-byte group of `h`, parsed as hex.
pub open spec fn hex_group(h: Seq<u8>, k: int) -> Option<u8> {
    hex_pair_value(h[2 * k], h[2 * k + 1])
}

/// The color that the hex text `b` (as UTF-8 bytes) denotes, if any.
pub open spec fn color_of_hex(b: Seq<u8>) -> Option<Color> {
    let h = strip_hash(b);
    if h.len() == 6 {
        match (hex_group(h, 0), hex_group(h, 1), hex_group(h, 2)) {
            (Some(r), Some(g), Some(bl)) => Some(Color { r, g, b: bl, a: 255 }),
            _ => None,
        }
    } else if h.len() == 8 {
        match (hex_group(h, 0), hex_group(h, 1), hex_group(h, 2), hex_group(h, 3)) {
            (Some(r), Some(g), Some(bl), Some(a)) => Some(Color { r, g, b: bl, a }),
            _ => None,
        }
    } else {
        None
    }
}

fn hex_digit(c: u8) -> (r: Option<u8>)
    ensures
        r == hex_digit_value(c),
{
    if 0x30 <= c && c <= 0x39 {
        Some(c - 0x30)
    } else if 0x61 <= c && c <= 0x66 {
        Some(c - 0x61 + 10)
    } else if 0x41 <= c && c <= 0x46 {
        Some(c - 0x41 + 10)
    } else {
        None
    }
}

fn hex_pair(c0: u8, c1: u8) -> (r: Option<u8>)
    ensures
        r == hex_pair_value(c0, c1),
{
    match (hex_digit(c0), hex_digit(c1)) {
        (Some(hi), Some(lo)) => Some(hi * 16 + lo),
        _ => None,
    }
}

impl Color {
    /// Opaque white, the default color.
    pub fn white() -> (c: Color)
        ensures
            c == (Color { r: 255, g: 255, b: 255, a: 255 }),
    {
        Color { r: 255, g: 255, b: 255, a: 255 }
    }

    /// Opaque black.
    pub fn black() -> (c: Color)
        ensures
            c == (Color { r: 0, g: 0, b: 0, a: 255 }),
    {
        Color { r: 0, g: 0, b: 0, a: 255 }
    }

    /// Opaque red.
    pub fn red() -> (c: Color)
        ensures
            c == (Color { r: 255, g: 0, b: 0, a: 255 }),
    {
        Color { r: 255, g: 0, b: 0, a: 255 }
    }

    /// Opaque green.
    pub fn green() -> (c: Color)
        ensures
            c == (Color { r: 0, g: 255, b: 0, a: 255 }),
    {
        Color { r: 0, g: 255, b: 0, a: 255 }
    }

    /// Opaque blue.
    pub fn blue() -> (c: Color)
        ensures
            c == (Color { r: 0, g: 0, b: 255, a: 255 }),
    {
        Color { r: 0, g: 0, b: 255, a: 255 }
    }

    /// Opaque cyan.
    pub fn cyan() -> (c: Color)
        ensures
            c == (Color { r: 0, g: 220, b: 230, a: 255 }),
    {
        Color { r: 0, g: 220, b: 230, a: 255 }
    }

    /// Lumina brand accent (cyan).
    pub fn lumina_accent() -> (c: Color)
        ensures
            c == (Color { r: 0, g: 220, b: 230, a: 255 }),
    {
        Color { r: 0, g: 220, b: 230, a: 255 }
    }

    /// An opaque color.
    pub fn rgb(r: u8, g: u8, b: u8) -> (c: Color)
        ensures
            c == (Color { r, g, b, a: 255 }),
    {
        Color { r, g, b, a: 255 }
    }

    pub fn rgba(r: u8, g: u8, b: u8, a: u8) -> (c: Color)
        ensures
            c == (Color { r, g, b, a }),
    {
        Color { r, g, b, a }
    }

    /// Parse `#rrggbb` or `#rrggbbaa` (the `#` is optional): each pair is
    /// exactly two ASCII hex digits, either case. Returns `None` on any other
    /// input.
    pub fn from_hex(hex: &str) -> (c: Option<Color>)
        ensures
            c == color_of_hex(hex.spec_bytes()),
    {
        let b = hex.as_bytes();
        let start: usize = if b.len() > 0 && b[0] == 0x23 { 1 } else { 0 };
        let n = b.len() - start;
        let ghost h = strip_hash(b@);
        assert(h =~= b@.subrange(start as int, b@.len() as int));
        if n == 6 {
            let r = hex_pair(b[start], b[start + 1]);
            let g = hex_pair(b[start + 2], b[start + 3]);
            let bl = hex_pair(b[start + 4], b[start + 5]);
            match (r, g, bl) {
                (Some(r), Some(g), Some(bl)) => Some(Color::rgb(r, g, bl)),
                _ => None,
            }
        } else if n == 8 {
            let r = hex_pair(b[start], b[start + 1]);
            let g = hex_pair(b[start + 2], b[start + 3]);
            let bl = hex_pair(b[start + 4], b[start + 5]);
            let a = hex_pair(b[start + 6], b[start + 7]);
            match (r, g, bl, a) {
                (Some(r), Some(g), Some(bl), Some(a)) => Some(Color::rgba(r, g, bl, a)),
                _ => None,
            }
        } else {
            None
        }
    }
}

impl Default for Color {
    fn default() -> (c: Color)
        ensures
            c == (Color { r: 255, g: 255, b: 255, a: 255 }),
    {
        Color::white()
    }
}

/// The leading `#` is optional: text with it denotes what the same text
/// without it denotes.
pub proof fn law_hash_prefix_optional(b: Seq<u8>)
    requires
        b.len() == 0 || b[0] != 0x23,
    ensures
        color_of_hex(seq![0x23u8] + b) == color_of_hex(b),
{
    assert((seq![0x23u8] + b).subrange(1, b.len() as int + 1) =~= b);
}

/// Hex digits are read as in `u8::from_str_radix(_, 16)`: `'0'..='9'` are
/// 0 to 9, `'a'..='f'` are 10 to 15, an upper-case letter reads as its
/// lower-case form, and no other byte is a digit.
pub proof fn law_hex_digits(c: u8)
    ensures
        0x30 <= c <= 0x39 ==> hex_digit_value(c) == Some((c - 0x30) as u8),
        0x61 <= c <= 0x66 ==> hex_digit_value(c) == Some((c - 0x61 + 10) as u8),
        0x41 <= c <= 0x46 ==> hex_digit_value(c) == hex_digit_value((c + 0x20) as u8),
        hex_digit_value(c) is Some <==> (0x30 <= c <= 0x39 || 0x61 <= c <= 0x66 || 0x41 <= c
            <= 0x46),
        hex_digit_value(c) matches Some(v) ==> v < 16,
{
}

/// A pair of hex digits reads as a byte, high digit first; a pair with a
/// byte that is not a hex digit reads as nothing.
pub proof fn law_hex_pair(hi: u8, lo: u8)
    ensures
        hex_digit_value(hi) is Some && hex_digit_value(lo) is Some ==> {
            let h = hex_digit_value(hi)->0;
            let l = hex_digit_value(lo)->0;
            16 * h + l < 256 && hex_pair_value(hi, lo) == Some((16 * h + l) as u8)
        },
        hex_digit_value(hi) is None || hex_digit_value(lo) is None ==> hex_pair_value(hi, lo) is None,
{
    law_hex_digits(hi);
    law_hex_digits(lo);
    if hex_digit_value(hi) is Some && hex_digit_value(lo) is Some {
        let h = hex_digit_value(hi)->0;
        let l = hex_digit_value(lo)->0;
        assert(h < 16 && l < 16);
        assert(h * 16 + l == 16 * h + l);
        assert(16 * h + l < 256);
    }
}

/// A six-digit body gives an opaque color whose channels are its three
/// pairs, in order; an eight-digit body gives the fourth pair as alpha.
pub proof fn law_hex_channels(h: Seq<u8>)
    requires
        h.len() == 0 || h[0] != 0x23,
        h.len() == 6 || h.len() == 8,
        forall|i: int| 0 <= i < h.len() ==> #[trigger] hex_digit_value(h[i]) is Some,
    ensures
        color_of_hex(h) matches Some(c) && c.r == hex_pair_value(h[0], h[1])->0 && c.g
            == hex_pair_value(h[2], h[3])->0 && c.b == hex_pair_value(h[4], h[5])->0 && c.a == (
        if h.len() == 6 {
            255u8
        } else {
            hex_pair_value(h[6], h[7])->0
        }),
{
    assert(hex_digit_value(h[0]) is Some && hex_digit_value(h[1]) is Some);
    assert(hex_digit_value(h[2]) is Some && hex_digit_value(h[3]) is Some);
    assert(hex_digit_value(h[4]) is Some && hex_digit_value(h[5]) is Some);
    if h.len() == 8 {
        assert(hex_digit_value(h[6]) is Some && hex_digit_value(h[7]) is Some);
    }
}

} // verus!
