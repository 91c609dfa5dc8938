//! Colors and integers confined to a range.

use vstd::prelude::*;
use crate::text::{hex_char, hex_digit, hex_digit_value, hex_value, is_hex_digit, lemma_hex_char_value, push_char};

verus! {

/// An integer that lies in `MIN..=MAX`.
#[derive(Clone, Copy, Debug, PartialEq, Eq, Hash)]
pub struct RangedU16<const MIN: u16, const MAX: u16>(u16);

impl<const MIN: u16, const MAX: u16> RangedU16<MIN, MAX> {
    #[verifier::type_invariant]
    spec fn in_range(self) -> bool {
        MIN <= self.0 <= MAX
    }

    /// The integer held.
    pub closed spec fn value(self) -> u16 {
        self.0
    }

    /// `value` if it lies in the range, else `None`.
    pub fn new(value: u16) -> (r: Option<Self>)
        ensures
            r is Some <==> MIN <= value <= MAX,
            r matches Some(v) ==> v.value() == value,
    {
        if value >= MIN && value <= MAX {
            Some(RangedU16(value))
        } else {
            None
        }
    }

    /// The integer held, which lies in the range.
    pub fn get(self) -> (r: u16)
        ensures
            r == self.value(),
            MIN <= r <= MAX,
    {
        proof {
            use_type_invariant(&self);
        }
        self.0
    }
}

/// An RGBA color with 8 bits per channel.
#[derive(Clone, Copy, Debug, PartialEq, Eq, Hash, Structural)]
pub struct Color {
    pub r: u8,
    pub g: u8,
    pub b: u8,
    pub a: u8,
}

/// The byte written by the two hexadecimal digits at `i` and `i + 1`.
pub open spec fn hex_byte(s: Seq<char>, i: int) -> u8 {
    (hex_value(s[i]) * 16 + hex_value(s[i + 1])) as u8
}

/// Whether `s` is `#rrggbb` or `#rrggbbaa`, with hexadecimal digits in either case.
pub open spec fn is_color_text(s: Seq<char>) -> bool {
    &&& (s.len() == 7 || s.len() == 9)
    &&& s[0] == '#'
    &&& forall|i: int| 1 <= i < s.len() ==> is_hex_digit(#[trigger] s[i])
}

/// The color that `#rrggbb` or `#rrggbbaa` names; without `aa` the color is opaque.
pub open spec fn color_of_text(s: Seq<char>) -> Color {
    Color {
        r: hex_byte(s, 1),
        g: hex_byte(s, 3),
        b: hex_byte(s, 5),
        a: if s.len() == 9 { hex_byte(s, 7) } else { 255 },
    }
}

/// The two lower-case hexadecimal digits of `v`.
pub open spec fn byte_text(v: u8) -> Seq<char> {
    seq![hex_char((v / 16) as nat), hex_char((v % 16) as nat)]
}

/// A color written as `#rrggbb`, followed by `aa` unless the color is opaque.
pub open spec fn color_text(c: Color) -> Seq<char> {
    let rgb = seq!['#'] + byte_text(c.r) + byte_text(c.g) + byte_text(c.b);
    if c.a == 255 {
        rgb
    } else {
        rgb + byte_text(c.a)
    }
}

proof fn lemma_byte_text(v: u8)
    ensures
        is_hex_digit(byte_text(v)[0]),
        is_hex_digit(byte_text(v)[1]),
        hex_value(byte_text(v)[0]) * 16 + hex_value(byte_text(v)[1]) == v,
{
    lemma_hex_char_value((v / 16) as nat);
    lemma_hex_char_value((v % 16) as nat);
}

/// A color written as text reads back as the same color.
pub proof fn lemma_color_text_round_trip(c: Color)
    ensures
        is_color_text(color_text(c)),
        color_of_text(color_text(c)) == c,
{
    lemma_byte_text(c.r);
    lemma_byte_text(c.g);
    lemma_byte_text(c.b);
    lemma_byte_text(c.a);
    let s = color_text(c);
    let rgb = seq!['#'] + byte_text(c.r) + byte_text(c.g) + byte_text(c.b);
    assert(rgb[1] == byte_text(c.r)[0] && rgb[2] == byte_text(c.r)[1]);
    assert(rgb[3] == byte_text(c.g)[0] && rgb[4] == byte_text(c.g)[1]);
    assert(rgb[5] == byte_text(c.b)[0] && rgb[6] == byte_text(c.b)[1]);
    if c.a != 255 {
        assert(s[7] == byte_text(c.a)[0] && s[8] == byte_text(c.a)[1]);
    }
    assert forall|i: int| 1 <= i < s.len() implies is_hex_digit(#[trigger] s[i]) by {
        if i < 7 {
            assert(s[i] == rgb[i]);
        }
    }
}

impl Color {
    pub fn new(r: u8, g: u8, b: u8, a: u8) -> (c: Color)
        ensures
            c == (Color { r, g, b, a }),
    {
        Color { r, g, b, a }
    }

    /// An opaque color.
    pub fn rgb(r: u8, g: u8, b: u8) -> (c: Color)
        ensures
            c == (Color { r, g, b, a: 255 }),
    {
        Color { r, g, b, a: 255 }
    }

    /// The color packed as `0xRRGGBBAA`.
    pub fn rgba32(rgba: u32) -> (c: Color)
        ensures
            c.r == rgba / 0x100_0000,
            c.g == (rgba / 0x1_0000) % 0x100,
            c.b == (rgba / 0x100) % 0x100,
            c.a == rgba % 0x100,
    {
        assert((rgba >> 24u32) & 0xffu32 == rgba / 0x100_0000) by (bit_vector);
        assert((rgba >> 16u32) & 0xffu32 == (rgba / 0x1_0000) % 0x100) by (bit_vector);
        assert((rgba >> 8u32) & 0xffu32 == (rgba / 0x100) % 0x100) by (bit_vector);
        assert(rgba & 0xffu32 == rgba % 0x100) by (bit_vector);
        Color {
            r: ((rgba >> 24) & 0xff) as u8,
            g: ((rgba >> 16) & 0xff) as u8,
            b: ((rgba >> 8) & 0xff) as u8,
            a: (rgba & 0xff) as u8,
        }
    }

    /// Parses `#rrggbb` or `#rrggbbaa`; anything else gives `None`.
    pub fn parse(s: &str) -> (r: Option<Color>)
        ensures
            r is Some <==> is_color_text(s@),
            r matches Some(c) ==> c == color_of_text(s@),
    {
        let n = s.unicode_len();
        if n != 7 && n != 9 {
            return None;
        }
        if s.get_char(0) != '#' {
            return None;
        }
        let mut i: usize = 1;
        while i < n
            invariant
                n == s@.len(),
                1 <= i <= n,
                forall|j: int| 1 <= j < i ==> is_hex_digit(#[trigger] s@[j]),
            decreases n - i,
        {
            if hex_digit_value(s.get_char(i)).is_none() {
                return None;
            }
            i += 1;
        }
        let r = Self::byte_at(s, 1);
        let g = Self::byte_at(s, 3);
        let b = Self::byte_at(s, 5);
        let a = if n == 9 {
            Self::byte_at(s, 7)
        } else {
            255
        };
        Some(Color { r, g, b, a })
    }

    fn byte_at(s: &str, i: usize) -> (v: u8)
        requires
            i + 1 < s@.len() <= 9,
            is_hex_digit(s@[i as int]),
            is_hex_digit(s@[i + 1]),
        ensures
            v == hex_byte(s@, i as int),
    {
        let hi = hex_digit_value(s.get_char(i)).unwrap();
        let lo = hex_digit_value(s.get_char(i + 1)).unwrap();
        hi * 16 + lo
    }

    /// The color as `#rrggbb`, or `#rrggbbaa` when it is not opaque.
    pub fn to_hex_string(&self) -> (s: String)
        ensures
            s@ == color_text(*self),
    {
        let mut s = String::new();
        push_char(&mut s, '#');
        Self::push_byte(&mut s, self.r);
        Self::push_byte(&mut s, self.g);
        Self::push_byte(&mut s, self.b);
        if self.a != 255 {
            Self::push_byte(&mut s, self.a);
        }
        assert(s@ =~= color_text(*self));
        s
    }

    fn push_byte(s: &mut String, v: u8)
        ensures
            final(s)@ == old(s)@ + byte_text(v),
    {
        push_char(s, hex_digit(v / 16));
        push_char(s, hex_digit(v % 16));
        assert(final(s)@ =~= old(s)@ + byte_text(v));
    }

    /// The channels in the order red, green, blue, alpha.
    pub fn into_rgba(&self) -> (px: [u8; 4])
        ensures
            px@ == seq![self.r, self.g, self.b, self.a],
    {
        let px = [self.r, self.g, self.b, self.a];
        assert(px@ =~= seq![self.r, self.g, self.b, self.a]);
        px
    }
}

} // verus!
