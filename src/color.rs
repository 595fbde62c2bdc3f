//! Colors with four 8-bit channels.

use vstd::prelude::*;
use crate::text::push_char;

verus! {

/// Color with four 8-bit channels, 0 to 255.
#[derive(Debug, Copy, Clone, PartialEq, Eq, Structural, PartialOrd, Ord, Hash)]
pub struct ColorU {
    pub r: u8,
    pub g: u8,
    pub b: u8,
    pub a: u8,
}

impl ColorU {
    pub const ALPHA_TRANSPARENT: u8 = 0;

    pub const ALPHA_OPAQUE: u8 = 255;

    pub fn red() -> (c: ColorU)
        ensures
            c == (ColorU { r: 255, g: 0, b: 0, a: 255 }),
    {
        ColorU { r: 255, g: 0, b: 0, a: Self::ALPHA_OPAQUE }
    }

    pub fn green() -> (c: ColorU)
        ensures
            c == (ColorU { r: 0, g: 255, b: 0, a: 255 }),
    {
        ColorU { r: 0, g: 255, b: 0, a: Self::ALPHA_OPAQUE }
    }

    pub fn blue() -> (c: ColorU)
        ensures
            c == (ColorU { r: 0, g: 0, b: 255, a: 255 }),
    {
        ColorU { r: 0, g: 0, b: 255, a: Self::ALPHA_OPAQUE }
    }

    pub fn white() -> (c: ColorU)
        ensures
            c == (ColorU { r: 255, g: 255, b: 255, a: 255 }),
    {
        ColorU { r: 255, g: 255, b: 255, a: Self::ALPHA_OPAQUE }
    }

    pub fn black() -> (c: ColorU)
        ensures
            c == (ColorU { r: 0, g: 0, b: 0, a: 255 }),
    {
        ColorU { r: 0, g: 0, b: 0, a: Self::ALPHA_OPAQUE }
    }

    pub fn transparent() -> (c: ColorU)
        ensures
            c == (ColorU { r: 0, g: 0, b: 0, a: 0 }),
    {
        ColorU { r: 0, g: 0, b: 0, a: Self::ALPHA_TRANSPARENT }
    }

    /// Whether the color is not fully opaque.
    pub fn has_alpha(&self) -> (r: bool)
        ensures
            r == (self.a != 255),
    {
        self.a != Self::ALPHA_OPAQUE
    }

    /// The color as `#` followed by the lowercase hex digits of r, g, b and a,
    /// each without zero padding.
    pub fn to_hash(&self) -> (r: String)
        ensures
            r@ == hash_text(*self),
    {
        let mut s = String::new();
        push_char(&mut s, '#');
        push_hex(&mut s, self.r);
        push_hex(&mut s, self.g);
        push_hex(&mut s, self.b);
        push_hex(&mut s, self.a);
        proof {
            assert(s@ =~= hash_text(*self));
        }
        s
    }
}

impl Default for ColorU {
    fn default() -> (r: Self)
        ensures
            r == (ColorU { r: 0, g: 0, b: 0, a: 255 }),
    {
        ColorU::black()
    }
}

/// Lowercase hex digit of `n < 16`.
pub open spec fn hex_digit(n: nat) -> char {
    if n < 10 {
        ((48 + n) as u8) as char
    } else {
        ((87 + n) as u8) as char
    }
}

/// Lowercase hex digits of `n`, without leading zeros.
pub open spec fn hex_of(n: nat) -> Seq<char>
    decreases n,
{
    if n < 16 {
        seq![hex_digit(n)]
    } else {
        hex_of(n / 16).push(hex_digit(n % 16))
    }
}

/// `#` followed by the hex digits of the four channels.
pub open spec fn hash_text(c: ColorU) -> Seq<char> {
    seq!['#'] + hex_of(c.r as nat) + hex_of(c.g as nat) + hex_of(c.b as nat) + hex_of(c.a as nat)
}

fn hex_digit_char(n: u8) -> (r: char)
    requires
        n < 16,
    ensures
        r == hex_digit(n as nat),
{
    if n < 10 {
        (48 + n) as char
    } else {
        (87 + n) as char
    }
}

fn push_hex(s: &mut String, v: u8)
    ensures
        final(s)@ == old(s)@ + hex_of(v as nat),
{
    proof {
        reveal_with_fuel(hex_of, 2);
    }
    if v >= 16 {
        push_char(s, hex_digit_char(v / 16));
    }
    push_char(s, hex_digit_char(v % 16));
    proof {
        if v >= 16 {
            assert(hex_of((v / 16) as nat) == seq![hex_digit((v / 16) as nat)]);
        }
        assert(final(s)@ =~= old(s)@ + hex_of(v as nat));
    }
}

} // verus!
