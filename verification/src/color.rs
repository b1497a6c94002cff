//! Colours of three eight-bit channels and their packed form.

use vstd::prelude::*;
use vstd::string::StringExecFns;

use crate::number::{decimal, digit_char};

verus! {

/// A colour of three eight-bit channels: red, green and blue.
#[derive(Debug, Clone, Copy, PartialEq, Eq, Structural)]
pub struct Color {
    pub r: u8,
    pub g: u8,
    pub b: u8,
}

impl Color {
    /// The colour of the three channels given.
    pub fn new(r: u8, g: u8, b: u8) -> (c: Color)
        ensures
            c == (Color { r, g, b }),
    {
        Color { r, g, b }
    }

    /// The packed form of this colour: red in bits 16 to 23, green in bits
    /// 8 to 15, blue in bits 0 to 7, and nothing above.
    pub open spec fn packed(self) -> u32 {
        (self.r * 0x1_0000 + self.g * 0x100 + self.b) as u32
    }

    /// The packed form of this colour: `0x00RRGGBB`.
    pub fn to_u32(&self) -> (p: u32)
        ensures
            p == self.packed(),
            p == self.r * 0x1_0000 + self.g * 0x100 + self.b,
    {
        let r: u32 = self.r as u32;
        let g: u32 = self.g as u32;
        let b: u32 = self.b as u32;
        assert((r << 16) | (g << 8) | b == r * 0x1_0000 + g * 0x100 + b) by (bit_vector)
            requires
                r <= 0xff,
                g <= 0xff,
                b <= 0xff,
        ;
        (r << 16) | (g << 8) | b
    }
}

/// A colour as text: `Color(r: 1, g: 2, b: 3)` for the colour of the
/// channels 1, 2 and 3.
pub open spec fn color_text(c: Color) -> Seq<char> {
    "Color(r: "@ + decimal(c.r as nat) + ", g: "@ + decimal(c.g as nat) + ", b: "@ + decimal(
        c.b as nat,
    ) + ")"@
}

/// The decimal digit `d` as text.
fn digit_text(d: u8) -> (t: &'static str)
    requires
        d <= 9,
    ensures
        t@ == seq![digit_char(d as int)],
{
    proof {
        reveal_strlit("0");
        reveal_strlit("1");
        reveal_strlit("2");
        reveal_strlit("3");
        reveal_strlit("4");
        reveal_strlit("5");
        reveal_strlit("6");
        reveal_strlit("7");
        reveal_strlit("8");
        reveal_strlit("9");
    }
    let t = if d == 0 {
        "0"
    } else if d == 1 {
        "1"
    } else if d == 2 {
        "2"
    } else if d == 3 {
        "3"
    } else if d == 4 {
        "4"
    } else if d == 5 {
        "5"
    } else if d == 6 {
        "6"
    } else if d == 7 {
        "7"
    } else if d == 8 {
        "8"
    } else {
        "9"
    };
    assert(t@ =~= seq![digit_char(d as int)]);
    t
}

/// Appends the decimal digits of `n` to `text`.
fn push_decimal(text: &mut String, n: u8)
    ensures
        final(text)@ == old(text)@ + decimal(n as nat),
{
    let hundreds: u8 = n / 100;
    let tens: u8 = (n / 10) % 10;
    let ones: u8 = n % 10;
    let ghost start = text@;
    if hundreds > 0 {
        text.append(digit_text(hundreds));
    }
    if hundreds > 0 || tens > 0 {
        text.append(digit_text(tens));
    }
    text.append(digit_text(ones));
    proof {
        let v = n as nat;
        if v < 10 {
            assert(text@ =~= start + decimal(v));
        } else if v < 100 {
            assert(decimal(v / 10) == seq![digit_char(tens as int)]);
            assert(text@ =~= start + decimal(v));
        } else {
            assert(decimal(v / 100) == seq![digit_char(hundreds as int)]);
            assert(decimal(v / 10) == decimal(v / 100) + seq![digit_char(tens as int)]) by {
                assert((v / 10) / 10 == v / 100);
            }
            assert(text@ =~= start + decimal(v));
        }
    }
}

impl Color {
    /// This colour as text: `color_text`.
    pub fn to_text(&self) -> (text: String)
        ensures
            text@ == color_text(*self),
    {
        let mut text = String::from_str("Color(r: ");
        push_decimal(&mut text, self.r);
        text.append(", g: ");
        push_decimal(&mut text, self.g);
        text.append(", b: ");
        push_decimal(&mut text, self.b);
        text.append(")");
        text
    }
}

/// Packing loses nothing: each channel can be read back from the packed
/// form.
pub proof fn lemma_packed_channels(c: Color)
    ensures
        c.packed() <= 0xff_ffff,
        (c.packed() / 0x1_0000) % 0x100 == c.r,
        (c.packed() / 0x100) % 0x100 == c.g,
        c.packed() % 0x100 == c.b,
{
}

/// Two colours with the same packed form are the same colour.
pub proof fn lemma_packed_injective(a: Color, b: Color)
    requires
        a.packed() == b.packed(),
    ensures
        a == b,
{
    lemma_packed_channels(a);
    lemma_packed_channels(b);
}

} // verus!
