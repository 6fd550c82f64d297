//! The RGB triple: three 8-bit channels, rendered as hex or decimal text.

use vstd::prelude::*;

use crate::hex::{colour_hex, push_colour_hex};
use crate::text::{decimal_text, push_decimal};

verus! {

/// An RGB colour: red, green and blue channels of eight bits each.
#[derive(Clone, Copy, Debug, PartialEq, Eq, Structural)]
pub struct ColourRgb {
    pub red: u8,
    pub green: u8,
    pub blue: u8,
}

/// `rgb(R,G,B)`, each channel in decimal.
pub open spec fn rgb_text(c: ColourRgb) -> Seq<char> {
    "rgb"@ + tuple_text(c)
}

/// `(R,G,B)`, each channel in decimal.
pub open spec fn tuple_text(c: ColourRgb) -> Seq<char> {
    seq!['('] + decimal_text(c.red as nat) + seq![','] + decimal_text(c.green as nat) + seq![',']
        + decimal_text(c.blue as nat) + seq![')']
}

impl ColourRgb {
    /// A colour from its three channels.
    pub fn new(red: u8, green: u8, blue: u8) -> (r: ColourRgb)
        ensures
            r == (ColourRgb { red, green, blue }),
    {
        ColourRgb { red, green, blue }
    }

    /// `#RRGGBB`, with capital hex digits.
    pub fn as_hex(&self) -> (r: String)
        ensures
            r@ == seq!['#'] + colour_hex(*self, true),
    {
        let mut out = String::new();
        out.append("#");
        proof {
            reveal_strlit("#");
        }
        push_colour_hex(&mut out, *self, true);
        assert(out@ =~= seq!['#'] + colour_hex(*self, true));
        out
    }

    /// `rrggbb`, with small hex digits and no prefix.
    pub fn to_hex_string(&self) -> (r: String)
        ensures
            r@ == colour_hex(*self, false),
    {
        let mut out = String::new();
        push_colour_hex(&mut out, *self, false);
        assert(out@ =~= colour_hex(*self, false));
        out
    }

    /// `rgb(R,G,B)`, each channel in decimal.
    pub fn to_string(&self) -> (r: String)
        ensures
            r@ == rgb_text(*self),
    {
        let mut out = String::new();
        out.append("rgb");
        push_tuple(&mut out, *self);
        assert(out@ =~= rgb_text(*self));
        out
    }

    /// `(R,G,B)`, each channel in decimal: the bare tuple form.
    pub fn to_tuple_string(&self) -> (r: String)
        ensures
            r@ == tuple_text(*self),
    {
        let mut out = String::new();
        push_tuple(&mut out, *self);
        assert(out@ =~= tuple_text(*self));
        out
    }
}

/// Appends `(R,G,B)` to `out`.
fn push_tuple(out: &mut String, c: ColourRgb)
    ensures
        final(out)@ == old(out)@ + tuple_text(c),
{
    proof {
        reveal_strlit("(");
        reveal_strlit(",");
        reveal_strlit(")");
    }
    out.append("(");
    push_decimal(out, c.red);
    out.append(",");
    push_decimal(out, c.green);
    out.append(",");
    push_decimal(out, c.blue);
    out.append(")");
    assert(out@ =~= old(out)@ + tuple_text(c));
}

/// Hex renderings of a colour.
pub trait ToHex {
    /// The colour as `#RRGGBB`, with capital digits.
    fn as_hex(&self) -> String;

    /// The colour as `rrggbb`, with small digits and no prefix.
    fn to_hex_string(&self) -> String;
}

impl ToHex for ColourRgb {
    fn as_hex(&self) -> (r: String)
        ensures
            r@ == seq!['#'] + colour_hex(*self, true),
    {
        ColourRgb::as_hex(self)
    }

    fn to_hex_string(&self) -> (r: String)
        ensures
            r@ == colour_hex(*self, false),
    {
        ColourRgb::to_hex_string(self)
    }
}

} // verus!
