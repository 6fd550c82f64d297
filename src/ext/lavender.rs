//! Shades of lavender.

use vstd::prelude::*;

use crate::ext::ExtendedColour;
use crate::family::{self, drawn, lookup, ColourFamily};
use crate::hex::{encode, hex_colour, hex_triplet, is_hex_digit};
use crate::rgb::{tuple_text, ColourRgb};
use crate::text::{ascii_lower, is_ascii_text, lower_of};
use crate::Prefix;

verus! {

/// Shades of lavender.
#[derive(Clone, Copy, Debug, PartialEq, Eq, Hash, Structural)]
pub enum Lavender {
    SlateGray,
    LightSlateGray,
    LightSteelBlue,
    Lavender,
    AliceBlue,
}

impl ColourFamily for Lavender {
    open spec fn count() -> nat {
        5
    }

    open spec fn position(self) -> nat {
        match self {
            Lavender::SlateGray => 0,
            Lavender::LightSlateGray => 1,
            Lavender::LightSteelBlue => 2,
            Lavender::Lavender => 3,
            Lavender::AliceBlue => 4,
        }
    }

    open spec fn colour(self) -> ColourRgb {
        match self {
            Lavender::SlateGray => ColourRgb { red: 0x70, green: 0x80, blue: 0x90 },
            Lavender::LightSlateGray => ColourRgb { red: 0x77, green: 0x88, blue: 0x99 },
            Lavender::LightSteelBlue => ColourRgb { red: 0xB0, green: 0xC4, blue: 0xDE },
            Lavender::Lavender => ColourRgb { red: 0xE6, green: 0xE6, blue: 0xFA },
            Lavender::AliceBlue => ColourRgb { red: 0xF0, green: 0xF8, blue: 0xFF },
        }
    }

    open spec fn name(self) -> Seq<char> {
        match self {
            Lavender::SlateGray => "slategray"@,
            Lavender::LightSlateGray => "lightslategray"@,
            Lavender::LightSteelBlue => "lightsteelblue"@,
            Lavender::Lavender => "lavender"@,
            Lavender::AliceBlue => "aliceblue"@,
        }
    }

    open spec fn hex_holder(self) -> Lavender {
        self
    }

    open spec fn fallback() -> Lavender {
        Lavender::Lavender
    }

    proof fn lemma_table() {
        reveal_strlit("slategray");
        reveal_strlit("lightslategray");
        reveal_strlit("lightsteelblue");
        reveal_strlit("lavender");
        reveal_strlit("aliceblue");
        // Two distinct names differ in length or at some position.
        assert forall|v: Lavender, w: Lavender| v.name() == w.name() implies v == w by {
            let x = v.name();
            let y = w.name();
            assert(x.len() == y.len());
            assert(x[0] == y[0]);
            assert(x[1] == y[1]);
            assert(x[2] == y[2]);
            assert(x[3] == y[3]);
            assert(x[4] == y[4]);
            assert(x[5] == y[5]);
            assert(x[6] == y[6]);
            assert(x[7] == y[7]);
            assert(x[8] == y[8]);
            assert(x[9] == y[9]);
            assert(x[10] == y[10]);
            assert(x[11] == y[11]);
            assert(x[12] == y[12]);
            assert(x[13] == y[13]);
        }
        // No name starts with `#`, and none is six hex digits.
        assert forall|v: Lavender| hex_colour(#[trigger] v.name()) is None by {
            let x = v.name();
            assert(x[0] != '#');
            assert(x.len() != 6 || !is_hex_digit(x[0]) || !is_hex_digit(x[1]) || !is_hex_digit(x[2])
                || !is_hex_digit(x[3]) || !is_hex_digit(x[4]) || !is_hex_digit(x[5]));
        }
    }

    fn variant_count() -> usize {
        5
    }

    fn at(i: usize) -> Lavender {
        match i {
            0 => Lavender::SlateGray,
            1 => Lavender::LightSlateGray,
            2 => Lavender::LightSteelBlue,
            3 => Lavender::Lavender,
            4 => Lavender::AliceBlue,
            _ => Lavender::Lavender,
        }
    }

    fn channels(&self) -> ColourRgb {
        match self {
            Lavender::SlateGray => ColourRgb { red: 0x70, green: 0x80, blue: 0x90 },
            Lavender::LightSlateGray => ColourRgb { red: 0x77, green: 0x88, blue: 0x99 },
            Lavender::LightSteelBlue => ColourRgb { red: 0xB0, green: 0xC4, blue: 0xDE },
            Lavender::Lavender => ColourRgb { red: 0xE6, green: 0xE6, blue: 0xFA },
            Lavender::AliceBlue => ColourRgb { red: 0xF0, green: 0xF8, blue: 0xFF },
        }
    }

    fn name_text(&self) -> &'static str {
        match self {
            Lavender::SlateGray => "slategray",
            Lavender::LightSlateGray => "lightslategray",
            Lavender::LightSteelBlue => "lightsteelblue",
            Lavender::Lavender => "lavender",
            Lavender::AliceBlue => "aliceblue",
        }
    }

    fn holds_hex(&self) -> bool {
        true
    }
}

impl Lavender {
    /// The colour as RGB channels.
    pub fn to_rgb(&self) -> (r: ColourRgb)
        ensures
            r == self.colour(),
    {
        self.channels()
    }

    /// The colour as six capital hex digits, after the chosen prefix.
    pub fn to_hex_triplet(&self, prefix: Prefix) -> (r: String)
        ensures
            r@ == hex_triplet(self.colour(), prefix),
    {
        encode(self.channels(), prefix)
    }

    /// The canonical hex code of the colour, `#RRGGBB`.
    pub fn to_string(&self) -> (r: String)
        ensures
            r@ == hex_triplet(self.colour(), Prefix::Hash),
    {
        encode(self.channels(), Prefix::Hash)
    }

    /// The colour as a decimal tuple, `(R,G,B)`.
    pub fn as_rgb(&self) -> (r: String)
        ensures
            r@ == tuple_text(self.colour()),
    {
        self.channels().to_tuple_string()
    }

    /// The colour that a name or hex code (any case, `#` optional) stands for.
    pub fn parse(name: &str) -> (r: Option<Lavender>)
        ensures
            r == lookup::<Lavender>(lower_of(name@)),
            is_ascii_text(name@) ==> r == lookup::<Lavender>(ascii_lower(name@)),
    {
        family::parse(name)
    }

    /// A colour of this family drawn at random.
    pub fn random() -> (r: Lavender)
        ensures
            exists|i: nat| i < Lavender::count() && r == drawn::<Lavender>(i),
    {
        family::random()
    }
}

impl core::str::FromStr for Lavender {
    type Err = String;

    fn from_str(s: &str) -> Result<Lavender, String> {
        family::from_string(s)
    }
}

impl ExtendedColour for Lavender {}

} // verus!
