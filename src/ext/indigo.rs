//! Shades of indigo.

use vstd::prelude::*;

use crate::ext::ExtendedColour;
use crate::family::{self, drawn, lookup, ColourFamily};
use crate::hex::{encode, hex_colour, hex_triplet, is_hex_digit};
use crate::rgb::{tuple_text, ColourRgb};
use crate::text::{ascii_lower, is_ascii_text, lower_of};
use crate::Prefix;

verus! {

/// Shades of indigo.
#[derive(Clone, Copy, Debug, PartialEq, Eq, Hash, Structural)]
pub enum Indigo {
    BlueViolet,
    Indigo,
    DarkSlateBlue,
    SlateBlue,
    MediumSlateBlue,
    MediumPurple,
    DarkMagenta,
    DarkViolet,
    DarkOrchid,
    MediumOrchid,
}

impl ColourFamily for Indigo {
    open spec fn count() -> nat {
        10
    }

    open spec fn position(self) -> nat {
        match self {
            Indigo::BlueViolet => 0,
            Indigo::Indigo => 1,
            Indigo::DarkSlateBlue => 2,
            Indigo::SlateBlue => 3,
            Indigo::MediumSlateBlue => 4,
            Indigo::MediumPurple => 5,
            Indigo::DarkMagenta => 6,
            Indigo::DarkViolet => 7,
            Indigo::DarkOrchid => 8,
            Indigo::MediumOrchid => 9,
        }
    }

    open spec fn colour(self) -> ColourRgb {
        match self {
            Indigo::BlueViolet => ColourRgb { red: 0x8A, green: 0x2B, blue: 0xE2 },
            Indigo::Indigo => ColourRgb { red: 0x4B, green: 0x00, blue: 0x82 },
            Indigo::DarkSlateBlue => ColourRgb { red: 0x48, green: 0x3D, blue: 0x8B },
            Indigo::SlateBlue => ColourRgb { red: 0x6A, green: 0x5A, blue: 0xCD },
            Indigo::MediumSlateBlue => ColourRgb { red: 0x7B, green: 0x68, blue: 0xEE },
            Indigo::MediumPurple => ColourRgb { red: 0x93, green: 0x70, blue: 0xDB },
            Indigo::DarkMagenta => ColourRgb { red: 0x8B, green: 0x00, blue: 0x8B },
            Indigo::DarkViolet => ColourRgb { red: 0x94, green: 0x00, blue: 0xD3 },
            Indigo::DarkOrchid => ColourRgb { red: 0x99, green: 0x32, blue: 0xCC },
            Indigo::MediumOrchid => ColourRgb { red: 0xBA, green: 0x55, blue: 0xD3 },
        }
    }

    open spec fn name(self) -> Seq<char> {
        match self {
            Indigo::BlueViolet => "blueviolet"@,
            Indigo::Indigo => "indigo"@,
            Indigo::DarkSlateBlue => "darkslateblue"@,
            Indigo::SlateBlue => "slateblue"@,
            Indigo::MediumSlateBlue => "mediumslateblue"@,
            Indigo::MediumPurple => "mediumpurple"@,
            Indigo::DarkMagenta => "darkmagenta"@,
            Indigo::DarkViolet => "darkviolet"@,
            Indigo::DarkOrchid => "darkorchid"@,
            Indigo::MediumOrchid => "mediumorchid"@,
        }
    }

    open spec fn hex_holder(self) -> Indigo {
        self
    }

    open spec fn fallback() -> Indigo {
        Indigo::Indigo
    }

    proof fn lemma_table() {
        reveal_strlit("blueviolet");
        reveal_strlit("indigo");
        reveal_strlit("darkslateblue");
        reveal_strlit("slateblue");
        reveal_strlit("mediumslateblue");
        reveal_strlit("mediumpurple");
        reveal_strlit("darkmagenta");
        reveal_strlit("darkviolet");
        reveal_strlit("darkorchid");
        reveal_strlit("mediumorchid");
        // Two distinct names differ in length or at some position.
        assert forall|v: Indigo, w: Indigo| v.name() == w.name() implies v == w by {
            let x = v.name();
            let y = w.name();
            assert(x.len() == y.len());
            assert(x[0] == y[0]);
            assert(x[1] == y[1]);
            assert(x[2] == y[2]);
            assert(x[3] == y[3]);
            assert(x[4] == y[4]);
            assert(x[5] == y[5]);
            assert(x[6] == y[6]);
            assert(x[7] == y[7]);
            assert(x[8] == y[8]);
            assert(x[9] == y[9]);
            assert(x[10] == y[10]);
            assert(x[11] == y[11]);
            assert(x[12] == y[12]);
            assert(x[13] == y[13]);
            assert(x[14] == y[14]);
        }
        // No name starts with `#`, and none is six hex digits.
        assert forall|v: Indigo| hex_colour(#[trigger] v.name()) is None by {
            let x = v.name();
            assert(x[0] != '#');
            assert(x.len() != 6 || !is_hex_digit(x[0]) || !is_hex_digit(x[1]) || !is_hex_digit(x[2])
                || !is_hex_digit(x[3]) || !is_hex_digit(x[4]) || !is_hex_digit(x[5]));
        }
    }

    fn variant_count() -> usize {
        10
    }

    fn at(i: usize) -> Indigo {
        match i {
            0 => Indigo::BlueViolet,
            1 => Indigo::Indigo,
            2 => Indigo::DarkSlateBlue,
            3 => Indigo::SlateBlue,
            4 => Indigo::MediumSlateBlue,
            5 => Indigo::MediumPurple,
            6 => Indigo::DarkMagenta,
            7 => Indigo::DarkViolet,
            8 => Indigo::DarkOrchid,
            9 => Indigo::MediumOrchid,
            _ => Indigo::Indigo,
        }
    }

    fn channels(&self) -> ColourRgb {
        match self {
            Indigo::BlueViolet => ColourRgb { red: 0x8A, green: 0x2B, blue: 0xE2 },
            Indigo::Indigo => ColourRgb { red: 0x4B, green: 0x00, blue: 0x82 },
            Indigo::DarkSlateBlue => ColourRgb { red: 0x48, green: 0x3D, blue: 0x8B },
            Indigo::SlateBlue => ColourRgb { red: 0x6A, green: 0x5A, blue: 0xCD },
            Indigo::MediumSlateBlue => ColourRgb { red: 0x7B, green: 0x68, blue: 0xEE },
            Indigo::MediumPurple => ColourRgb { red: 0x93, green: 0x70, blue: 0xDB },
            Indigo::DarkMagenta => ColourRgb { red: 0x8B, green: 0x00, blue: 0x8B },
            Indigo::DarkViolet => ColourRgb { red: 0x94, green: 0x00, blue: 0xD3 },
            Indigo::DarkOrchid => ColourRgb { red: 0x99, green: 0x32, blue: 0xCC },
            Indigo::MediumOrchid => ColourRgb { red: 0xBA, green: 0x55, blue: 0xD3 },
        }
    }

    fn name_text(&self) -> &'static str {
        match self {
            Indigo::BlueViolet => "blueviolet",
            Indigo::Indigo => "indigo",
            Indigo::DarkSlateBlue => "darkslateblue",
            Indigo::SlateBlue => "slateblue",
            Indigo::MediumSlateBlue => "mediumslateblue",
            Indigo::MediumPurple => "mediumpurple",
            Indigo::DarkMagenta => "darkmagenta",
            Indigo::DarkViolet => "darkviolet",
            Indigo::DarkOrchid => "darkorchid",
            Indigo::MediumOrchid => "mediumorchid",
        }
    }

    fn holds_hex(&self) -> bool {
        true
    }
}

impl Indigo {
    /// The colour as RGB channels.
    pub fn to_rgb(&self) -> (r: ColourRgb)
        ensures
            r == self.colour(),
    {
        self.channels()
    }

    /// The colour as six capital hex digits, after the chosen prefix.
    pub fn to_hex_triplet(&self, prefix: Prefix) -> (r: String)
        ensures
            r@ == hex_triplet(self.colour(), prefix),
    {
        encode(self.channels(), prefix)
    }

    /// The canonical hex code of the colour, `#RRGGBB`.
    pub fn to_string(&self) -> (r: String)
        ensures
            r@ == hex_triplet(self.colour(), Prefix::Hash),
    {
        encode(self.channels(), Prefix::Hash)
    }

    /// The colour as a decimal tuple, `(R,G,B)`.
    pub fn as_rgb(&self) -> (r: String)
        ensures
            r@ == tuple_text(self.colour()),
    {
        self.channels().to_tuple_string()
    }

    /// The colour that a name or hex code (any case, `#` optional) stands for.
    pub fn parse(name: &str) -> (r: Option<Indigo>)
        ensures
            r == lookup::<Indigo>(lower_of(name@)),
            is_ascii_text(name@) ==> r == lookup::<Indigo>(ascii_lower(name@)),
    {
        family::parse(name)
    }

    /// A colour of this family drawn at random.
    pub fn random() -> (r: Indigo)
        ensures
            exists|i: nat| i < Indigo::count() && r == drawn::<Indigo>(i),
    {
        family::random()
    }
}

impl core::str::FromStr for Indigo {
    type Err = String;

    fn from_str(s: &str) -> Result<Indigo, String> {
        family::from_string(s)
    }
}

impl ExtendedColour for Indigo {}

} // verus!
