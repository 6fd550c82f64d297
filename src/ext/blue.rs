//! Shades of blue.

use vstd::prelude::*;

use crate::ext::ExtendedColour;
use crate::family::{self, drawn, lookup, ColourFamily};
use crate::hex::{encode, hex_colour, hex_triplet, is_hex_digit};
use crate::rgb::{tuple_text, ColourRgb};
use crate::text::{ascii_lower, is_ascii_text, lower_of};
use crate::Prefix;

verus! {

/// Shades of blue.
#[derive(Clone, Copy, Debug, PartialEq, Eq, Hash, Structural)]
pub enum Blue {
    PowderBlue,
    CadetBlue,
    SteelBlue,
    CornflowerBlue,
    DeepSkyBlue,
    DodgerBlue,
    LightBlue,
    SkyBlue,
    LightSkyBlue,
    MidnightBlue,
    Navy,
    DarkBlue,
    MediumBlue,
    Blue,
    RoyalBlue,
    Azure,
    LightSteelBlue,
}

impl ColourFamily for Blue {
    open spec fn count() -> nat {
        17
    }

    open spec fn position(self) -> nat {
        match self {
            Blue::PowderBlue => 0,
            Blue::CadetBlue => 1,
            Blue::SteelBlue => 2,
            Blue::CornflowerBlue => 3,
            Blue::DeepSkyBlue => 4,
            Blue::DodgerBlue => 5,
            Blue::LightBlue => 6,
            Blue::SkyBlue => 7,
            Blue::LightSkyBlue => 8,
            Blue::MidnightBlue => 9,
            Blue::Navy => 10,
            Blue::DarkBlue => 11,
            Blue::MediumBlue => 12,
            Blue::Blue => 13,
            Blue::RoyalBlue => 14,
            Blue::Azure => 15,
            Blue::LightSteelBlue => 16,
        }
    }

    open spec fn colour(self) -> ColourRgb {
        match self {
            Blue::PowderBlue => ColourRgb { red: 0xB0, green: 0xE0, blue: 0xE6 },
            Blue::CadetBlue => ColourRgb { red: 0x5F, green: 0x9E, blue: 0xA0 },
            Blue::SteelBlue => ColourRgb { red: 0x46, green: 0x82, blue: 0xB4 },
            Blue::CornflowerBlue => ColourRgb { red: 0x64, green: 0x95, blue: 0xED },
            Blue::DeepSkyBlue => ColourRgb { red: 0x00, green: 0xBF, blue: 0xFF },
            Blue::DodgerBlue => ColourRgb { red: 0x1E, green: 0x90, blue: 0xFF },
            Blue::LightBlue => ColourRgb { red: 0xAD, green: 0xD8, blue: 0xE6 },
            Blue::SkyBlue => ColourRgb { red: 0x87, green: 0xCE, blue: 0xEB },
            Blue::LightSkyBlue => ColourRgb { red: 0x87, green: 0xCE, blue: 0xFA },
            Blue::MidnightBlue => ColourRgb { red: 0x19, green: 0x19, blue: 0x70 },
            Blue::Navy => ColourRgb { red: 0x00, green: 0x00, blue: 0x80 },
            Blue::DarkBlue => ColourRgb { red: 0x00, green: 0x00, blue: 0x8B },
            Blue::MediumBlue => ColourRgb { red: 0x00, green: 0x00, blue: 0xCD },
            Blue::Blue => ColourRgb { red: 0x00, green: 0x00, blue: 0xFF },
            Blue::RoyalBlue => ColourRgb { red: 0x41, green: 0x69, blue: 0xE1 },
            Blue::Azure => ColourRgb { red: 0xF0, green: 0xFF, blue: 0xFF },
            Blue::LightSteelBlue => ColourRgb { red: 0xB0, green: 0xC4, blue: 0xDE },
        }
    }

    open spec fn name(self) -> Seq<char> {
        match self {
            Blue::PowderBlue => "powderblue"@,
            Blue::CadetBlue => "cadetblue"@,
            Blue::SteelBlue => "steelblue"@,
            Blue::CornflowerBlue => "cornflowerblue"@,
            Blue::DeepSkyBlue => "deepskyblue"@,
            Blue::DodgerBlue => "dodgerblue"@,
            Blue::LightBlue => "lightblue"@,
            Blue::SkyBlue => "skyblue"@,
            Blue::LightSkyBlue => "lightskyblue"@,
            Blue::MidnightBlue => "midnightblue"@,
            Blue::Navy => "navy"@,
            Blue::DarkBlue => "darkblue"@,
            Blue::MediumBlue => "mediumblue"@,
            Blue::Blue => "blue"@,
            Blue::RoyalBlue => "royalblue"@,
            Blue::Azure => "azure"@,
            Blue::LightSteelBlue => "lightsteelblue"@,
        }
    }

    open spec fn hex_holder(self) -> Blue {
        self
    }

    open spec fn fallback() -> Blue {
        Blue::Blue
    }

    proof fn lemma_table() {
        reveal_strlit("powderblue");
        reveal_strlit("cadetblue");
        reveal_strlit("steelblue");
        reveal_strlit("cornflowerblue");
        reveal_strlit("deepskyblue");
        reveal_strlit("dodgerblue");
        reveal_strlit("lightblue");
        reveal_strlit("skyblue");
        reveal_strlit("lightskyblue");
        reveal_strlit("midnightblue");
        reveal_strlit("navy");
        reveal_strlit("darkblue");
        reveal_strlit("mediumblue");
        reveal_strlit("blue");
        reveal_strlit("royalblue");
        reveal_strlit("azure");
        reveal_strlit("lightsteelblue");
        // Two distinct names differ in length or at some position.
        assert forall|v: Blue, w: Blue| v.name() == w.name() implies v == w by {
            let x = v.name();
            let y = w.name();
            assert(x.len() == y.len());
            assert(x[0] == y[0]);
            assert(x[1] == y[1]);
            assert(x[2] == y[2]);
            assert(x[3] == y[3]);
            assert(x[4] == y[4]);
            assert(x[5] == y[5]);
            assert(x[6] == y[6]);
            assert(x[7] == y[7]);
            assert(x[8] == y[8]);
            assert(x[9] == y[9]);
            assert(x[10] == y[10]);
            assert(x[11] == y[11]);
            assert(x[12] == y[12]);
            assert(x[13] == y[13]);
        }
        // No name starts with `#`, and none is six hex digits.
        assert forall|v: Blue| hex_colour(#[trigger] v.name()) is None by {
            let x = v.name();
            assert(x[0] != '#');
            assert(x.len() != 6 || !is_hex_digit(x[0]) || !is_hex_digit(x[1]) || !is_hex_digit(x[2])
                || !is_hex_digit(x[3]) || !is_hex_digit(x[4]) || !is_hex_digit(x[5]));
        }
    }

    fn variant_count() -> usize {
        17
    }

    fn at(i: usize) -> Blue {
        match i {
            0 => Blue::PowderBlue,
            1 => Blue::CadetBlue,
            2 => Blue::SteelBlue,
            3 => Blue::CornflowerBlue,
            4 => Blue::DeepSkyBlue,
            5 => Blue::DodgerBlue,
            6 => Blue::LightBlue,
            7 => Blue::SkyBlue,
            8 => Blue::LightSkyBlue,
            9 => Blue::MidnightBlue,
            10 => Blue::Navy,
            11 => Blue::DarkBlue,
            12 => Blue::MediumBlue,
            13 => Blue::Blue,
            14 => Blue::RoyalBlue,
            15 => Blue::Azure,
            16 => Blue::LightSteelBlue,
            _ => Blue::Blue,
        }
    }

    fn channels(&self) -> ColourRgb {
        match self {
            Blue::PowderBlue => ColourRgb { red: 0xB0, green: 0xE0, blue: 0xE6 },
            Blue::CadetBlue => ColourRgb { red: 0x5F, green: 0x9E, blue: 0xA0 },
            Blue::SteelBlue => ColourRgb { red: 0x46, green: 0x82, blue: 0xB4 },
            Blue::CornflowerBlue => ColourRgb { red: 0x64, green: 0x95, blue: 0xED },
            Blue::DeepSkyBlue => ColourRgb { red: 0x00, green: 0xBF, blue: 0xFF },
            Blue::DodgerBlue => ColourRgb { red: 0x1E, green: 0x90, blue: 0xFF },
            Blue::LightBlue => ColourRgb { red: 0xAD, green: 0xD8, blue: 0xE6 },
            Blue::SkyBlue => ColourRgb { red: 0x87, green: 0xCE, blue: 0xEB },
            Blue::LightSkyBlue => ColourRgb { red: 0x87, green: 0xCE, blue: 0xFA },
            Blue::MidnightBlue => ColourRgb { red: 0x19, green: 0x19, blue: 0x70 },
            Blue::Navy => ColourRgb { red: 0x00, green: 0x00, blue: 0x80 },
            Blue::DarkBlue => ColourRgb { red: 0x00, green: 0x00, blue: 0x8B },
            Blue::MediumBlue => ColourRgb { red: 0x00, green: 0x00, blue: 0xCD },
            Blue::Blue => ColourRgb { red: 0x00, green: 0x00, blue: 0xFF },
            Blue::RoyalBlue => ColourRgb { red: 0x41, green: 0x69, blue: 0xE1 },
            Blue::Azure => ColourRgb { red: 0xF0, green: 0xFF, blue: 0xFF },
            Blue::LightSteelBlue => ColourRgb { red: 0xB0, green: 0xC4, blue: 0xDE },
        }
    }

    fn name_text(&self) -> &'static str {
        match self {
            Blue::PowderBlue => "powderblue",
            Blue::CadetBlue => "cadetblue",
            Blue::SteelBlue => "steelblue",
            Blue::CornflowerBlue => "cornflowerblue",
            Blue::DeepSkyBlue => "deepskyblue",
            Blue::DodgerBlue => "dodgerblue",
            Blue::LightBlue => "lightblue",
            Blue::SkyBlue => "skyblue",
            Blue::LightSkyBlue => "lightskyblue",
            Blue::MidnightBlue => "midnightblue",
            Blue::Navy => "navy",
            Blue::DarkBlue => "darkblue",
            Blue::MediumBlue => "mediumblue",
            Blue::Blue => "blue",
            Blue::RoyalBlue => "royalblue",
            Blue::Azure => "azure",
            Blue::LightSteelBlue => "lightsteelblue",
        }
    }

    fn holds_hex(&self) -> bool {
        true
    }
}

impl Blue {
    /// The colour as RGB channels.
    pub fn to_rgb(&self) -> (r: ColourRgb)
        ensures
            r == self.colour(),
    {
        self.channels()
    }

    /// The colour as six capital hex digits, after the chosen prefix.
    pub fn to_hex_triplet(&self, prefix: Prefix) -> (r: String)
        ensures
            r@ == hex_triplet(self.colour(), prefix),
    {
        encode(self.channels(), prefix)
    }

    /// The canonical hex code of the colour, `#RRGGBB`.
    pub fn to_string(&self) -> (r: String)
        ensures
            r@ == hex_triplet(self.colour(), Prefix::Hash),
    {
        encode(self.channels(), Prefix::Hash)
    }

    /// The colour as a decimal tuple, `(R,G,B)`.
    pub fn as_rgb(&self) -> (r: String)
        ensures
            r@ == tuple_text(self.colour()),
    {
        self.channels().to_tuple_string()
    }

    /// The colour that a name or hex code (any case, `#` optional) stands for.
    pub fn parse(name: &str) -> (r: Option<Blue>)
        ensures
            r == lookup::<Blue>(lower_of(name@)),
            is_ascii_text(name@) ==> r == lookup::<Blue>(ascii_lower(name@)),
    {
        family::parse(name)
    }

    /// A colour of this family drawn at random.
    pub fn random() -> (r: Blue)
        ensures
            exists|i: nat| i < Blue::count() && r == drawn::<Blue>(i),
    {
        family::random()
    }
}

impl core::str::FromStr for Blue {
    type Err = String;

    fn from_str(s: &str) -> Result<Blue, String> {
        family::from_string(s)
    }
}

impl ExtendedColour for Blue {}

} // verus!
