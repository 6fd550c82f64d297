//! Shades of yellow.

use vstd::prelude::*;

use crate::ext::ExtendedColour;
use crate::family::{self, drawn, lookup, ColourFamily};
use crate::hex::{encode, hex_colour, hex_triplet, is_hex_digit};
use crate::rgb::{tuple_text, ColourRgb};
use crate::text::{ascii_lower, is_ascii_text, lower_of};
use crate::Prefix;

verus! {

/// Shades of yellow.
#[derive(Clone, Copy, Debug, PartialEq, Eq, Hash, Structural)]
pub enum Yellow {
    Gold,
    DarkGoldenrod,
    Goldenrod,
    PaleGoldenrod,
    DarkKhaki,
    Khaki,
    Yellow,
    YellowGreen,
    PeachPuff,
    Moccasin,
    PapayaWhip,
    LightGoldenrodYellow,
    LemonChiffon,
    LightYellow,
}

impl ColourFamily for Yellow {
    open spec fn count() -> nat {
        14
    }

    open spec fn position(self) -> nat {
        match self {
            Yellow::Gold => 0,
            Yellow::DarkGoldenrod => 1,
            Yellow::Goldenrod => 2,
            Yellow::PaleGoldenrod => 3,
            Yellow::DarkKhaki => 4,
            Yellow::Khaki => 5,
            Yellow::Yellow => 6,
            Yellow::YellowGreen => 7,
            Yellow::PeachPuff => 8,
            Yellow::Moccasin => 9,
            Yellow::PapayaWhip => 10,
            Yellow::LightGoldenrodYellow => 11,
            Yellow::LemonChiffon => 12,
            Yellow::LightYellow => 13,
        }
    }

    open spec fn colour(self) -> ColourRgb {
        match self {
            Yellow::Gold => ColourRgb { red: 0xFF, green: 0xD7, blue: 0x00 },
            Yellow::DarkGoldenrod => ColourRgb { red: 0xB8, green: 0x86, blue: 0x0B },
            Yellow::Goldenrod => ColourRgb { red: 0xDA, green: 0xA5, blue: 0x20 },
            Yellow::PaleGoldenrod => ColourRgb { red: 0xEE, green: 0xE8, blue: 0xAA },
            Yellow::DarkKhaki => ColourRgb { red: 0xBD, green: 0xB7, blue: 0x6B },
            Yellow::Khaki => ColourRgb { red: 0xF0, green: 0xE6, blue: 0x8C },
            Yellow::Yellow => ColourRgb { red: 0xFF, green: 0xFF, blue: 0x00 },
            Yellow::YellowGreen => ColourRgb { red: 0x9A, green: 0xCD, blue: 0x32 },
            Yellow::PeachPuff => ColourRgb { red: 0xFF, green: 0xDA, blue: 0xB9 },
            Yellow::Moccasin => ColourRgb { red: 0xFF, green: 0xE4, blue: 0xB5 },
            Yellow::PapayaWhip => ColourRgb { red: 0xFF, green: 0xEF, blue: 0xD5 },
            Yellow::LightGoldenrodYellow => ColourRgb { red: 0xFA, green: 0xFA, blue: 0xD2 },
            Yellow::LemonChiffon => ColourRgb { red: 0xFF, green: 0xFA, blue: 0xCD },
            Yellow::LightYellow => ColourRgb { red: 0xFF, green: 0xFF, blue: 0xE0 },
        }
    }

    open spec fn name(self) -> Seq<char> {
        match self {
            Yellow::Gold => "gold"@,
            Yellow::DarkGoldenrod => "darkgoldenrod"@,
            Yellow::Goldenrod => "goldenrod"@,
            Yellow::PaleGoldenrod => "palegoldenrod"@,
            Yellow::DarkKhaki => "darkkhaki"@,
            Yellow::Khaki => "khaki"@,
            Yellow::Yellow => "yellow"@,
            Yellow::YellowGreen => "yellowgreen"@,
            Yellow::PeachPuff => "peachpuff"@,
            Yellow::Moccasin => "moccasin"@,
            Yellow::PapayaWhip => "papayawhip"@,
            Yellow::LightGoldenrodYellow => "lightgoldenrodyellow"@,
            Yellow::LemonChiffon => "lemonchiffon"@,
            Yellow::LightYellow => "lightyellow"@,
        }
    }

    open spec fn hex_holder(self) -> Yellow {
        self
    }

    open spec fn fallback() -> Yellow {
        Yellow::Yellow
    }

    proof fn lemma_table() {
        reveal_strlit("gold");
        reveal_strlit("darkgoldenrod");
        reveal_strlit("goldenrod");
        reveal_strlit("palegoldenrod");
        reveal_strlit("darkkhaki");
        reveal_strlit("khaki");
        reveal_strlit("yellow");
        reveal_strlit("yellowgreen");
        reveal_strlit("peachpuff");
        reveal_strlit("moccasin");
        reveal_strlit("papayawhip");
        reveal_strlit("lightgoldenrodyellow");
        reveal_strlit("lemonchiffon");
        reveal_strlit("lightyellow");
        // Two distinct names differ in length or at some position.
        assert forall|v: Yellow, w: Yellow| v.name() == w.name() implies v == w by {
            let x = v.name();
            let y = w.name();
            assert(x.len() == y.len());
            assert(x[0] == y[0]);
            assert(x[1] == y[1]);
            assert(x[2] == y[2]);
            assert(x[3] == y[3]);
            assert(x[4] == y[4]);
            assert(x[5] == y[5]);
            assert(x[6] == y[6]);
            assert(x[7] == y[7]);
            assert(x[8] == y[8]);
            assert(x[9] == y[9]);
            assert(x[10] == y[10]);
            assert(x[11] == y[11]);
            assert(x[12] == y[12]);
            assert(x[13] == y[13]);
            assert(x[14] == y[14]);
            assert(x[15] == y[15]);
            assert(x[16] == y[16]);
            assert(x[17] == y[17]);
            assert(x[18] == y[18]);
            assert(x[19] == y[19]);
        }
        // No name starts with `#`, and none is six hex digits.
        assert forall|v: Yellow| hex_colour(#[trigger] v.name()) is None by {
            let x = v.name();
            assert(x[0] != '#');
            assert(x.len() != 6 || !is_hex_digit(x[0]) || !is_hex_digit(x[1]) || !is_hex_digit(x[2])
                || !is_hex_digit(x[3]) || !is_hex_digit(x[4]) || !is_hex_digit(x[5]));
        }
    }

    fn variant_count() -> usize {
        14
    }

    fn at(i: usize) -> Yellow {
        match i {
            0 => Yellow::Gold,
            1 => Yellow::DarkGoldenrod,
            2 => Yellow::Goldenrod,
            3 => Yellow::PaleGoldenrod,
            4 => Yellow::DarkKhaki,
            5 => Yellow::Khaki,
            6 => Yellow::Yellow,
            7 => Yellow::YellowGreen,
            8 => Yellow::PeachPuff,
            9 => Yellow::Moccasin,
            10 => Yellow::PapayaWhip,
            11 => Yellow::LightGoldenrodYellow,
            12 => Yellow::LemonChiffon,
            13 => Yellow::LightYellow,
            _ => Yellow::Yellow,
        }
    }

    fn channels(&self) -> ColourRgb {
        match self {
            Yellow::Gold => ColourRgb { red: 0xFF, green: 0xD7, blue: 0x00 },
            Yellow::DarkGoldenrod => ColourRgb { red: 0xB8, green: 0x86, blue: 0x0B },
            Yellow::Goldenrod => ColourRgb { red: 0xDA, green: 0xA5, blue: 0x20 },
            Yellow::PaleGoldenrod => ColourRgb { red: 0xEE, green: 0xE8, blue: 0xAA },
            Yellow::DarkKhaki => ColourRgb { red: 0xBD, green: 0xB7, blue: 0x6B },
            Yellow::Khaki => ColourRgb { red: 0xF0, green: 0xE6, blue: 0x8C },
            Yellow::Yellow => ColourRgb { red: 0xFF, green: 0xFF, blue: 0x00 },
            Yellow::YellowGreen => ColourRgb { red: 0x9A, green: 0xCD, blue: 0x32 },
            Yellow::PeachPuff => ColourRgb { red: 0xFF, green: 0xDA, blue: 0xB9 },
            Yellow::Moccasin => ColourRgb { red: 0xFF, green: 0xE4, blue: 0xB5 },
            Yellow::PapayaWhip => ColourRgb { red: 0xFF, green: 0xEF, blue: 0xD5 },
            Yellow::LightGoldenrodYellow => ColourRgb { red: 0xFA, green: 0xFA, blue: 0xD2 },
            Yellow::LemonChiffon => ColourRgb { red: 0xFF, green: 0xFA, blue: 0xCD },
            Yellow::LightYellow => ColourRgb { red: 0xFF, green: 0xFF, blue: 0xE0 },
        }
    }

    fn name_text(&self) -> &'static str {
        match self {
            Yellow::Gold => "gold",
            Yellow::DarkGoldenrod => "darkgoldenrod",
            Yellow::Goldenrod => "goldenrod",
            Yellow::PaleGoldenrod => "palegoldenrod",
            Yellow::DarkKhaki => "darkkhaki",
            Yellow::Khaki => "khaki",
            Yellow::Yellow => "yellow",
            Yellow::YellowGreen => "yellowgreen",
            Yellow::PeachPuff => "peachpuff",
            Yellow::Moccasin => "moccasin",
            Yellow::PapayaWhip => "papayawhip",
            Yellow::LightGoldenrodYellow => "lightgoldenrodyellow",
            Yellow::LemonChiffon => "lemonchiffon",
            Yellow::LightYellow => "lightyellow",
        }
    }

    fn holds_hex(&self) -> bool {
        true
    }
}

impl Yellow {
    /// The colour as RGB channels.
    pub fn to_rgb(&self) -> (r: ColourRgb)
        ensures
            r == self.colour(),
    {
        self.channels()
    }

    /// The colour as six capital hex digits, after the chosen prefix.
    pub fn to_hex_triplet(&self, prefix: Prefix) -> (r: String)
        ensures
            r@ == hex_triplet(self.colour(), prefix),
    {
        encode(self.channels(), prefix)
    }

    /// The canonical hex code of the colour, `#RRGGBB`.
    pub fn to_string(&self) -> (r: String)
        ensures
            r@ == hex_triplet(self.colour(), Prefix::Hash),
    {
        encode(self.channels(), Prefix::Hash)
    }

    /// The colour as a decimal tuple, `(R,G,B)`.
    pub fn as_rgb(&self) -> (r: String)
        ensures
            r@ == tuple_text(self.colour()),
    {
        self.channels().to_tuple_string()
    }

    /// The colour that a name or hex code (any case, `#` optional) stands for.
    pub fn parse(name: &str) -> (r: Option<Yellow>)
        ensures
            r == lookup::<Yellow>(lower_of(name@)),
            is_ascii_text(name@) ==> r == lookup::<Yellow>(ascii_lower(name@)),
    {
        family::parse(name)
    }

    /// A colour of this family drawn at random.
    pub fn random() -> (r: Yellow)
        ensures
            exists|i: nat| i < Yellow::count() && r == drawn::<Yellow>(i),
    {
        family::random()
    }
}

impl core::str::FromStr for Yellow {
    type Err = String;

    fn from_str(s: &str) -> Result<Yellow, String> {
        family::from_string(s)
    }
}

impl ExtendedColour for Yellow {}

} // verus!
