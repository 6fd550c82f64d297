//! Shades of purple.

use vstd::prelude::*;

use crate::ext::ExtendedColour;
use crate::family::{self, drawn, lookup, ColourFamily};
use crate::hex::{encode, hex_colour, hex_triplet, is_hex_digit};
use crate::rgb::{tuple_text, ColourRgb};
use crate::text::{ascii_lower, is_ascii_text, lower_of};
use crate::Prefix;

verus! {

/// Shades of purple.
#[derive(Clone, Copy, Debug, PartialEq, Eq, Hash, Structural)]
pub enum Purple {
    Indigo,
    Purple,
    DarkMagenta,
    DarkViolet,
    DarkSlateBlue,
    BlueViolet,
    DarkOrchid,
    Fuchsia,
    Magenta,
    SlateBlue,
    MediumSlateBlue,
    MediumOrchid,
    MediumPurple,
    Orchid,
    Violet,
    Plum,
    Thistle,
    Lavender,
    Pink,
    MediumVioletRed,
    PaleVioletRed,
    DeepPink,
    HotPink,
    LightPink,
}

impl ColourFamily for Purple {
    open spec fn count() -> nat {
        24
    }

    open spec fn position(self) -> nat {
        match self {
            Purple::Indigo => 0,
            Purple::Purple => 1,
            Purple::DarkMagenta => 2,
            Purple::DarkViolet => 3,
            Purple::DarkSlateBlue => 4,
            Purple::BlueViolet => 5,
            Purple::DarkOrchid => 6,
            Purple::Fuchsia => 7,
            Purple::Magenta => 8,
            Purple::SlateBlue => 9,
            Purple::MediumSlateBlue => 10,
            Purple::MediumOrchid => 11,
            Purple::MediumPurple => 12,
            Purple::Orchid => 13,
            Purple::Violet => 14,
            Purple::Plum => 15,
            Purple::Thistle => 16,
            Purple::Lavender => 17,
            Purple::Pink => 18,
            Purple::MediumVioletRed => 19,
            Purple::PaleVioletRed => 20,
            Purple::DeepPink => 21,
            Purple::HotPink => 22,
            Purple::LightPink => 23,
        }
    }

    open spec fn colour(self) -> ColourRgb {
        match self {
            Purple::Indigo => ColourRgb { red: 0x4B, green: 0x00, blue: 0x82 },
            Purple::Purple => ColourRgb { red: 0x80, green: 0x00, blue: 0x80 },
            Purple::DarkMagenta => ColourRgb { red: 0x8B, green: 0x00, blue: 0x8B },
            Purple::DarkViolet => ColourRgb { red: 0x94, green: 0x00, blue: 0xD3 },
            Purple::DarkSlateBlue => ColourRgb { red: 0x48, green: 0x3D, blue: 0x8B },
            Purple::BlueViolet => ColourRgb { red: 0x8A, green: 0x2B, blue: 0xE2 },
            Purple::DarkOrchid => ColourRgb { red: 0x99, green: 0x32, blue: 0xCC },
            Purple::Fuchsia => ColourRgb { red: 0xFF, green: 0x00, blue: 0xFF },
            Purple::Magenta => ColourRgb { red: 0xFF, green: 0x00, blue: 0xFF },
            Purple::SlateBlue => ColourRgb { red: 0x6A, green: 0x5A, blue: 0xCD },
            Purple::MediumSlateBlue => ColourRgb { red: 0x7B, green: 0x68, blue: 0xEE },
            Purple::MediumOrchid => ColourRgb { red: 0xBA, green: 0x55, blue: 0xD3 },
            Purple::MediumPurple => ColourRgb { red: 0x93, green: 0x70, blue: 0xDB },
            Purple::Orchid => ColourRgb { red: 0xDA, green: 0x70, blue: 0xD6 },
            Purple::Violet => ColourRgb { red: 0xEE, green: 0x82, blue: 0xEE },
            Purple::Plum => ColourRgb { red: 0xDD, green: 0xA0, blue: 0xDD },
            Purple::Thistle => ColourRgb { red: 0xD8, green: 0xBF, blue: 0xD8 },
            Purple::Lavender => ColourRgb { red: 0xE6, green: 0xE6, blue: 0xFA },
            Purple::Pink => ColourRgb { red: 0xFF, green: 0xC0, blue: 0xCB },
            Purple::MediumVioletRed => ColourRgb { red: 0xC7, green: 0x15, blue: 0x85 },
            Purple::PaleVioletRed => ColourRgb { red: 0xDB, green: 0x70, blue: 0x93 },
            Purple::DeepPink => ColourRgb { red: 0xFF, green: 0x14, blue: 0x93 },
            Purple::HotPink => ColourRgb { red: 0xFF, green: 0x69, blue: 0xB4 },
            Purple::LightPink => ColourRgb { red: 0xFF, green: 0xB6, blue: 0xC1 },
        }
    }

    open spec fn name(self) -> Seq<char> {
        match self {
            Purple::Indigo => "indigo"@,
            Purple::Purple => "purple"@,
            Purple::DarkMagenta => "darkmagenta"@,
            Purple::DarkViolet => "darkviolet"@,
            Purple::DarkSlateBlue => "darkslateblue"@,
            Purple::BlueViolet => "blueviolet"@,
            Purple::DarkOrchid => "darkorchid"@,
            Purple::Fuchsia => "fuchsia"@,
            Purple::Magenta => "magenta"@,
            Purple::SlateBlue => "slateblue"@,
            Purple::MediumSlateBlue => "mediumslateblue"@,
            Purple::MediumOrchid => "mediumorchid"@,
            Purple::MediumPurple => "mediumpurple"@,
            Purple::Orchid => "orchid"@,
            Purple::Violet => "violet"@,
            Purple::Plum => "plum"@,
            Purple::Thistle => "thistle"@,
            Purple::Lavender => "lavender"@,
            Purple::Pink => "pink"@,
            Purple::MediumVioletRed => "mediumvioletred"@,
            Purple::PaleVioletRed => "palevioletred"@,
            Purple::DeepPink => "deeppink"@,
            Purple::HotPink => "hotpink"@,
            Purple::LightPink => "lightpink"@,
        }
    }

    open spec fn hex_holder(self) -> Purple {
        match self {
            Purple::Fuchsia => Purple::Magenta,
            _ => self,
        }
    }

    open spec fn fallback() -> Purple {
        Purple::Purple
    }

    proof fn lemma_table() {
        reveal_strlit("indigo");
        reveal_strlit("purple");
        reveal_strlit("darkmagenta");
        reveal_strlit("darkviolet");
        reveal_strlit("darkslateblue");
        reveal_strlit("blueviolet");
        reveal_strlit("darkorchid");
        reveal_strlit("fuchsia");
        reveal_strlit("magenta");
        reveal_strlit("slateblue");
        reveal_strlit("mediumslateblue");
        reveal_strlit("mediumorchid");
        reveal_strlit("mediumpurple");
        reveal_strlit("orchid");
        reveal_strlit("violet");
        reveal_strlit("plum");
        reveal_strlit("thistle");
        reveal_strlit("lavender");
        reveal_strlit("pink");
        reveal_strlit("mediumvioletred");
        reveal_strlit("palevioletred");
        reveal_strlit("deeppink");
        reveal_strlit("hotpink");
        reveal_strlit("lightpink");
        // Two distinct names differ in length or at some position.
        assert forall|v: Purple, w: Purple| v.name() == w.name() implies v == w by {
            let x = v.name();
            let y = w.name();
            assert(x.len() == y.len());
            assert(x[0] == y[0]);
            assert(x[1] == y[1]);
            assert(x[2] == y[2]);
            assert(x[3] == y[3]);
            assert(x[4] == y[4]);
            assert(x[5] == y[5]);
            assert(x[6] == y[6]);
            assert(x[7] == y[7]);
            assert(x[8] == y[8]);
            assert(x[9] == y[9]);
            assert(x[10] == y[10]);
            assert(x[11] == y[11]);
            assert(x[12] == y[12]);
            assert(x[13] == y[13]);
            assert(x[14] == y[14]);
        }
        // No name starts with `#`, and none is six hex digits.
        assert forall|v: Purple| hex_colour(#[trigger] v.name()) is None by {
            let x = v.name();
            assert(x[0] != '#');
            assert(x.len() != 6 || !is_hex_digit(x[0]) || !is_hex_digit(x[1]) || !is_hex_digit(x[2])
                || !is_hex_digit(x[3]) || !is_hex_digit(x[4]) || !is_hex_digit(x[5]));
        }
    }

    fn variant_count() -> usize {
        24
    }

    fn at(i: usize) -> Purple {
        match i {
            0 => Purple::Indigo,
            1 => Purple::Purple,
            2 => Purple::DarkMagenta,
            3 => Purple::DarkViolet,
            4 => Purple::DarkSlateBlue,
            5 => Purple::BlueViolet,
            6 => Purple::DarkOrchid,
            7 => Purple::Fuchsia,
            8 => Purple::Magenta,
            9 => Purple::SlateBlue,
            10 => Purple::MediumSlateBlue,
            11 => Purple::MediumOrchid,
            12 => Purple::MediumPurple,
            13 => Purple::Orchid,
            14 => Purple::Violet,
            15 => Purple::Plum,
            16 => Purple::Thistle,
            17 => Purple::Lavender,
            18 => Purple::Pink,
            19 => Purple::MediumVioletRed,
            20 => Purple::PaleVioletRed,
            21 => Purple::DeepPink,
            22 => Purple::HotPink,
            23 => Purple::LightPink,
            _ => Purple::Purple,
        }
    }

    fn channels(&self) -> ColourRgb {
        match self {
            Purple::Indigo => ColourRgb { red: 0x4B, green: 0x00, blue: 0x82 },
            Purple::Purple => ColourRgb { red: 0x80, green: 0x00, blue: 0x80 },
            Purple::DarkMagenta => ColourRgb { red: 0x8B, green: 0x00, blue: 0x8B },
            Purple::DarkViolet => ColourRgb { red: 0x94, green: 0x00, blue: 0xD3 },
            Purple::DarkSlateBlue => ColourRgb { red: 0x48, green: 0x3D, blue: 0x8B },
            Purple::BlueViolet => ColourRgb { red: 0x8A, green: 0x2B, blue: 0xE2 },
            Purple::DarkOrchid => ColourRgb { red: 0x99, green: 0x32, blue: 0xCC },
            Purple::Fuchsia => ColourRgb { red: 0xFF, green: 0x00, blue: 0xFF },
            Purple::Magenta => ColourRgb { red: 0xFF, green: 0x00, blue: 0xFF },
            Purple::SlateBlue => ColourRgb { red: 0x6A, green: 0x5A, blue: 0xCD },
            Purple::MediumSlateBlue => ColourRgb { red: 0x7B, green: 0x68, blue: 0xEE },
            Purple::MediumOrchid => ColourRgb { red: 0xBA, green: 0x55, blue: 0xD3 },
            Purple::MediumPurple => ColourRgb { red: 0x93, green: 0x70, blue: 0xDB },
            Purple::Orchid => ColourRgb { red: 0xDA, green: 0x70, blue: 0xD6 },
            Purple::Violet => ColourRgb { red: 0xEE, green: 0x82, blue: 0xEE },
            Purple::Plum => ColourRgb { red: 0xDD, green: 0xA0, blue: 0xDD },
            Purple::Thistle => ColourRgb { red: 0xD8, green: 0xBF, blue: 0xD8 },
            Purple::Lavender => ColourRgb { red: 0xE6, green: 0xE6, blue: 0xFA },
            Purple::Pink => ColourRgb { red: 0xFF, green: 0xC0, blue: 0xCB },
            Purple::MediumVioletRed => ColourRgb { red: 0xC7, green: 0x15, blue: 0x85 },
            Purple::PaleVioletRed => ColourRgb { red: 0xDB, green: 0x70, blue: 0x93 },
            Purple::DeepPink => ColourRgb { red: 0xFF, green: 0x14, blue: 0x93 },
            Purple::HotPink => ColourRgb { red: 0xFF, green: 0x69, blue: 0xB4 },
            Purple::LightPink => ColourRgb { red: 0xFF, green: 0xB6, blue: 0xC1 },
        }
    }

    fn name_text(&self) -> &'static str {
        match self {
            Purple::Indigo => "indigo",
            Purple::Purple => "purple",
            Purple::DarkMagenta => "darkmagenta",
            Purple::DarkViolet => "darkviolet",
            Purple::DarkSlateBlue => "darkslateblue",
            Purple::BlueViolet => "blueviolet",
            Purple::DarkOrchid => "darkorchid",
            Purple::Fuchsia => "fuchsia",
            Purple::Magenta => "magenta",
            Purple::SlateBlue => "slateblue",
            Purple::MediumSlateBlue => "mediumslateblue",
            Purple::MediumOrchid => "mediumorchid",
            Purple::MediumPurple => "mediumpurple",
            Purple::Orchid => "orchid",
            Purple::Violet => "violet",
            Purple::Plum => "plum",
            Purple::Thistle => "thistle",
            Purple::Lavender => "lavender",
            Purple::Pink => "pink",
            Purple::MediumVioletRed => "mediumvioletred",
            Purple::PaleVioletRed => "palevioletred",
            Purple::DeepPink => "deeppink",
            Purple::HotPink => "hotpink",
            Purple::LightPink => "lightpink",
        }
    }

    fn holds_hex(&self) -> bool {
        match self {
            Purple::Fuchsia => false,
            _ => true,
        }
    }
}

impl Purple {
    /// The colour as RGB channels.
    pub fn to_rgb(&self) -> (r: ColourRgb)
        ensures
            r == self.colour(),
    {
        self.channels()
    }

    /// The colour as six capital hex digits, after the chosen prefix.
    pub fn to_hex_triplet(&self, prefix: Prefix) -> (r: String)
        ensures
            r@ == hex_triplet(self.colour(), prefix),
    {
        encode(self.channels(), prefix)
    }

    /// The canonical hex code of the colour, `#RRGGBB`.
    pub fn to_string(&self) -> (r: String)
        ensures
            r@ == hex_triplet(self.colour(), Prefix::Hash),
    {
        encode(self.channels(), Prefix::Hash)
    }

    /// The colour as a decimal tuple, `(R,G,B)`.
    pub fn as_rgb(&self) -> (r: String)
        ensures
            r@ == tuple_text(self.colour()),
    {
        self.channels().to_tuple_string()
    }

    /// The colour that a name or hex code (any case, `#` optional) stands for.
    pub fn parse(name: &str) -> (r: Option<Purple>)
        ensures
            r == lookup::<Purple>(lower_of(name@)),
            is_ascii_text(name@) ==> r == lookup::<Purple>(ascii_lower(name@)),
    {
        family::parse(name)
    }

    /// A colour of this family drawn at random.
    pub fn random() -> (r: Purple)
        ensures
            exists|i: nat| i < Purple::count() && r == drawn::<Purple>(i),
    {
        family::random()
    }
}

impl core::str::FromStr for Purple {
    type Err = String;

    fn from_str(s: &str) -> Result<Purple, String> {
        family::from_string(s)
    }
}

impl ExtendedColour for Purple {}

} // verus!
