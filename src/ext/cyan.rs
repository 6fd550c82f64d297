//! Shades of cyan.

use vstd::prelude::*;

use crate::ext::ExtendedColour;
use crate::family::{self, drawn, lookup, ColourFamily};
use crate::hex::{encode, hex_colour, hex_triplet, is_hex_digit};
use crate::rgb::{tuple_text, ColourRgb};
use crate::text::{ascii_lower, is_ascii_text, lower_of};
use crate::Prefix;

verus! {

/// Shades of cyan.
#[derive(Clone, Copy, Debug, PartialEq, Eq, Hash, Structural)]
pub enum Cyan {
    MediumAquaMarine,
    MediumSeaGreen,
    LightSeaGreen,
    DarkSlateGray,
    Teal,
    DarkCyan,
    Aqua,
    Cyan,
    LightCyan,
    DarkTurquoise,
    Turquoise,
    MediumTurquoise,
    PaleTurquoise,
    AquaMarine,
    Honeydew,
}

impl ColourFamily for Cyan {
    open spec fn count() -> nat {
        15
    }

    open spec fn position(self) -> nat {
        match self {
            Cyan::MediumAquaMarine => 0,
            Cyan::MediumSeaGreen => 1,
            Cyan::LightSeaGreen => 2,
            Cyan::DarkSlateGray => 3,
            Cyan::Teal => 4,
            Cyan::DarkCyan => 5,
            Cyan::Aqua => 6,
            Cyan::Cyan => 7,
            Cyan::LightCyan => 8,
            Cyan::DarkTurquoise => 9,
            Cyan::Turquoise => 10,
            Cyan::MediumTurquoise => 11,
            Cyan::PaleTurquoise => 12,
            Cyan::AquaMarine => 13,
            Cyan::Honeydew => 14,
        }
    }

    open spec fn colour(self) -> ColourRgb {
        match self {
            Cyan::MediumAquaMarine => ColourRgb { red: 0x66, green: 0xCD, blue: 0xAA },
            Cyan::MediumSeaGreen => ColourRgb { red: 0x3C, green: 0xB3, blue: 0x71 },
            Cyan::LightSeaGreen => ColourRgb { red: 0x20, green: 0xB2, blue: 0xAA },
            Cyan::DarkSlateGray => ColourRgb { red: 0x2F, green: 0x4F, blue: 0x4F },
            Cyan::Teal => ColourRgb { red: 0x00, green: 0x80, blue: 0x80 },
            Cyan::DarkCyan => ColourRgb { red: 0x00, green: 0x8B, blue: 0x8B },
            Cyan::Aqua => ColourRgb { red: 0x00, green: 0xFF, blue: 0xFF },
            Cyan::Cyan => ColourRgb { red: 0x00, green: 0xFF, blue: 0xFF },
            Cyan::LightCyan => ColourRgb { red: 0xE0, green: 0xFF, blue: 0xFF },
            Cyan::DarkTurquoise => ColourRgb { red: 0x00, green: 0xCE, blue: 0xD1 },
            Cyan::Turquoise => ColourRgb { red: 0x40, green: 0xE0, blue: 0xD0 },
            Cyan::MediumTurquoise => ColourRgb { red: 0x48, green: 0xD1, blue: 0xCC },
            Cyan::PaleTurquoise => ColourRgb { red: 0xAF, green: 0xEE, blue: 0xEE },
            Cyan::AquaMarine => ColourRgb { red: 0x7F, green: 0xFF, blue: 0xD4 },
            Cyan::Honeydew => ColourRgb { red: 0xF0, green: 0xFF, blue: 0xF0 },
        }
    }

    open spec fn name(self) -> Seq<char> {
        match self {
            Cyan::MediumAquaMarine => "mediumaquamarine"@,
            Cyan::MediumSeaGreen => "mediumseagreen"@,
            Cyan::LightSeaGreen => "lightseagreen"@,
            Cyan::DarkSlateGray => "darkslategray"@,
            Cyan::Teal => "teal"@,
            Cyan::DarkCyan => "darkcyan"@,
            Cyan::Aqua => "aqua"@,
            Cyan::Cyan => "cyan"@,
            Cyan::LightCyan => "lightcyan"@,
            Cyan::DarkTurquoise => "darkturquoise"@,
            Cyan::Turquoise => "turquoise"@,
            Cyan::MediumTurquoise => "mediumturquoise"@,
            Cyan::PaleTurquoise => "paleturquoise"@,
            Cyan::AquaMarine => "aquamarine"@,
            Cyan::Honeydew => "honeydew"@,
        }
    }

    open spec fn hex_holder(self) -> Cyan {
        match self {
            Cyan::Cyan => Cyan::Aqua,
            _ => self,
        }
    }

    open spec fn fallback() -> Cyan {
        Cyan::Cyan
    }

    proof fn lemma_table() {
        reveal_strlit("mediumaquamarine");
        reveal_strlit("mediumseagreen");
        reveal_strlit("lightseagreen");
        reveal_strlit("darkslategray");
        reveal_strlit("teal");
        reveal_strlit("darkcyan");
        reveal_strlit("aqua");
        reveal_strlit("cyan");
        reveal_strlit("lightcyan");
        reveal_strlit("darkturquoise");
        reveal_strlit("turquoise");
        reveal_strlit("mediumturquoise");
        reveal_strlit("paleturquoise");
        reveal_strlit("aquamarine");
        reveal_strlit("honeydew");
        // Two distinct names differ in length or at some position.
        assert forall|v: Cyan, w: Cyan| v.name() == w.name() implies v == w by {
            let x = v.name();
            let y = w.name();
            assert(x.len() == y.len());
            assert(x[0] == y[0]);
            assert(x[1] == y[1]);
            assert(x[2] == y[2]);
            assert(x[3] == y[3]);
            assert(x[4] == y[4]);
            assert(x[5] == y[5]);
            assert(x[6] == y[6]);
            assert(x[7] == y[7]);
            assert(x[8] == y[8]);
            assert(x[9] == y[9]);
            assert(x[10] == y[10]);
            assert(x[11] == y[11]);
            assert(x[12] == y[12]);
            assert(x[13] == y[13]);
            assert(x[14] == y[14]);
            assert(x[15] == y[15]);
        }
        // No name starts with `#`, and none is six hex digits.
        assert forall|v: Cyan| hex_colour(#[trigger] v.name()) is None by {
            let x = v.name();
            assert(x[0] != '#');
            assert(x.len() != 6 || !is_hex_digit(x[0]) || !is_hex_digit(x[1]) || !is_hex_digit(x[2])
                || !is_hex_digit(x[3]) || !is_hex_digit(x[4]) || !is_hex_digit(x[5]));
        }
    }

    fn variant_count() -> usize {
        15
    }

    fn at(i: usize) -> Cyan {
        match i {
            0 => Cyan::MediumAquaMarine,
            1 => Cyan::MediumSeaGreen,
            2 => Cyan::LightSeaGreen,
            3 => Cyan::DarkSlateGray,
            4 => Cyan::Teal,
            5 => Cyan::DarkCyan,
            6 => Cyan::Aqua,
            7 => Cyan::Cyan,
            8 => Cyan::LightCyan,
            9 => Cyan::DarkTurquoise,
            10 => Cyan::Turquoise,
            11 => Cyan::MediumTurquoise,
            12 => Cyan::PaleTurquoise,
            13 => Cyan::AquaMarine,
            14 => Cyan::Honeydew,
            _ => Cyan::Cyan,
        }
    }

    fn channels(&self) -> ColourRgb {
        match self {
            Cyan::MediumAquaMarine => ColourRgb { red: 0x66, green: 0xCD, blue: 0xAA },
            Cyan::MediumSeaGreen => ColourRgb { red: 0x3C, green: 0xB3, blue: 0x71 },
            Cyan::LightSeaGreen => ColourRgb { red: 0x20, green: 0xB2, blue: 0xAA },
            Cyan::DarkSlateGray => ColourRgb { red: 0x2F, green: 0x4F, blue: 0x4F },
            Cyan::Teal => ColourRgb { red: 0x00, green: 0x80, blue: 0x80 },
            Cyan::DarkCyan => ColourRgb { red: 0x00, green: 0x8B, blue: 0x8B },
            Cyan::Aqua => ColourRgb { red: 0x00, green: 0xFF, blue: 0xFF },
            Cyan::Cyan => ColourRgb { red: 0x00, green: 0xFF, blue: 0xFF },
            Cyan::LightCyan => ColourRgb { red: 0xE0, green: 0xFF, blue: 0xFF },
            Cyan::DarkTurquoise => ColourRgb { red: 0x00, green: 0xCE, blue: 0xD1 },
            Cyan::Turquoise => ColourRgb { red: 0x40, green: 0xE0, blue: 0xD0 },
            Cyan::MediumTurquoise => ColourRgb { red: 0x48, green: 0xD1, blue: 0xCC },
            Cyan::PaleTurquoise => ColourRgb { red: 0xAF, green: 0xEE, blue: 0xEE },
            Cyan::AquaMarine => ColourRgb { red: 0x7F, green: 0xFF, blue: 0xD4 },
            Cyan::Honeydew => ColourRgb { red: 0xF0, green: 0xFF, blue: 0xF0 },
        }
    }

    fn name_text(&self) -> &'static str {
        match self {
            Cyan::MediumAquaMarine => "mediumaquamarine",
            Cyan::MediumSeaGreen => "mediumseagreen",
            Cyan::LightSeaGreen => "lightseagreen",
            Cyan::DarkSlateGray => "darkslategray",
            Cyan::Teal => "teal",
            Cyan::DarkCyan => "darkcyan",
            Cyan::Aqua => "aqua",
            Cyan::Cyan => "cyan",
            Cyan::LightCyan => "lightcyan",
            Cyan::DarkTurquoise => "darkturquoise",
            Cyan::Turquoise => "turquoise",
            Cyan::MediumTurquoise => "mediumturquoise",
            Cyan::PaleTurquoise => "paleturquoise",
            Cyan::AquaMarine => "aquamarine",
            Cyan::Honeydew => "honeydew",
        }
    }

    fn holds_hex(&self) -> bool {
        match self {
            Cyan::Cyan => false,
            _ => true,
        }
    }
}

impl Cyan {
    /// The colour as RGB channels.
    pub fn to_rgb(&self) -> (r: ColourRgb)
        ensures
            r == self.colour(),
    {
        self.channels()
    }

    /// The colour as six capital hex digits, after the chosen prefix.
    pub fn to_hex_triplet(&self, prefix: Prefix) -> (r: String)
        ensures
            r@ == hex_triplet(self.colour(), prefix),
    {
        encode(self.channels(), prefix)
    }

    /// The canonical hex code of the colour, `#RRGGBB`.
    pub fn to_string(&self) -> (r: String)
        ensures
            r@ == hex_triplet(self.colour(), Prefix::Hash),
    {
        encode(self.channels(), Prefix::Hash)
    }

    /// The colour as a decimal tuple, `(R,G,B)`.
    pub fn as_rgb(&self) -> (r: String)
        ensures
            r@ == tuple_text(self.colour()),
    {
        self.channels().to_tuple_string()
    }

    /// The colour that a name or hex code (any case, `#` optional) stands for.
    pub fn parse(name: &str) -> (r: Option<Cyan>)
        ensures
            r == lookup::<Cyan>(lower_of(name@)),
            is_ascii_text(name@) ==> r == lookup::<Cyan>(ascii_lower(name@)),
    {
        family::parse(name)
    }

    /// A colour of this family drawn at random.
    pub fn random() -> (r: Cyan)
        ensures
            exists|i: nat| i < Cyan::count() && r == drawn::<Cyan>(i),
    {
        family::random()
    }
}

impl core::str::FromStr for Cyan {
    type Err = String;

    fn from_str(s: &str) -> Result<Cyan, String> {
        family::from_string(s)
    }
}

impl ExtendedColour for Cyan {}

} // verus!
