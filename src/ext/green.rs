//! Shades of green.

use vstd::prelude::*;

use crate::ext::ExtendedColour;
use crate::family::{self, drawn, lookup, ColourFamily};
use crate::hex::{encode, hex_colour, hex_triplet, is_hex_digit};
use crate::rgb::{tuple_text, ColourRgb};
use crate::text::{ascii_lower, is_ascii_text, lower_of};
use crate::Prefix;

verus! {

/// Shades of green.
#[derive(Clone, Copy, Debug, PartialEq, Eq, Hash, Structural)]
pub enum Green {
    YellowGreen,
    DarkOliveGreen,
    Olive,
    OliveDrab,
    LawnGreen,
    ChartReuse,
    GreenYellow,
    DarkGreen,
    Green,
    ForestGreen,
    Lime,
    LimeGreen,
    LightGreen,
    PaleGreen,
    DarkSeaGreen,
    MediumSpringGreen,
    SpringGreen,
    SeaGreen,
}

impl ColourFamily for Green {
    open spec fn count() -> nat {
        18
    }

    open spec fn position(self) -> nat {
        match self {
            Green::YellowGreen => 0,
            Green::DarkOliveGreen => 1,
            Green::Olive => 2,
            Green::OliveDrab => 3,
            Green::LawnGreen => 4,
            Green::ChartReuse => 5,
            Green::GreenYellow => 6,
            Green::DarkGreen => 7,
            Green::Green => 8,
            Green::ForestGreen => 9,
            Green::Lime => 10,
            Green::LimeGreen => 11,
            Green::LightGreen => 12,
            Green::PaleGreen => 13,
            Green::DarkSeaGreen => 14,
            Green::MediumSpringGreen => 15,
            Green::SpringGreen => 16,
            Green::SeaGreen => 17,
        }
    }

    open spec fn colour(self) -> ColourRgb {
        match self {
            Green::YellowGreen => ColourRgb { red: 0x9A, green: 0xCD, blue: 0x32 },
            Green::DarkOliveGreen => ColourRgb { red: 0x55, green: 0x6B, blue: 0x2F },
            Green::Olive => ColourRgb { red: 0x80, green: 0x80, blue: 0x00 },
            Green::OliveDrab => ColourRgb { red: 0x6B, green: 0x8E, blue: 0x23 },
            Green::LawnGreen => ColourRgb { red: 0x7C, green: 0xFC, blue: 0x00 },
            Green::ChartReuse => ColourRgb { red: 0x7F, green: 0xFF, blue: 0x00 },
            Green::GreenYellow => ColourRgb { red: 0xAD, green: 0xFF, blue: 0x2F },
            Green::DarkGreen => ColourRgb { red: 0x00, green: 0x64, blue: 0x00 },
            Green::Green => ColourRgb { red: 0x00, green: 0x80, blue: 0x00 },
            Green::ForestGreen => ColourRgb { red: 0x22, green: 0x8B, blue: 0x22 },
            Green::Lime => ColourRgb { red: 0x00, green: 0xFF, blue: 0x00 },
            Green::LimeGreen => ColourRgb { red: 0x32, green: 0xCD, blue: 0x32 },
            Green::LightGreen => ColourRgb { red: 0x90, green: 0xEE, blue: 0x90 },
            Green::PaleGreen => ColourRgb { red: 0x98, green: 0xFB, blue: 0x98 },
            Green::DarkSeaGreen => ColourRgb { red: 0x8F, green: 0xBC, blue: 0x8F },
            Green::MediumSpringGreen => ColourRgb { red: 0x00, green: 0xFA, blue: 0x9A },
            Green::SpringGreen => ColourRgb { red: 0x00, green: 0xFF, blue: 0x7F },
            Green::SeaGreen => ColourRgb { red: 0x2E, green: 0x8B, blue: 0x57 },
        }
    }

    open spec fn name(self) -> Seq<char> {
        match self {
            Green::YellowGreen => "yellowgreen"@,
            Green::DarkOliveGreen => "darkolivegreen"@,
            Green::Olive => "olive"@,
            Green::OliveDrab => "olivedrab"@,
            Green::LawnGreen => "lawngreen"@,
            Green::ChartReuse => "chartreuse"@,
            Green::GreenYellow => "greenyellow"@,
            Green::DarkGreen => "darkgreen"@,
            Green::Green => "green"@,
            Green::ForestGreen => "forestgreen"@,
            Green::Lime => "lime"@,
            Green::LimeGreen => "limegreen"@,
            Green::LightGreen => "lightgreen"@,
            Green::PaleGreen => "palegreen"@,
            Green::DarkSeaGreen => "darkseagreen"@,
            Green::MediumSpringGreen => "mediumspringgreen"@,
            Green::SpringGreen => "springgreen"@,
            Green::SeaGreen => "seagreen"@,
        }
    }

    open spec fn hex_holder(self) -> Green {
        self
    }

    open spec fn fallback() -> Green {
        Green::Green
    }

    proof fn lemma_table() {
        reveal_strlit("yellowgreen");
        reveal_strlit("darkolivegreen");
        reveal_strlit("olive");
        reveal_strlit("olivedrab");
        reveal_strlit("lawngreen");
        reveal_strlit("chartreuse");
        reveal_strlit("greenyellow");
        reveal_strlit("darkgreen");
        reveal_strlit("green");
        reveal_strlit("forestgreen");
        reveal_strlit("lime");
        reveal_strlit("limegreen");
        reveal_strlit("lightgreen");
        reveal_strlit("palegreen");
        reveal_strlit("darkseagreen");
        reveal_strlit("mediumspringgreen");
        reveal_strlit("springgreen");
        reveal_strlit("seagreen");
        // Two distinct names differ in length or at some position.
        assert forall|v: Green, w: Green| v.name() == w.name() implies v == w by {
            let x = v.name();
            let y = w.name();
            assert(x.len() == y.len());
            assert(x[0] == y[0]);
            assert(x[1] == y[1]);
            assert(x[2] == y[2]);
            assert(x[3] == y[3]);
            assert(x[4] == y[4]);
            assert(x[5] == y[5]);
            assert(x[6] == y[6]);
            assert(x[7] == y[7]);
            assert(x[8] == y[8]);
            assert(x[9] == y[9]);
            assert(x[10] == y[10]);
            assert(x[11] == y[11]);
            assert(x[12] == y[12]);
            assert(x[13] == y[13]);
            assert(x[14] == y[14]);
            assert(x[15] == y[15]);
            assert(x[16] == y[16]);
        }
        // No name starts with `#`, and none is six hex digits.
        assert forall|v: Green| hex_colour(#[trigger] v.name()) is None by {
            let x = v.name();
            assert(x[0] != '#');
            assert(x.len() != 6 || !is_hex_digit(x[0]) || !is_hex_digit(x[1]) || !is_hex_digit(x[2])
                || !is_hex_digit(x[3]) || !is_hex_digit(x[4]) || !is_hex_digit(x[5]));
        }
    }

    fn variant_count() -> usize {
        18
    }

    fn at(i: usize) -> Green {
        match i {
            0 => Green::YellowGreen,
            1 => Green::DarkOliveGreen,
            2 => Green::Olive,
            3 => Green::OliveDrab,
            4 => Green::LawnGreen,
            5 => Green::ChartReuse,
            6 => Green::GreenYellow,
            7 => Green::DarkGreen,
            8 => Green::Green,
            9 => Green::ForestGreen,
            10 => Green::Lime,
            11 => Green::LimeGreen,
            12 => Green::LightGreen,
            13 => Green::PaleGreen,
            14 => Green::DarkSeaGreen,
            15 => Green::MediumSpringGreen,
            16 => Green::SpringGreen,
            17 => Green::SeaGreen,
            _ => Green::Green,
        }
    }

    fn channels(&self) -> ColourRgb {
        match self {
            Green::YellowGreen => ColourRgb { red: 0x9A, green: 0xCD, blue: 0x32 },
            Green::DarkOliveGreen => ColourRgb { red: 0x55, green: 0x6B, blue: 0x2F },
            Green::Olive => ColourRgb { red: 0x80, green: 0x80, blue: 0x00 },
            Green::OliveDrab => ColourRgb { red: 0x6B, green: 0x8E, blue: 0x23 },
            Green::LawnGreen => ColourRgb { red: 0x7C, green: 0xFC, blue: 0x00 },
            Green::ChartReuse => ColourRgb { red: 0x7F, green: 0xFF, blue: 0x00 },
            Green::GreenYellow => ColourRgb { red: 0xAD, green: 0xFF, blue: 0x2F },
            Green::DarkGreen => ColourRgb { red: 0x00, green: 0x64, blue: 0x00 },
            Green::Green => ColourRgb { red: 0x00, green: 0x80, blue: 0x00 },
            Green::ForestGreen => ColourRgb { red: 0x22, green: 0x8B, blue: 0x22 },
            Green::Lime => ColourRgb { red: 0x00, green: 0xFF, blue: 0x00 },
            Green::LimeGreen => ColourRgb { red: 0x32, green: 0xCD, blue: 0x32 },
            Green::LightGreen => ColourRgb { red: 0x90, green: 0xEE, blue: 0x90 },
            Green::PaleGreen => ColourRgb { red: 0x98, green: 0xFB, blue: 0x98 },
            Green::DarkSeaGreen => ColourRgb { red: 0x8F, green: 0xBC, blue: 0x8F },
            Green::MediumSpringGreen => ColourRgb { red: 0x00, green: 0xFA, blue: 0x9A },
            Green::SpringGreen => ColourRgb { red: 0x00, green: 0xFF, blue: 0x7F },
            Green::SeaGreen => ColourRgb { red: 0x2E, green: 0x8B, blue: 0x57 },
        }
    }

    fn name_text(&self) -> &'static str {
        match self {
            Green::YellowGreen => "yellowgreen",
            Green::DarkOliveGreen => "darkolivegreen",
            Green::Olive => "olive",
            Green::OliveDrab => "olivedrab",
            Green::LawnGreen => "lawngreen",
            Green::ChartReuse => "chartreuse",
            Green::GreenYellow => "greenyellow",
            Green::DarkGreen => "darkgreen",
            Green::Green => "green",
            Green::ForestGreen => "forestgreen",
            Green::Lime => "lime",
            Green::LimeGreen => "limegreen",
            Green::LightGreen => "lightgreen",
            Green::PaleGreen => "palegreen",
            Green::DarkSeaGreen => "darkseagreen",
            Green::MediumSpringGreen => "mediumspringgreen",
            Green::SpringGreen => "springgreen",
            Green::SeaGreen => "seagreen",
        }
    }

    fn holds_hex(&self) -> bool {
        true
    }
}

impl Green {
    /// The colour as RGB channels.
    pub fn to_rgb(&self) -> (r: ColourRgb)
        ensures
            r == self.colour(),
    {
        self.channels()
    }

    /// The colour as six capital hex digits, after the chosen prefix.
    pub fn to_hex_triplet(&self, prefix: Prefix) -> (r: String)
        ensures
            r@ == hex_triplet(self.colour(), prefix),
    {
        encode(self.channels(), prefix)
    }

    /// The canonical hex code of the colour, `#RRGGBB`.
    pub fn to_string(&self) -> (r: String)
        ensures
            r@ == hex_triplet(self.colour(), Prefix::Hash),
    {
        encode(self.channels(), Prefix::Hash)
    }

    /// The colour as a decimal tuple, `(R,G,B)`.
    pub fn as_rgb(&self) -> (r: String)
        ensures
            r@ == tuple_text(self.colour()),
    {
        self.channels().to_tuple_string()
    }

    /// The colour that a name or hex code (any case, `#` optional) stands for.
    pub fn parse(name: &str) -> (r: Option<Green>)
        ensures
            r == lookup::<Green>(lower_of(name@)),
            is_ascii_text(name@) ==> r == lookup::<Green>(ascii_lower(name@)),
    {
        family::parse(name)
    }

    /// A colour of this family drawn at random.
    pub fn random() -> (r: Green)
        ensures
            exists|i: nat| i < Green::count() && r == drawn::<Green>(i),
    {
        family::random()
    }
}

impl core::str::FromStr for Green {
    type Err = String;

    fn from_str(s: &str) -> Result<Green, String> {
        family::from_string(s)
    }
}

impl ExtendedColour for Green {}

} // verus!
