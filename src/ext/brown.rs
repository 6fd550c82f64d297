//! Shades of brown.

use vstd::prelude::*;

use crate::ext::ExtendedColour;
use crate::family::{self, drawn, lookup, ColourFamily};
use crate::hex::{encode, hex_colour, hex_triplet, is_hex_digit};
use crate::rgb::{tuple_text, ColourRgb};
use crate::text::{ascii_lower, is_ascii_text, lower_of};
use crate::Prefix;

verus! {

/// Shades of brown.
#[derive(Clone, Copy, Debug, PartialEq, Eq, Hash, Structural)]
pub enum Brown {
    SaddleBrown,
    Sienna,
    Chocolate,
    Peru,
    SandyBrown,
    BurlyWood,
    Tan,
    RosyBrown,
}

impl ColourFamily for Brown {
    open spec fn count() -> nat {
        8
    }

    open spec fn position(self) -> nat {
        match self {
            Brown::SaddleBrown => 0,
            Brown::Sienna => 1,
            Brown::Chocolate => 2,
            Brown::Peru => 3,
            Brown::SandyBrown => 4,
            Brown::BurlyWood => 5,
            Brown::Tan => 6,
            Brown::RosyBrown => 7,
        }
    }

    open spec fn colour(self) -> ColourRgb {
        match self {
            Brown::SaddleBrown => ColourRgb { red: 0x8B, green: 0x45, blue: 0x13 },
            Brown::Sienna => ColourRgb { red: 0xA0, green: 0x52, blue: 0x2D },
            Brown::Chocolate => ColourRgb { red: 0xD2, green: 0x69, blue: 0x1E },
            Brown::Peru => ColourRgb { red: 0xCD, green: 0x85, blue: 0x3F },
            Brown::SandyBrown => ColourRgb { red: 0xF4, green: 0xA4, blue: 0x60 },
            Brown::BurlyWood => ColourRgb { red: 0xDE, green: 0xB8, blue: 0x87 },
            Brown::Tan => ColourRgb { red: 0xD2, green: 0xB4, blue: 0x8C },
            Brown::RosyBrown => ColourRgb { red: 0xBC, green: 0x8F, blue: 0x8F },
        }
    }

    open spec fn name(self) -> Seq<char> {
        match self {
            Brown::SaddleBrown => "saddlebrown"@,
            Brown::Sienna => "sienna"@,
            Brown::Chocolate => "chocolate"@,
            Brown::Peru => "peru"@,
            Brown::SandyBrown => "sandybrown"@,
            Brown::BurlyWood => "burlywood"@,
            Brown::Tan => "tan"@,
            Brown::RosyBrown => "rosybrown"@,
        }
    }

    open spec fn hex_holder(self) -> Brown {
        self
    }

    open spec fn fallback() -> Brown {
        Brown::Peru
    }

    proof fn lemma_table() {
        reveal_strlit("saddlebrown");
        reveal_strlit("sienna");
        reveal_strlit("chocolate");
        reveal_strlit("peru");
        reveal_strlit("sandybrown");
        reveal_strlit("burlywood");
        reveal_strlit("tan");
        reveal_strlit("rosybrown");
        // Two distinct names differ in length or at some position.
        assert forall|v: Brown, w: Brown| v.name() == w.name() implies v == w by {
            let x = v.name();
            let y = w.name();
            assert(x.len() == y.len());
            assert(x[0] == y[0]);
            assert(x[1] == y[1]);
            assert(x[2] == y[2]);
            assert(x[3] == y[3]);
            assert(x[4] == y[4]);
            assert(x[5] == y[5]);
            assert(x[6] == y[6]);
            assert(x[7] == y[7]);
            assert(x[8] == y[8]);
            assert(x[9] == y[9]);
            assert(x[10] == y[10]);
        }
        // No name starts with `#`, and none is six hex digits.
        assert forall|v: Brown| hex_colour(#[trigger] v.name()) is None by {
            let x = v.name();
            assert(x[0] != '#');
            assert(x.len() != 6 || !is_hex_digit(x[0]) || !is_hex_digit(x[1]) || !is_hex_digit(x[2])
                || !is_hex_digit(x[3]) || !is_hex_digit(x[4]) || !is_hex_digit(x[5]));
        }
    }

    fn variant_count() -> usize {
        8
    }

    fn at(i: usize) -> Brown {
        match i {
            0 => Brown::SaddleBrown,
            1 => Brown::Sienna,
            2 => Brown::Chocolate,
            3 => Brown::Peru,
            4 => Brown::SandyBrown,
            5 => Brown::BurlyWood,
            6 => Brown::Tan,
            7 => Brown::RosyBrown,
            _ => Brown::Peru,
        }
    }

    fn channels(&self) -> ColourRgb {
        match self {
            Brown::SaddleBrown => ColourRgb { red: 0x8B, green: 0x45, blue: 0x13 },
            Brown::Sienna => ColourRgb { red: 0xA0, green: 0x52, blue: 0x2D },
            Brown::Chocolate => ColourRgb { red: 0xD2, green: 0x69, blue: 0x1E },
            Brown::Peru => ColourRgb { red: 0xCD, green: 0x85, blue: 0x3F },
            Brown::SandyBrown => ColourRgb { red: 0xF4, green: 0xA4, blue: 0x60 },
            Brown::BurlyWood => ColourRgb { red: 0xDE, green: 0xB8, blue: 0x87 },
            Brown::Tan => ColourRgb { red: 0xD2, green: 0xB4, blue: 0x8C },
            Brown::RosyBrown => ColourRgb { red: 0xBC, green: 0x8F, blue: 0x8F },
        }
    }

    fn name_text(&self) -> &'static str {
        match self {
            Brown::SaddleBrown => "saddlebrown",
            Brown::Sienna => "sienna",
            Brown::Chocolate => "chocolate",
            Brown::Peru => "peru",
            Brown::SandyBrown => "sandybrown",
            Brown::BurlyWood => "burlywood",
            Brown::Tan => "tan",
            Brown::RosyBrown => "rosybrown",
        }
    }

    fn holds_hex(&self) -> bool {
        true
    }
}

impl Brown {
    /// The colour as RGB channels.
    pub fn to_rgb(&self) -> (r: ColourRgb)
        ensures
            r == self.colour(),
    {
        self.channels()
    }

    /// The colour as six capital hex digits, after the chosen prefix.
    pub fn to_hex_triplet(&self, prefix: Prefix) -> (r: String)
        ensures
            r@ == hex_triplet(self.colour(), prefix),
    {
        encode(self.channels(), prefix)
    }

    /// The canonical hex code of the colour, `#RRGGBB`.
    pub fn to_string(&self) -> (r: String)
        ensures
            r@ == hex_triplet(self.colour(), Prefix::Hash),
    {
        encode(self.channels(), Prefix::Hash)
    }

    /// The colour as a decimal tuple, `(R,G,B)`.
    pub fn as_rgb(&self) -> (r: String)
        ensures
            r@ == tuple_text(self.colour()),
    {
        self.channels().to_tuple_string()
    }

    /// The colour that a name or hex code (any case, `#` optional) stands for.
    pub fn parse(name: &str) -> (r: Option<Brown>)
        ensures
            r == lookup::<Brown>(lower_of(name@)),
            is_ascii_text(name@) ==> r == lookup::<Brown>(ascii_lower(name@)),
    {
        family::parse(name)
    }

    /// A colour of this family drawn at random.
    pub fn random() -> (r: Brown)
        ensures
            exists|i: nat| i < Brown::count() && r == drawn::<Brown>(i),
    {
        family::random()
    }
}

impl core::str::FromStr for Brown {
    type Err = String;

    fn from_str(s: &str) -> Result<Brown, String> {
        family::from_string(s)
    }
}

impl ExtendedColour for Brown {}

} // verus!
