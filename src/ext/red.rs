//! Shades of red.

use vstd::prelude::*;

use crate::ext::ExtendedColour;
use crate::family::{self, drawn, lookup, ColourFamily};
use crate::hex::{encode, hex_colour, hex_triplet, is_hex_digit};
use crate::rgb::{tuple_text, ColourRgb};
use crate::text::{ascii_lower, is_ascii_text, lower_of};
use crate::Prefix;

verus! {

/// Shades of red.
#[derive(Clone, Copy, Debug, PartialEq, Eq, Hash, Structural)]
pub enum Red {
    Maroon,
    DarkRed,
    Brown,
    Firebrick,
    Crimson,
    Red,
    Tomato,
    Coral,
    IndianRed,
    LightCoral,
    DarkSalmon,
    Salmon,
    LightSalmon,
    OrangeRed,
    DarkOrange,
    Orange,
}

impl ColourFamily for Red {
    open spec fn count() -> nat {
        16
    }

    open spec fn position(self) -> nat {
        match self {
            Red::Maroon => 0,
            Red::DarkRed => 1,
            Red::Brown => 2,
            Red::Firebrick => 3,
            Red::Crimson => 4,
            Red::Red => 5,
            Red::Tomato => 6,
            Red::Coral => 7,
            Red::IndianRed => 8,
            Red::LightCoral => 9,
            Red::DarkSalmon => 10,
            Red::Salmon => 11,
            Red::LightSalmon => 12,
            Red::OrangeRed => 13,
            Red::DarkOrange => 14,
            Red::Orange => 15,
        }
    }

    open spec fn colour(self) -> ColourRgb {
        match self {
            Red::Maroon => ColourRgb { red: 0x80, green: 0x00, blue: 0x00 },
            Red::DarkRed => ColourRgb { red: 0x8B, green: 0x00, blue: 0x00 },
            Red::Brown => ColourRgb { red: 0xA5, green: 0x2A, blue: 0x2A },
            Red::Firebrick => ColourRgb { red: 0xB2, green: 0x22, blue: 0x22 },
            Red::Crimson => ColourRgb { red: 0xDC, green: 0x14, blue: 0x3C },
            Red::Red => ColourRgb { red: 0xFF, green: 0x00, blue: 0x00 },
            Red::Tomato => ColourRgb { red: 0xFF, green: 0x63, blue: 0x47 },
            Red::Coral => ColourRgb { red: 0xFF, green: 0x7F, blue: 0x50 },
            Red::IndianRed => ColourRgb { red: 0xCD, green: 0x5C, blue: 0x5C },
            Red::LightCoral => ColourRgb { red: 0xF0, green: 0x80, blue: 0x80 },
            Red::DarkSalmon => ColourRgb { red: 0xE9, green: 0x96, blue: 0x7A },
            Red::Salmon => ColourRgb { red: 0xFA, green: 0x80, blue: 0x72 },
            Red::LightSalmon => ColourRgb { red: 0xFF, green: 0xA0, blue: 0x7A },
            Red::OrangeRed => ColourRgb { red: 0xFF, green: 0x45, blue: 0x00 },
            Red::DarkOrange => ColourRgb { red: 0xFF, green: 0x8C, blue: 0x00 },
            Red::Orange => ColourRgb { red: 0xFF, green: 0xA5, blue: 0x00 },
        }
    }

    open spec fn name(self) -> Seq<char> {
        match self {
            Red::Maroon => "maroon"@,
            Red::DarkRed => "darkred"@,
            Red::Brown => "brown"@,
            Red::Firebrick => "firebrick"@,
            Red::Crimson => "crimson"@,
            Red::Red => "red"@,
            Red::Tomato => "tomato"@,
            Red::Coral => "coral"@,
            Red::IndianRed => "indianred"@,
            Red::LightCoral => "lightcoral"@,
            Red::DarkSalmon => "darksalmon"@,
            Red::Salmon => "salmon"@,
            Red::LightSalmon => "lightsalmon"@,
            Red::OrangeRed => "orangered"@,
            Red::DarkOrange => "darkorange"@,
            Red::Orange => "orange"@,
        }
    }

    open spec fn hex_holder(self) -> Red {
        self
    }

    open spec fn fallback() -> Red {
        Red::Red
    }

    proof fn lemma_table() {
        reveal_strlit("maroon");
        reveal_strlit("darkred");
        reveal_strlit("brown");
        reveal_strlit("firebrick");
        reveal_strlit("crimson");
        reveal_strlit("red");
        reveal_strlit("tomato");
        reveal_strlit("coral");
        reveal_strlit("indianred");
        reveal_strlit("lightcoral");
        reveal_strlit("darksalmon");
        reveal_strlit("salmon");
        reveal_strlit("lightsalmon");
        reveal_strlit("orangered");
        reveal_strlit("darkorange");
        reveal_strlit("orange");
        // Two distinct names differ in length or at some position.
        assert forall|v: Red, w: Red| v.name() == w.name() implies v == w by {
            let x = v.name();
            let y = w.name();
            assert(x.len() == y.len());
            assert(x[0] == y[0]);
            assert(x[1] == y[1]);
            assert(x[2] == y[2]);
            assert(x[3] == y[3]);
            assert(x[4] == y[4]);
            assert(x[5] == y[5]);
            assert(x[6] == y[6]);
            assert(x[7] == y[7]);
            assert(x[8] == y[8]);
            assert(x[9] == y[9]);
            assert(x[10] == y[10]);
        }
        // No name starts with `#`, and none is six hex digits.
        assert forall|v: Red| hex_colour(#[trigger] v.name()) is None by {
            let x = v.name();
            assert(x[0] != '#');
            assert(x.len() != 6 || !is_hex_digit(x[0]) || !is_hex_digit(x[1]) || !is_hex_digit(x[2])
                || !is_hex_digit(x[3]) || !is_hex_digit(x[4]) || !is_hex_digit(x[5]));
        }
    }

    fn variant_count() -> usize {
        16
    }

    fn at(i: usize) -> Red {
        match i {
            0 => Red::Maroon,
            1 => Red::DarkRed,
            2 => Red::Brown,
            3 => Red::Firebrick,
            4 => Red::Crimson,
            5 => Red::Red,
            6 => Red::Tomato,
            7 => Red::Coral,
            8 => Red::IndianRed,
            9 => Red::LightCoral,
            10 => Red::DarkSalmon,
            11 => Red::Salmon,
            12 => Red::LightSalmon,
            13 => Red::OrangeRed,
            14 => Red::DarkOrange,
            15 => Red::Orange,
            _ => Red::Red,
        }
    }

    fn channels(&self) -> ColourRgb {
        match self {
            Red::Maroon => ColourRgb { red: 0x80, green: 0x00, blue: 0x00 },
            Red::DarkRed => ColourRgb { red: 0x8B, green: 0x00, blue: 0x00 },
            Red::Brown => ColourRgb { red: 0xA5, green: 0x2A, blue: 0x2A },
            Red::Firebrick => ColourRgb { red: 0xB2, green: 0x22, blue: 0x22 },
            Red::Crimson => ColourRgb { red: 0xDC, green: 0x14, blue: 0x3C },
            Red::Red => ColourRgb { red: 0xFF, green: 0x00, blue: 0x00 },
            Red::Tomato => ColourRgb { red: 0xFF, green: 0x63, blue: 0x47 },
            Red::Coral => ColourRgb { red: 0xFF, green: 0x7F, blue: 0x50 },
            Red::IndianRed => ColourRgb { red: 0xCD, green: 0x5C, blue: 0x5C },
            Red::LightCoral => ColourRgb { red: 0xF0, green: 0x80, blue: 0x80 },
            Red::DarkSalmon => ColourRgb { red: 0xE9, green: 0x96, blue: 0x7A },
            Red::Salmon => ColourRgb { red: 0xFA, green: 0x80, blue: 0x72 },
            Red::LightSalmon => ColourRgb { red: 0xFF, green: 0xA0, blue: 0x7A },
            Red::OrangeRed => ColourRgb { red: 0xFF, green: 0x45, blue: 0x00 },
            Red::DarkOrange => ColourRgb { red: 0xFF, green: 0x8C, blue: 0x00 },
            Red::Orange => ColourRgb { red: 0xFF, green: 0xA5, blue: 0x00 },
        }
    }

    fn name_text(&self) -> &'static str {
        match self {
            Red::Maroon => "maroon",
            Red::DarkRed => "darkred",
            Red::Brown => "brown",
            Red::Firebrick => "firebrick",
            Red::Crimson => "crimson",
            Red::Red => "red",
            Red::Tomato => "tomato",
            Red::Coral => "coral",
            Red::IndianRed => "indianred",
            Red::LightCoral => "lightcoral",
            Red::DarkSalmon => "darksalmon",
            Red::Salmon => "salmon",
            Red::LightSalmon => "lightsalmon",
            Red::OrangeRed => "orangered",
            Red::DarkOrange => "darkorange",
            Red::Orange => "orange",
        }
    }

    fn holds_hex(&self) -> bool {
        true
    }
}

impl Red {
    /// The colour as RGB channels.
    pub fn to_rgb(&self) -> (r: ColourRgb)
        ensures
            r == self.colour(),
    {
        self.channels()
    }

    /// The colour as six capital hex digits, after the chosen prefix.
    pub fn to_hex_triplet(&self, prefix: Prefix) -> (r: String)
        ensures
            r@ == hex_triplet(self.colour(), prefix),
    {
        encode(self.channels(), prefix)
    }

    /// The canonical hex code of the colour, `#RRGGBB`.
    pub fn to_string(&self) -> (r: String)
        ensures
            r@ == hex_triplet(self.colour(), Prefix::Hash),
    {
        encode(self.channels(), Prefix::Hash)
    }

    /// The colour as a decimal tuple, `(R,G,B)`.
    pub fn as_rgb(&self) -> (r: String)
        ensures
            r@ == tuple_text(self.colour()),
    {
        self.channels().to_tuple_string()
    }

    /// The colour that a name or hex code (any case, `#` optional) stands for.
    pub fn parse(name: &str) -> (r: Option<Red>)
        ensures
            r == lookup::<Red>(lower_of(name@)),
            is_ascii_text(name@) ==> r == lookup::<Red>(ascii_lower(name@)),
    {
        family::parse(name)
    }

    /// A colour of this family drawn at random.
    pub fn random() -> (r: Red)
        ensures
            exists|i: nat| i < Red::count() && r == drawn::<Red>(i),
    {
        family::random()
    }
}

impl core::str::FromStr for Red {
    type Err = String;

    fn from_str(s: &str) -> Result<Red, String> {
        family::from_string(s)
    }
}

impl ExtendedColour for Red {}

} // verus!
