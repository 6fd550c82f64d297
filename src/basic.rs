//! The sixteen basic colours, under eighteen names.

use vstd::prelude::*;

use crate::family::{self, drawn, lookup, ColourFamily};
use crate::hex::{encode, hex_colour, hex_triplet, is_hex_digit};
use crate::rgb::{tuple_text, ColourRgb};
use crate::text::{ascii_lower, is_ascii_text, lower_of};
use crate::Prefix;

verus! {

/// The sixteen basic colours, under eighteen names.
#[derive(Clone, Copy, Debug, PartialEq, Eq, Hash, Structural)]
pub enum Basic {
    Black,
    White,
    Red,
    Lime,
    Blue,
    Yellow,
    Cyan,
    Aqua,
    Magenta,
    Fuchsia,
    Silver,
    Gray,
    Maroon,
    Olive,
    Green,
    Purple,
    Teal,
    Navy,
}

impl ColourFamily for Basic {
    open spec fn count() -> nat {
        18
    }

    open spec fn position(self) -> nat {
        match self {
            Basic::Black => 0,
            Basic::White => 1,
            Basic::Red => 2,
            Basic::Lime => 3,
            Basic::Blue => 4,
            Basic::Yellow => 5,
            Basic::Cyan => 6,
            Basic::Aqua => 7,
            Basic::Magenta => 8,
            Basic::Fuchsia => 9,
            Basic::Silver => 10,
            Basic::Gray => 11,
            Basic::Maroon => 12,
            Basic::Olive => 13,
            Basic::Green => 14,
            Basic::Purple => 15,
            Basic::Teal => 16,
            Basic::Navy => 17,
        }
    }

    open spec fn colour(self) -> ColourRgb {
        match self {
            Basic::Black => ColourRgb { red: 0x00, green: 0x00, blue: 0x00 },
            Basic::White => ColourRgb { red: 0xFF, green: 0xFF, blue: 0xFF },
            Basic::Red => ColourRgb { red: 0xFF, green: 0x00, blue: 0x00 },
            Basic::Lime => ColourRgb { red: 0x00, green: 0xFF, blue: 0x00 },
            Basic::Blue => ColourRgb { red: 0x00, green: 0x00, blue: 0xFF },
            Basic::Yellow => ColourRgb { red: 0xFF, green: 0xFF, blue: 0x00 },
            Basic::Cyan => ColourRgb { red: 0x00, green: 0xFF, blue: 0xFF },
            Basic::Aqua => ColourRgb { red: 0x00, green: 0xFF, blue: 0xFF },
            Basic::Magenta => ColourRgb { red: 0xFF, green: 0x00, blue: 0xFF },
            Basic::Fuchsia => ColourRgb { red: 0xFF, green: 0x00, blue: 0xFF },
            Basic::Silver => ColourRgb { red: 0xC0, green: 0xC0, blue: 0xC0 },
            Basic::Gray => ColourRgb { red: 0x80, green: 0x80, blue: 0x80 },
            Basic::Maroon => ColourRgb { red: 0x80, green: 0x00, blue: 0x00 },
            Basic::Olive => ColourRgb { red: 0x80, green: 0x80, blue: 0x00 },
            Basic::Green => ColourRgb { red: 0x00, green: 0x80, blue: 0x00 },
            Basic::Purple => ColourRgb { red: 0x80, green: 0x00, blue: 0x80 },
            Basic::Teal => ColourRgb { red: 0x00, green: 0x80, blue: 0x80 },
            Basic::Navy => ColourRgb { red: 0x00, green: 0x00, blue: 0x80 },
        }
    }

    open spec fn name(self) -> Seq<char> {
        match self {
            Basic::Black => "black"@,
            Basic::White => "white"@,
            Basic::Red => "red"@,
            Basic::Lime => "lime"@,
            Basic::Blue => "blue"@,
            Basic::Yellow => "yellow"@,
            Basic::Cyan => "cyan"@,
            Basic::Aqua => "aqua"@,
            Basic::Magenta => "magenta"@,
            Basic::Fuchsia => "fuchsia"@,
            Basic::Silver => "silver"@,
            Basic::Gray => "gray"@,
            Basic::Maroon => "maroon"@,
            Basic::Olive => "olive"@,
            Basic::Green => "green"@,
            Basic::Purple => "purple"@,
            Basic::Teal => "teal"@,
            Basic::Navy => "navy"@,
        }
    }

    open spec fn hex_holder(self) -> Basic {
        match self {
            Basic::Cyan => Basic::Aqua,
            Basic::Fuchsia => Basic::Magenta,
            _ => self,
        }
    }

    open spec fn fallback() -> Basic {
        Basic::Black
    }

    proof fn lemma_table() {
        reveal_strlit("black");
        reveal_strlit("white");
        reveal_strlit("red");
        reveal_strlit("lime");
        reveal_strlit("blue");
        reveal_strlit("yellow");
        reveal_strlit("cyan");
        reveal_strlit("aqua");
        reveal_strlit("magenta");
        reveal_strlit("fuchsia");
        reveal_strlit("silver");
        reveal_strlit("gray");
        reveal_strlit("maroon");
        reveal_strlit("olive");
        reveal_strlit("green");
        reveal_strlit("purple");
        reveal_strlit("teal");
        reveal_strlit("navy");
        // Two distinct names differ in length or at some position.
        assert forall|v: Basic, w: Basic| v.name() == w.name() implies v == w by {
            let x = v.name();
            let y = w.name();
            assert(x.len() == y.len());
            assert(x[0] == y[0]);
            assert(x[1] == y[1]);
            assert(x[2] == y[2]);
            assert(x[3] == y[3]);
            assert(x[4] == y[4]);
            assert(x[5] == y[5]);
            assert(x[6] == y[6]);
        }
        // No name starts with `#`, and none is six hex digits.
        assert forall|v: Basic| hex_colour(#[trigger] v.name()) is None by {
            let x = v.name();
            assert(x[0] != '#');
            assert(x.len() != 6 || !is_hex_digit(x[0]) || !is_hex_digit(x[1]) || !is_hex_digit(x[2])
                || !is_hex_digit(x[3]) || !is_hex_digit(x[4]) || !is_hex_digit(x[5]));
        }
    }

    fn variant_count() -> usize {
        18
    }

    fn at(i: usize) -> Basic {
        match i {
            0 => Basic::Black,
            1 => Basic::White,
            2 => Basic::Red,
            3 => Basic::Lime,
            4 => Basic::Blue,
            5 => Basic::Yellow,
            6 => Basic::Cyan,
            7 => Basic::Aqua,
            8 => Basic::Magenta,
            9 => Basic::Fuchsia,
            10 => Basic::Silver,
            11 => Basic::Gray,
            12 => Basic::Maroon,
            13 => Basic::Olive,
            14 => Basic::Green,
            15 => Basic::Purple,
            16 => Basic::Teal,
            17 => Basic::Navy,
            _ => Basic::Black,
        }
    }

    fn channels(&self) -> ColourRgb {
        match self {
            Basic::Black => ColourRgb { red: 0x00, green: 0x00, blue: 0x00 },
            Basic::White => ColourRgb { red: 0xFF, green: 0xFF, blue: 0xFF },
            Basic::Red => ColourRgb { red: 0xFF, green: 0x00, blue: 0x00 },
            Basic::Lime => ColourRgb { red: 0x00, green: 0xFF, blue: 0x00 },
            Basic::Blue => ColourRgb { red: 0x00, green: 0x00, blue: 0xFF },
            Basic::Yellow => ColourRgb { red: 0xFF, green: 0xFF, blue: 0x00 },
            Basic::Cyan => ColourRgb { red: 0x00, green: 0xFF, blue: 0xFF },
            Basic::Aqua => ColourRgb { red: 0x00, green: 0xFF, blue: 0xFF },
            Basic::Magenta => ColourRgb { red: 0xFF, green: 0x00, blue: 0xFF },
            Basic::Fuchsia => ColourRgb { red: 0xFF, green: 0x00, blue: 0xFF },
            Basic::Silver => ColourRgb { red: 0xC0, green: 0xC0, blue: 0xC0 },
            Basic::Gray => ColourRgb { red: 0x80, green: 0x80, blue: 0x80 },
            Basic::Maroon => ColourRgb { red: 0x80, green: 0x00, blue: 0x00 },
            Basic::Olive => ColourRgb { red: 0x80, green: 0x80, blue: 0x00 },
            Basic::Green => ColourRgb { red: 0x00, green: 0x80, blue: 0x00 },
            Basic::Purple => ColourRgb { red: 0x80, green: 0x00, blue: 0x80 },
            Basic::Teal => ColourRgb { red: 0x00, green: 0x80, blue: 0x80 },
            Basic::Navy => ColourRgb { red: 0x00, green: 0x00, blue: 0x80 },
        }
    }

    fn name_text(&self) -> &'static str {
        match self {
            Basic::Black => "black",
            Basic::White => "white",
            Basic::Red => "red",
            Basic::Lime => "lime",
            Basic::Blue => "blue",
            Basic::Yellow => "yellow",
            Basic::Cyan => "cyan",
            Basic::Aqua => "aqua",
            Basic::Magenta => "magenta",
            Basic::Fuchsia => "fuchsia",
            Basic::Silver => "silver",
            Basic::Gray => "gray",
            Basic::Maroon => "maroon",
            Basic::Olive => "olive",
            Basic::Green => "green",
            Basic::Purple => "purple",
            Basic::Teal => "teal",
            Basic::Navy => "navy",
        }
    }

    fn holds_hex(&self) -> bool {
        match self {
            Basic::Cyan | Basic::Fuchsia => false,
            _ => true,
        }
    }
}

impl Basic {
    /// The colour as RGB channels.
    pub fn to_rgb(&self) -> (r: ColourRgb)
        ensures
            r == self.colour(),
    {
        self.channels()
    }

    /// The colour as six capital hex digits, after the chosen prefix.
    pub fn to_hex_triplet(&self, prefix: Prefix) -> (r: String)
        ensures
            r@ == hex_triplet(self.colour(), prefix),
    {
        encode(self.channels(), prefix)
    }

    /// The canonical hex code of the colour, `#RRGGBB`.
    pub fn to_string(&self) -> (r: String)
        ensures
            r@ == hex_triplet(self.colour(), Prefix::Hash),
    {
        encode(self.channels(), Prefix::Hash)
    }

    /// The colour as a decimal tuple, `(R,G,B)`.
    pub fn as_rgb(&self) -> (r: String)
        ensures
            r@ == tuple_text(self.colour()),
    {
        self.channels().to_tuple_string()
    }

    /// The colour that a name or hex code (any case, `#` optional) stands for.
    pub fn parse(name: &str) -> (r: Option<Basic>)
        ensures
            r == lookup::<Basic>(lower_of(name@)),
            is_ascii_text(name@) ==> r == lookup::<Basic>(ascii_lower(name@)),
    {
        family::parse(name)
    }

    /// A colour of this family drawn at random.
    pub fn random() -> (r: Basic)
        ensures
            exists|i: nat| i < Basic::count() && r == drawn::<Basic>(i),
    {
        family::random()
    }
}

impl core::str::FromStr for Basic {
    type Err = String;

    fn from_str(s: &str) -> Result<Basic, String> {
        family::from_string(s)
    }
}

} // verus!
