//! Shades of black and grey.

use vstd::prelude::*;

use crate::ext::ExtendedColour;
use crate::family::{self, drawn, lookup, ColourFamily};
use crate::hex::{encode, hex_colour, hex_triplet, is_hex_digit};
use crate::rgb::{tuple_text, ColourRgb};
use crate::text::{ascii_lower, is_ascii_text, lower_of};
use crate::Prefix;

verus! {

/// Shades of black and grey.
#[derive(Clone, Copy, Debug, PartialEq, Eq, Hash, Structural)]
pub enum Black {
    SlateGray,
    SlateGrey,
    LightSlateGray,
    LightSlateGrey,
    Black,
    DimGray,
    DimGrey,
    Gray,
    Grey,
    DarkGray,
    DarkGrey,
    Silver,
    LightGray,
    LightGrey,
    Gainsboro,
}

impl ColourFamily for Black {
    open spec fn count() -> nat {
        15
    }

    open spec fn position(self) -> nat {
        match self {
            Black::SlateGray => 0,
            Black::SlateGrey => 1,
            Black::LightSlateGray => 2,
            Black::LightSlateGrey => 3,
            Black::Black => 4,
            Black::DimGray => 5,
            Black::DimGrey => 6,
            Black::Gray => 7,
            Black::Grey => 8,
            Black::DarkGray => 9,
            Black::DarkGrey => 10,
            Black::Silver => 11,
            Black::LightGray => 12,
            Black::LightGrey => 13,
            Black::Gainsboro => 14,
        }
    }

    open spec fn colour(self) -> ColourRgb {
        match self {
            Black::SlateGray => ColourRgb { red: 0x70, green: 0x80, blue: 0x90 },
            Black::SlateGrey => ColourRgb { red: 0x70, green: 0x80, blue: 0x90 },
            Black::LightSlateGray => ColourRgb { red: 0x77, green: 0x88, blue: 0x99 },
            Black::LightSlateGrey => ColourRgb { red: 0x77, green: 0x88, blue: 0x99 },
            Black::Black => ColourRgb { red: 0x00, green: 0x00, blue: 0x00 },
            Black::DimGray => ColourRgb { red: 0x69, green: 0x69, blue: 0x69 },
            Black::DimGrey => ColourRgb { red: 0x69, green: 0x69, blue: 0x69 },
            Black::Gray => ColourRgb { red: 0x80, green: 0x80, blue: 0x80 },
            Black::Grey => ColourRgb { red: 0x80, green: 0x80, blue: 0x80 },
            Black::DarkGray => ColourRgb { red: 0xA9, green: 0xA9, blue: 0xA9 },
            Black::DarkGrey => ColourRgb { red: 0xA9, green: 0xA9, blue: 0xA9 },
            Black::Silver => ColourRgb { red: 0xC0, green: 0xC0, blue: 0xC0 },
            Black::LightGray => ColourRgb { red: 0xD3, green: 0xD3, blue: 0xD3 },
            Black::LightGrey => ColourRgb { red: 0xD3, green: 0xD3, blue: 0xD3 },
            Black::Gainsboro => ColourRgb { red: 0xDC, green: 0xDC, blue: 0xDC },
        }
    }

    open spec fn name(self) -> Seq<char> {
        match self {
            Black::SlateGray => "slategray"@,
            Black::SlateGrey => "slategrey"@,
            Black::LightSlateGray => "lightslategray"@,
            Black::LightSlateGrey => "lightslategrey"@,
            Black::Black => "black"@,
            Black::DimGray => "dimgray"@,
            Black::DimGrey => "dimgrey"@,
            Black::Gray => "gray"@,
            Black::Grey => "grey"@,
            Black::DarkGray => "darkgray"@,
            Black::DarkGrey => "darkgrey"@,
            Black::Silver => "silver"@,
            Black::LightGray => "lightgray"@,
            Black::LightGrey => "lightgrey"@,
            Black::Gainsboro => "gainsboro"@,
        }
    }

    open spec fn hex_holder(self) -> Black {
        match self {
            Black::SlateGrey => Black::SlateGray,
            Black::LightSlateGrey => Black::LightSlateGray,
            Black::DimGrey => Black::DimGray,
            Black::Grey => Black::Gray,
            Black::DarkGrey => Black::DarkGray,
            Black::LightGrey => Black::LightGray,
            _ => self,
        }
    }

    open spec fn fallback() -> Black {
        Black::Black
    }

    proof fn lemma_table() {
        reveal_strlit("slategray");
        reveal_strlit("slategrey");
        reveal_strlit("lightslategray");
        reveal_strlit("lightslategrey");
        reveal_strlit("black");
        reveal_strlit("dimgray");
        reveal_strlit("dimgrey");
        reveal_strlit("gray");
        reveal_strlit("grey");
        reveal_strlit("darkgray");
        reveal_strlit("darkgrey");
        reveal_strlit("silver");
        reveal_strlit("lightgray");
        reveal_strlit("lightgrey");
        reveal_strlit("gainsboro");
        // Two distinct names differ in length or at some position.
        assert forall|v: Black, w: Black| v.name() == w.name() implies v == w by {
            let x = v.name();
            let y = w.name();
            assert(x.len() == y.len());
            assert(x[0] == y[0]);
            assert(x[1] == y[1]);
            assert(x[2] == y[2]);
            assert(x[3] == y[3]);
            assert(x[4] == y[4]);
            assert(x[5] == y[5]);
            assert(x[6] == y[6]);
            assert(x[7] == y[7]);
            assert(x[8] == y[8]);
            assert(x[9] == y[9]);
            assert(x[10] == y[10]);
            assert(x[11] == y[11]);
            assert(x[12] == y[12]);
            assert(x[13] == y[13]);
        }
        // No name starts with `#`, and none is six hex digits.
        assert forall|v: Black| hex_colour(#[trigger] v.name()) is None by {
            let x = v.name();
            assert(x[0] != '#');
            assert(x.len() != 6 || !is_hex_digit(x[0]) || !is_hex_digit(x[1]) || !is_hex_digit(x[2])
                || !is_hex_digit(x[3]) || !is_hex_digit(x[4]) || !is_hex_digit(x[5]));
        }
    }

    fn variant_count() -> usize {
        15
    }

    fn at(i: usize) -> Black {
        match i {
            0 => Black::SlateGray,
            1 => Black::SlateGrey,
            2 => Black::LightSlateGray,
            3 => Black::LightSlateGrey,
            4 => Black::Black,
            5 => Black::DimGray,
            6 => Black::DimGrey,
            7 => Black::Gray,
            8 => Black::Grey,
            9 => Black::DarkGray,
            10 => Black::DarkGrey,
            11 => Black::Silver,
            12 => Black::LightGray,
            13 => Black::LightGrey,
            14 => Black::Gainsboro,
            _ => Black::Black,
        }
    }

    fn channels(&self) -> ColourRgb {
        match self {
            Black::SlateGray => ColourRgb { red: 0x70, green: 0x80, blue: 0x90 },
            Black::SlateGrey => ColourRgb { red: 0x70, green: 0x80, blue: 0x90 },
            Black::LightSlateGray => ColourRgb { red: 0x77, green: 0x88, blue: 0x99 },
            Black::LightSlateGrey => ColourRgb { red: 0x77, green: 0x88, blue: 0x99 },
            Black::Black => ColourRgb { red: 0x00, green: 0x00, blue: 0x00 },
            Black::DimGray => ColourRgb { red: 0x69, green: 0x69, blue: 0x69 },
            Black::DimGrey => ColourRgb { red: 0x69, green: 0x69, blue: 0x69 },
            Black::Gray => ColourRgb { red: 0x80, green: 0x80, blue: 0x80 },
            Black::Grey => ColourRgb { red: 0x80, green: 0x80, blue: 0x80 },
            Black::DarkGray => ColourRgb { red: 0xA9, green: 0xA9, blue: 0xA9 },
            Black::DarkGrey => ColourRgb { red: 0xA9, green: 0xA9, blue: 0xA9 },
            Black::Silver => ColourRgb { red: 0xC0, green: 0xC0, blue: 0xC0 },
            Black::LightGray => ColourRgb { red: 0xD3, green: 0xD3, blue: 0xD3 },
            Black::LightGrey => ColourRgb { red: 0xD3, green: 0xD3, blue: 0xD3 },
            Black::Gainsboro => ColourRgb { red: 0xDC, green: 0xDC, blue: 0xDC },
        }
    }

    fn name_text(&self) -> &'static str {
        match self {
            Black::SlateGray => "slategray",
            Black::SlateGrey => "slategrey",
            Black::LightSlateGray => "lightslategray",
            Black::LightSlateGrey => "lightslategrey",
            Black::Black => "black",
            Black::DimGray => "dimgray",
            Black::DimGrey => "dimgrey",
            Black::Gray => "gray",
            Black::Grey => "grey",
            Black::DarkGray => "darkgray",
            Black::DarkGrey => "darkgrey",
            Black::Silver => "silver",
            Black::LightGray => "lightgray",
            Black::LightGrey => "lightgrey",
            Black::Gainsboro => "gainsboro",
        }
    }

    fn holds_hex(&self) -> bool {
        match self {
            Black::SlateGrey | Black::LightSlateGrey | Black::DimGrey | Black::Grey | Black::DarkGrey | Black::LightGrey => false,
            _ => true,
        }
    }
}

impl Black {
    /// The colour as RGB channels.
    pub fn to_rgb(&self) -> (r: ColourRgb)
        ensures
            r == self.colour(),
    {
        self.channels()
    }

    /// The colour as six capital hex digits, after the chosen prefix.
    pub fn to_hex_triplet(&self, prefix: Prefix) -> (r: String)
        ensures
            r@ == hex_triplet(self.colour(), prefix),
    {
        encode(self.channels(), prefix)
    }

    /// The canonical hex code of the colour, `#RRGGBB`.
    pub fn to_string(&self) -> (r: String)
        ensures
            r@ == hex_triplet(self.colour(), Prefix::Hash),
    {
        encode(self.channels(), Prefix::Hash)
    }

    /// The colour as a decimal tuple, `(R,G,B)`.
    pub fn as_rgb(&self) -> (r: String)
        ensures
            r@ == tuple_text(self.colour()),
    {
        self.channels().to_tuple_string()
    }

    /// The colour that a name or hex code (any case, `#` optional) stands for.
    pub fn parse(name: &str) -> (r: Option<Black>)
        ensures
            r == lookup::<Black>(lower_of(name@)),
            is_ascii_text(name@) ==> r == lookup::<Black>(ascii_lower(name@)),
    {
        family::parse(name)
    }

    /// A colour of this family drawn at random.
    pub fn random() -> (r: Black)
        ensures
            exists|i: nat| i < Black::count() && r == drawn::<Black>(i),
    {
        family::random()
    }
}

impl core::str::FromStr for Black {
    type Err = String;

    fn from_str(s: &str) -> Result<Black, String> {
        family::from_string(s)
    }
}

impl ExtendedColour for Black {}

} // verus!
