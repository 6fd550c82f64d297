//! Shades of white.

use vstd::prelude::*;

use crate::ext::ExtendedColour;
use crate::family::{self, drawn, lookup, ColourFamily};
use crate::hex::{encode, hex_colour, hex_triplet, is_hex_digit};
use crate::rgb::{tuple_text, ColourRgb};
use crate::text::{ascii_lower, is_ascii_text, lower_of};
use crate::Prefix;

verus! {

/// Shades of white.
#[derive(Clone, Copy, Debug, PartialEq, Eq, Hash, Structural)]
pub enum White {
    AntiqueWhite,
    Beige,
    Bisque,
    BlanchedAlmond,
    Wheat,
    CornSilk,
    White,
    NavajoWhite,
    MistyRose,
    LavenderBlush,
    Linen,
    OldLace,
    SeaShell,
    MintCream,
    FloralWhite,
    GhostWhite,
    Ivory,
    Snow,
    WhiteSmoke,
    AliceBlue,
}

impl ColourFamily for White {
    open spec fn count() -> nat {
        20
    }

    open spec fn position(self) -> nat {
        match self {
            White::AntiqueWhite => 0,
            White::Beige => 1,
            White::Bisque => 2,
            White::BlanchedAlmond => 3,
            White::Wheat => 4,
            White::CornSilk => 5,
            White::White => 6,
            White::NavajoWhite => 7,
            White::MistyRose => 8,
            White::LavenderBlush => 9,
            White::Linen => 10,
            White::OldLace => 11,
            White::SeaShell => 12,
            White::MintCream => 13,
            White::FloralWhite => 14,
            White::GhostWhite => 15,
            White::Ivory => 16,
            White::Snow => 17,
            White::WhiteSmoke => 18,
            White::AliceBlue => 19,
        }
    }

    open spec fn colour(self) -> ColourRgb {
        match self {
            White::AntiqueWhite => ColourRgb { red: 0xFA, green: 0xEB, blue: 0xD7 },
            White::Beige => ColourRgb { red: 0xF5, green: 0xF5, blue: 0xDC },
            White::Bisque => ColourRgb { red: 0xFF, green: 0xE4, blue: 0xC4 },
            White::BlanchedAlmond => ColourRgb { red: 0xFF, green: 0xEB, blue: 0xCD },
            White::Wheat => ColourRgb { red: 0xF5, green: 0xDE, blue: 0xB3 },
            White::CornSilk => ColourRgb { red: 0xFF, green: 0xF8, blue: 0xDC },
            White::White => ColourRgb { red: 0xFF, green: 0xFF, blue: 0xFF },
            White::NavajoWhite => ColourRgb { red: 0xFF, green: 0xDE, blue: 0xAD },
            White::MistyRose => ColourRgb { red: 0xFF, green: 0xE4, blue: 0xE1 },
            White::LavenderBlush => ColourRgb { red: 0xFF, green: 0xF0, blue: 0xF5 },
            White::Linen => ColourRgb { red: 0xFA, green: 0xF0, blue: 0xE6 },
            White::OldLace => ColourRgb { red: 0xFD, green: 0xF5, blue: 0xE6 },
            White::SeaShell => ColourRgb { red: 0xFF, green: 0xF5, blue: 0xEE },
            White::MintCream => ColourRgb { red: 0xF5, green: 0xFF, blue: 0xFA },
            White::FloralWhite => ColourRgb { red: 0xFF, green: 0xFA, blue: 0xF0 },
            White::GhostWhite => ColourRgb { red: 0xF8, green: 0xF8, blue: 0xFF },
            White::Ivory => ColourRgb { red: 0xFF, green: 0xFF, blue: 0xF0 },
            White::Snow => ColourRgb { red: 0xFF, green: 0xFA, blue: 0xFA },
            White::WhiteSmoke => ColourRgb { red: 0xF5, green: 0xF5, blue: 0xF5 },
            White::AliceBlue => ColourRgb { red: 0xF0, green: 0xF8, blue: 0xFF },
        }
    }

    open spec fn name(self) -> Seq<char> {
        match self {
            White::AntiqueWhite => "antiquewhite"@,
            White::Beige => "beige"@,
            White::Bisque => "bisque"@,
            White::BlanchedAlmond => "blanchedalmond"@,
            White::Wheat => "wheat"@,
            White::CornSilk => "cornsilk"@,
            White::White => "white"@,
            White::NavajoWhite => "navajowhite"@,
            White::MistyRose => "mistyrose"@,
            White::LavenderBlush => "lavenderblush"@,
            White::Linen => "linen"@,
            White::OldLace => "oldlace"@,
            White::SeaShell => "seashell"@,
            White::MintCream => "mintcream"@,
            White::FloralWhite => "floralwhite"@,
            White::GhostWhite => "ghostwhite"@,
            White::Ivory => "ivory"@,
            White::Snow => "snow"@,
            White::WhiteSmoke => "whitesmoke"@,
            White::AliceBlue => "aliceblue"@,
        }
    }

    open spec fn hex_holder(self) -> White {
        self
    }

    open spec fn fallback() -> White {
        White::White
    }

    proof fn lemma_table() {
        reveal_strlit("antiquewhite");
        reveal_strlit("beige");
        reveal_strlit("bisque");
        reveal_strlit("blanchedalmond");
        reveal_strlit("wheat");
        reveal_strlit("cornsilk");
        reveal_strlit("white");
        reveal_strlit("navajowhite");
        reveal_strlit("mistyrose");
        reveal_strlit("lavenderblush");
        reveal_strlit("linen");
        reveal_strlit("oldlace");
        reveal_strlit("seashell");
        reveal_strlit("mintcream");
        reveal_strlit("floralwhite");
        reveal_strlit("ghostwhite");
        reveal_strlit("ivory");
        reveal_strlit("snow");
        reveal_strlit("whitesmoke");
        reveal_strlit("aliceblue");
        // Two distinct names differ in length or at some position.
        assert forall|v: White, w: White| v.name() == w.name() implies v == w by {
            let x = v.name();
            let y = w.name();
            assert(x.len() == y.len());
            assert(x[0] == y[0]);
            assert(x[1] == y[1]);
            assert(x[2] == y[2]);
            assert(x[3] == y[3]);
            assert(x[4] == y[4]);
            assert(x[5] == y[5]);
            assert(x[6] == y[6]);
            assert(x[7] == y[7]);
            assert(x[8] == y[8]);
            assert(x[9] == y[9]);
            assert(x[10] == y[10]);
            assert(x[11] == y[11]);
            assert(x[12] == y[12]);
            assert(x[13] == y[13]);
        }
        // No name starts with `#`, and none is six hex digits.
        assert forall|v: White| hex_colour(#[trigger] v.name()) is None by {
            let x = v.name();
            assert(x[0] != '#');
            assert(x.len() != 6 || !is_hex_digit(x[0]) || !is_hex_digit(x[1]) || !is_hex_digit(x[2])
                || !is_hex_digit(x[3]) || !is_hex_digit(x[4]) || !is_hex_digit(x[5]));
        }
    }

    fn variant_count() -> usize {
        20
    }

    fn at(i: usize) -> White {
        match i {
            0 => White::AntiqueWhite,
            1 => White::Beige,
            2 => White::Bisque,
            3 => White::BlanchedAlmond,
            4 => White::Wheat,
            5 => White::CornSilk,
            6 => White::White,
            7 => White::NavajoWhite,
            8 => White::MistyRose,
            9 => White::LavenderBlush,
            10 => White::Linen,
            11 => White::OldLace,
            12 => White::SeaShell,
            13 => White::MintCream,
            14 => White::FloralWhite,
            15 => White::GhostWhite,
            16 => White::Ivory,
            17 => White::Snow,
            18 => White::WhiteSmoke,
            19 => White::AliceBlue,
            _ => White::White,
        }
    }

    fn channels(&self) -> ColourRgb {
        match self {
            White::AntiqueWhite => ColourRgb { red: 0xFA, green: 0xEB, blue: 0xD7 },
            White::Beige => ColourRgb { red: 0xF5, green: 0xF5, blue: 0xDC },
            White::Bisque => ColourRgb { red: 0xFF, green: 0xE4, blue: 0xC4 },
            White::BlanchedAlmond => ColourRgb { red: 0xFF, green: 0xEB, blue: 0xCD },
            White::Wheat => ColourRgb { red: 0xF5, green: 0xDE, blue: 0xB3 },
            White::CornSilk => ColourRgb { red: 0xFF, green: 0xF8, blue: 0xDC },
            White::White => ColourRgb { red: 0xFF, green: 0xFF, blue: 0xFF },
            White::NavajoWhite => ColourRgb { red: 0xFF, green: 0xDE, blue: 0xAD },
            White::MistyRose => ColourRgb { red: 0xFF, green: 0xE4, blue: 0xE1 },
            White::LavenderBlush => ColourRgb { red: 0xFF, green: 0xF0, blue: 0xF5 },
            White::Linen => ColourRgb { red: 0xFA, green: 0xF0, blue: 0xE6 },
            White::OldLace => ColourRgb { red: 0xFD, green: 0xF5, blue: 0xE6 },
            White::SeaShell => ColourRgb { red: 0xFF, green: 0xF5, blue: 0xEE },
            White::MintCream => ColourRgb { red: 0xF5, green: 0xFF, blue: 0xFA },
            White::FloralWhite => ColourRgb { red: 0xFF, green: 0xFA, blue: 0xF0 },
            White::GhostWhite => ColourRgb { red: 0xF8, green: 0xF8, blue: 0xFF },
            White::Ivory => ColourRgb { red: 0xFF, green: 0xFF, blue: 0xF0 },
            White::Snow => ColourRgb { red: 0xFF, green: 0xFA, blue: 0xFA },
            White::WhiteSmoke => ColourRgb { red: 0xF5, green: 0xF5, blue: 0xF5 },
            White::AliceBlue => ColourRgb { red: 0xF0, green: 0xF8, blue: 0xFF },
        }
    }

    fn name_text(&self) -> &'static str {
        match self {
            White::AntiqueWhite => "antiquewhite",
            White::Beige => "beige",
            White::Bisque => "bisque",
            White::BlanchedAlmond => "blanchedalmond",
            White::Wheat => "wheat",
            White::CornSilk => "cornsilk",
            White::White => "white",
            White::NavajoWhite => "navajowhite",
            White::MistyRose => "mistyrose",
            White::LavenderBlush => "lavenderblush",
            White::Linen => "linen",
            White::OldLace => "oldlace",
            White::SeaShell => "seashell",
            White::MintCream => "mintcream",
            White::FloralWhite => "floralwhite",
            White::GhostWhite => "ghostwhite",
            White::Ivory => "ivory",
            White::Snow => "snow",
            White::WhiteSmoke => "whitesmoke",
            White::AliceBlue => "aliceblue",
        }
    }

    fn holds_hex(&self) -> bool {
        true
    }
}

impl White {
    /// The colour as RGB channels.
    pub fn to_rgb(&self) -> (r: ColourRgb)
        ensures
            r == self.colour(),
    {
        self.channels()
    }

    /// The colour as six capital hex digits, after the chosen prefix.
    pub fn to_hex_triplet(&self, prefix: Prefix) -> (r: String)
        ensures
            r@ == hex_triplet(self.colour(), prefix),
    {
        encode(self.channels(), prefix)
    }

    /// The canonical hex code of the colour, `#RRGGBB`.
    pub fn to_string(&self) -> (r: String)
        ensures
            r@ == hex_triplet(self.colour(), Prefix::Hash),
    {
        encode(self.channels(), Prefix::Hash)
    }

    /// The colour as a decimal tuple, `(R,G,B)`.
    pub fn as_rgb(&self) -> (r: String)
        ensures
            r@ == tuple_text(self.colour()),
    {
        self.channels().to_tuple_string()
    }

    /// The colour that a name or hex code (any case, `#` optional) stands for.
    pub fn parse(name: &str) -> (r: Option<White>)
        ensures
            r == lookup::<White>(lower_of(name@)),
            is_ascii_text(name@) ==> r == lookup::<White>(ascii_lower(name@)),
    {
        family::parse(name)
    }

    /// A colour of this family drawn at random.
    pub fn random() -> (r: White)
        ensures
            exists|i: nat| i < White::count() && r == drawn::<White>(i),
    {
        family::random()
    }
}

impl core::str::FromStr for White {
    type Err = String;

    fn from_str(s: &str) -> Result<White, String> {
        family::from_string(s)
    }
}

impl ExtendedColour for White {}

} // verus!
