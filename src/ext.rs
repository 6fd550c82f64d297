//! The extended colours: eleven families of named shades, a capability shared
//! by all of them, and random selection across the whole catalogue.

use vstd::prelude::*;

mod black;
mod blue;
mod brown;
mod cyan;
mod green;
mod indigo;
mod lavender;
mod purple;
mod red;
mod white;
mod yellow;

pub use black::Black;
pub use blue::Blue;
pub use brown::Brown;
pub use cyan::Cyan;
pub use green::Green;
pub use indigo::Indigo;
pub use lavender::Lavender;
pub use purple::Purple;
pub use red::Red;
pub use white::White;
pub use yellow::Yellow;

use tinyrand::Wyrand;

use crate::family::{self, drawn, lookup, ColourFamily};
use crate::hex::{encode, hex_triplet};
use crate::random::{draw_below, fresh_generator};
use crate::rgb::ColourRgb;
use crate::text::{ascii_lower, is_ascii_text, lower_of};
use crate::Prefix;

verus! {

/// Name resolution offered uniformly by every extended family.
pub trait ExtendedColour: ColourFamily {
    /// The colour of this family that a name or hex code (any case, `#`
    /// optional) stands for.
    fn name_colour(colour: &str) -> (r: Option<Self>)
        ensures
            r == lookup::<Self>(lower_of(colour@)),
            is_ascii_text(colour@) ==> r == lookup::<Self>(ascii_lower(colour@)),
    {
        family::parse::<Self>(colour)
    }
}

/// The colour of family `T` that a name or hex code stands for.
pub fn name_colour<T: ExtendedColour>(colour: &str) -> (r: Option<T>)
    ensures
        r == lookup::<T>(lower_of(colour@)),
        is_ascii_text(colour@) ==> r == lookup::<T>(ascii_lower(colour@)),
{
    T::name_colour(colour)
}

/// Number of extended families.
pub const FAMILY_COUNT: usize = 11;

/// A colour of any extended family, tagged with its family.
#[derive(Clone, Copy, Debug, PartialEq, Eq, Hash, Structural)]
pub enum NamedColour {
    Black(Black),
    Blue(Blue),
    Brown(Brown),
    Cyan(Cyan),
    Green(Green),
    Indigo(Indigo),
    Lavender(Lavender),
    Purple(Purple),
    Red(Red),
    White(White),
    Yellow(Yellow),
}

impl NamedColour {
    /// Index of the family, in the order of the variants of `NamedColour`.
    pub open spec fn family(self) -> nat {
        match self {
            NamedColour::Black(_) => 0,
            NamedColour::Blue(_) => 1,
            NamedColour::Brown(_) => 2,
            NamedColour::Cyan(_) => 3,
            NamedColour::Green(_) => 4,
            NamedColour::Indigo(_) => 5,
            NamedColour::Lavender(_) => 6,
            NamedColour::Purple(_) => 7,
            NamedColour::Red(_) => 8,
            NamedColour::White(_) => 9,
            NamedColour::Yellow(_) => 10,
        }
    }

    /// The colour of the tagged variant.
    pub open spec fn colour(self) -> ColourRgb {
        match self {
            NamedColour::Black(c) => c.colour(),
            NamedColour::Blue(c) => c.colour(),
            NamedColour::Brown(c) => c.colour(),
            NamedColour::Cyan(c) => c.colour(),
            NamedColour::Green(c) => c.colour(),
            NamedColour::Indigo(c) => c.colour(),
            NamedColour::Lavender(c) => c.colour(),
            NamedColour::Purple(c) => c.colour(),
            NamedColour::Red(c) => c.colour(),
            NamedColour::White(c) => c.colour(),
            NamedColour::Yellow(c) => c.colour(),
        }
    }

    /// The colour as RGB channels.
    pub fn to_rgb(&self) -> (r: ColourRgb)
        ensures
            r == self.colour(),
    {
        match self {
            NamedColour::Black(c) => c.channels(),
            NamedColour::Blue(c) => c.channels(),
            NamedColour::Brown(c) => c.channels(),
            NamedColour::Cyan(c) => c.channels(),
            NamedColour::Green(c) => c.channels(),
            NamedColour::Indigo(c) => c.channels(),
            NamedColour::Lavender(c) => c.channels(),
            NamedColour::Purple(c) => c.channels(),
            NamedColour::Red(c) => c.channels(),
            NamedColour::White(c) => c.channels(),
            NamedColour::Yellow(c) => c.channels(),
        }
    }

    /// The colour as six capital hex digits, after the chosen prefix.
    pub fn to_hex_triplet(&self, prefix: Prefix) -> (r: String)
        ensures
            r@ == hex_triplet(self.colour(), prefix),
    {
        encode(self.to_rgb(), prefix)
    }
}

/// What a draw of family `family` and position `index` selects: the family
/// with that index (the first family past the last index), then the variant
/// that `index` draws in it.
pub open spec fn drawn_named(family: nat, index: nat) -> NamedColour {
    if family == 1 {
        NamedColour::Blue(drawn::<Blue>(index))
    } else if family == 2 {
        NamedColour::Brown(drawn::<Brown>(index))
    } else if family == 3 {
        NamedColour::Cyan(drawn::<Cyan>(index))
    } else if family == 4 {
        NamedColour::Green(drawn::<Green>(index))
    } else if family == 5 {
        NamedColour::Indigo(drawn::<Indigo>(index))
    } else if family == 6 {
        NamedColour::Lavender(drawn::<Lavender>(index))
    } else if family == 7 {
        NamedColour::Purple(drawn::<Purple>(index))
    } else if family == 8 {
        NamedColour::Red(drawn::<Red>(index))
    } else if family == 9 {
        NamedColour::White(drawn::<White>(index))
    } else if family == 10 {
        NamedColour::Yellow(drawn::<Yellow>(index))
    } else {
        NamedColour::Black(drawn::<Black>(index))
    }
}

/// Number of variants of the family with index `family`.
pub open spec fn family_size(family: nat) -> nat {
    if family == 1 {
        Blue::count()
    } else if family == 2 {
        Brown::count()
    } else if family == 3 {
        Cyan::count()
    } else if family == 4 {
        Green::count()
    } else if family == 5 {
        Indigo::count()
    } else if family == 6 {
        Lavender::count()
    } else if family == 7 {
        Purple::count()
    } else if family == 8 {
        Red::count()
    } else if family == 9 {
        White::count()
    } else if family == 10 {
        Yellow::count()
    } else {
        Black::count()
    }
}

/// The colour that a draw of `family`, then of `index` within that family,
/// selects.
pub fn named_colour_at(family: usize, index: usize) -> (r: NamedColour)
    ensures
        r == drawn_named(family as nat, index as nat),
{
    match family {
        1 => NamedColour::Blue(family::pick(index)),
        2 => NamedColour::Brown(family::pick(index)),
        3 => NamedColour::Cyan(family::pick(index)),
        4 => NamedColour::Green(family::pick(index)),
        5 => NamedColour::Indigo(family::pick(index)),
        6 => NamedColour::Lavender(family::pick(index)),
        7 => NamedColour::Purple(family::pick(index)),
        8 => NamedColour::Red(family::pick(index)),
        9 => NamedColour::White(family::pick(index)),
        10 => NamedColour::Yellow(family::pick(index)),
        _ => NamedColour::Black(family::pick(index)),
    }
}

/// Number of variants of the family with index `family`.
fn variants_in(family: usize) -> (n: usize)
    ensures
        n == family_size(family as nat),
        n > 0,
{
    proof {
        Black::lemma_table();
        Blue::lemma_table();
        Brown::lemma_table();
        Cyan::lemma_table();
        Green::lemma_table();
        Indigo::lemma_table();
        Lavender::lemma_table();
        Purple::lemma_table();
        Red::lemma_table();
        White::lemma_table();
        Yellow::lemma_table();
    }
    match family {
        1 => Blue::variant_count(),
        2 => Brown::variant_count(),
        3 => Cyan::variant_count(),
        4 => Green::variant_count(),
        5 => Indigo::variant_count(),
        6 => Lavender::variant_count(),
        7 => Purple::variant_count(),
        8 => Red::variant_count(),
        9 => White::variant_count(),
        10 => Yellow::variant_count(),
        _ => Black::variant_count(),
    }
}

/// A colour of any extended family drawn with `rand`: first a family, then a
/// variant of that family, each uniformly.
pub fn random_named_colour_from(rand: &mut Wyrand) -> (r: NamedColour)
    ensures
        exists|f: nat, i: nat| f < FAMILY_COUNT && i < family_size(f) && r == drawn_named(f, i),
{
    let family = draw_below(rand, FAMILY_COUNT);
    let index = draw_below(rand, variants_in(family));
    named_colour_at(family, index)
}

/// A colour of any extended family, drawn by a generator seeded from the
/// system clock.
pub fn random_named_colour() -> (r: NamedColour)
    ensures
        exists|f: nat, i: nat| f < FAMILY_COUNT && i < family_size(f) && r == drawn_named(f, i),
{
    let mut rand = fresh_generator();
    random_named_colour_from(&mut rand)
}

} // verus!
