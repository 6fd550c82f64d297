//! Named colours: families of named shades, each mapped to a canonical
//! `#RRGGBB` code, with parsing from names or hex codes and rendering as hex
//! or decimal text.

use vstd::prelude::*;

pub mod basic;
pub mod ext;
pub mod family;
pub mod hex;
pub mod random;
pub mod rgb;
pub mod text;

pub use basic::Basic;
pub use ext::{
    name_colour, random_named_colour, Black, Blue, Brown, Cyan, ExtendedColour, Green, Indigo,
    Lavender, NamedColour, Purple, Red, White, Yellow,
};
pub use family::ColourFamily;
pub use hex::{decode, encode, MalformedHex};
pub use rgb::{ColourRgb, ToHex};

verus! {

/// What a hex triplet is written with in front of its six digits.
#[derive(Clone, Copy, Debug, PartialEq, Eq, Structural)]
pub enum Prefix {
    /// Nothing: six characters.
    Bare,
    /// `#`: seven characters.
    Hash,
}

} // verus!
