//! Base-16 codec between `#RRGGBB` text and RGB channels.

use vstd::prelude::*;

use crate::rgb::ColourRgb;
use crate::text::{digit_char, digit_text};
use crate::Prefix;

verus! {

/// A hex digit, in either case.
pub open spec fn is_hex_digit(c: char) -> bool {
    ('0' <= c && c <= '9') || ('a' <= c && c <= 'f') || ('A' <= c && c <= 'F')
}

/// The value of a hex digit.
pub open spec fn digit_value(c: char) -> nat {
    if '0' <= c && c <= '9' {
        (c as u32 - '0' as u32) as nat
    } else if 'a' <= c && c <= 'f' {
        (c as u32 - 'a' as u32 + 10) as nat
    } else {
        (c as u32 - 'A' as u32 + 10) as nat
    }
}

/// The two hex digits of a byte, high digit first.
pub open spec fn byte_hex(b: u8, upper: bool) -> Seq<char> {
    seq![digit_char(b as nat / 16, upper), digit_char(b as nat % 16, upper)]
}

/// The six hex digits of a colour: red, green, blue.
pub open spec fn colour_hex(c: ColourRgb, upper: bool) -> Seq<char> {
    byte_hex(c.red, upper) + byte_hex(c.green, upper) + byte_hex(c.blue, upper)
}

/// The text after an optional leading `#`.
pub open spec fn hex_body(s: Seq<char>) -> Seq<char> {
    if s.len() > 0 && s[0] == '#' {
        s.drop_first()
    } else {
        s
    }
}

/// The byte written by two hex digits.
pub open spec fn byte_of(hi: char, lo: char) -> u8 {
    (16 * digit_value(hi) + digit_value(lo)) as u8
}

/// The colour that `s` writes, if `s` is six hex digits of either case after
/// an optional `#`.
pub open spec fn hex_colour(s: Seq<char>) -> Option<ColourRgb> {
    let d = hex_body(s);
    if d.len() == 6 && forall|i: int| 0 <= i < 6 ==> is_hex_digit(#[trigger] d[i]) {
        Some(ColourRgb { red: byte_of(d[0], d[1]), green: byte_of(d[2], d[3]), blue: byte_of(d[4], d[5]) })
    } else {
        None
    }
}

/// Hex text that does not write a colour.
#[derive(Clone, Copy, Debug, PartialEq, Eq, Structural)]
pub struct MalformedHex;

/// Appends the six hex digits of `c` to `out`.
pub fn push_colour_hex(out: &mut String, c: ColourRgb, upper: bool)
    ensures
        final(out)@ == old(out)@ + colour_hex(c, upper),
{
    out.append(digit_text(c.red / 16, upper));
    out.append(digit_text(c.red % 16, upper));
    out.append(digit_text(c.green / 16, upper));
    out.append(digit_text(c.green % 16, upper));
    out.append(digit_text(c.blue / 16, upper));
    out.append(digit_text(c.blue % 16, upper));
    assert(out@ =~= old(out)@ + colour_hex(c, upper));
}

/// The text that a prefix option puts before the six digits.
pub open spec fn prefix_text(prefix: Prefix) -> Seq<char> {
    match prefix {
        Prefix::Hash => seq!['#'],
        Prefix::Bare => Seq::empty(),
    }
}

/// A colour as a hex triplet: the prefix, then six capital hex digits.
pub open spec fn hex_triplet(c: ColourRgb, prefix: Prefix) -> Seq<char> {
    prefix_text(prefix) + colour_hex(c, true)
}

/// Writes a colour as a hex triplet: the prefix, then six capital hex digits.
pub fn encode(c: ColourRgb, prefix: Prefix) -> (r: String)
    ensures
        r@ == hex_triplet(c, prefix),
{
    let mut out = String::new();
    match prefix {
        Prefix::Hash => {
            proof {
                reveal_strlit("#");
            }
            out.append("#");
        },
        Prefix::Bare => {},
    }
    assert(out@ =~= prefix_text(prefix));
    push_colour_hex(&mut out, c, true);
    out
}

/// The value of one hex digit, or `None` for any other character.
fn digit_of(c: char) -> (r: Option<u8>)
    ensures
        is_hex_digit(c) ==> r == Some(digit_value(c) as u8) && digit_value(c) < 16,
        !is_hex_digit(c) ==> r is None,
{
    if '0' <= c && c <= '9' {
        Some((c as u32 - '0' as u32) as u8)
    } else if 'a' <= c && c <= 'f' {
        Some((c as u32 - 'a' as u32 + 10) as u8)
    } else if 'A' <= c && c <= 'F' {
        Some((c as u32 - 'A' as u32 + 10) as u8)
    } else {
        None
    }
}

/// Reads the colour written as six hex digits of either case, with or without
/// a leading `#`.
pub fn decode(hex: &str) -> (r: Result<ColourRgb, MalformedHex>)
    ensures
        match hex_colour(hex@) {
            Some(c) => r == Ok::<ColourRgb, MalformedHex>(c),
            None => r == Err::<ColourRgb, MalformedHex>(MalformedHex),
        },
{
    let n = hex.unicode_len();
    let start: usize = if n > 0 && hex.get_char(0) == '#' { 1 } else { 0 };
    let ghost d = hex_body(hex@);
    assert(d =~= hex@.subrange(start as int, n as int));
    if n - start != 6 {
        return Err(MalformedHex);
    }
    let mut vals: [u8; 6] = [0u8; 6];
    let mut i: usize = 0;
    while i < 6
        invariant
            n == hex@.len(),
            d =~= hex@.subrange(start as int, n as int),
            d.len() == 6,
            start + 6 == n,
            i <= 6,
            forall|j: int| 0 <= j < i ==> is_hex_digit(#[trigger] d[j]),
            forall|j: int| 0 <= j < i ==> vals@[j] == digit_value(#[trigger] d[j]) && vals@[j] < 16,
        decreases 6 - i,
    {
        match digit_of(hex.get_char(start + i)) {
            Some(v) => {
                vals[i] = v;
            },
            None => {
                assert(!is_hex_digit(d[i as int]));
                return Err(MalformedHex);
            },
        }
        i += 1;
    }
    Ok(ColourRgb {
        red: vals[0] * 16 + vals[1],
        green: vals[2] * 16 + vals[3],
        blue: vals[4] * 16 + vals[5],
    })
}

/// The digit characters invert `digit_value`.
proof fn lemma_digit_round_trip(d: nat, upper: bool)
    requires
        d < 16,
    ensures
        is_hex_digit(digit_char(d, upper)),
        digit_value(digit_char(d, upper)) == d,
{
}

/// Reading back the hex digits of a colour, with or without a `#` in front,
/// gives the colour again.
pub proof fn lemma_hex_round_trip(c: ColourRgb, upper: bool, hash: bool)
    ensures
        hex_colour(if hash { seq!['#'] + colour_hex(c, upper) } else { colour_hex(c, upper) }) == Some(c),
{
    let s = if hash { seq!['#'] + colour_hex(c, upper) } else { colour_hex(c, upper) };
    let h = colour_hex(c, upper);
    assert(hex_body(s) =~= h);
    lemma_digit_round_trip(c.red as nat / 16, upper);
    lemma_digit_round_trip(c.red as nat % 16, upper);
    lemma_digit_round_trip(c.green as nat / 16, upper);
    lemma_digit_round_trip(c.green as nat % 16, upper);
    lemma_digit_round_trip(c.blue as nat / 16, upper);
    lemma_digit_round_trip(c.blue as nat % 16, upper);
    assert(forall|i: int| 0 <= i < 6 ==> is_hex_digit(#[trigger] h[i]));
}

/// The hash prefix gives seven characters starting with `#`; no prefix gives
/// six, none of them `#`. Either way six hex digits follow the prefix.
pub proof fn lemma_prefix_shape(c: ColourRgb, prefix: Prefix)
    ensures
        hex_body(hex_triplet(c, prefix)) == colour_hex(c, true),
        colour_hex(c, true).len() == 6,
        prefix == Prefix::Hash ==> hex_triplet(c, prefix).len() == 7 && hex_triplet(c, prefix)[0] == '#',
        prefix == Prefix::Bare ==> hex_triplet(c, prefix).len() == 6 && hex_triplet(c, prefix)[0] != '#',
{
    let s = hex_triplet(c, prefix);
    lemma_digit_round_trip(c.red as nat / 16, true);
    match prefix {
        Prefix::Hash => {
            assert(s.drop_first() =~= colour_hex(c, true));
        },
        Prefix::Bare => {
            assert(s =~= colour_hex(c, true));
        },
    }
}

} // verus!
