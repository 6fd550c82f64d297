//! What every colour family shares: its table of variants, and the parsing,
//! rendering and random selection built on that table.

use vstd::prelude::*;

use tinyrand::Wyrand;

use crate::hex::{colour_hex, decode, hex_colour, hex_triplet, lemma_hex_round_trip, prefix_text};
use crate::random::{draw_below, fresh_generator};
use crate::rgb::ColourRgb;
use crate::text::{ascii_lower, ascii_lower_char, digit_char, is_ascii_text, lower_of, lowercase, text_eq};
use crate::Prefix;

verus! {

/// A closed family of named colours, given by its table: each variant has a
/// position in declaration order, a colour and a lower-case name. Variants
/// that share a colour answer to its hex code through one of them, their hex
/// holder.
pub trait ColourFamily: Sized {
    /// Number of variants.
    spec fn count() -> nat;

    /// Position of the variant in declaration order.
    spec fn position(self) -> nat;

    /// The colour of the variant.
    spec fn colour(self) -> ColourRgb;

    /// The name of the variant, in lower case.
    spec fn name(self) -> Seq<char>;

    /// The variant that answers to this variant's hex code.
    spec fn hex_holder(self) -> Self;

    /// The variant that a draw beyond the last position selects.
    spec fn fallback() -> Self;

    /// The table is well formed: positions are distinct and below the count,
    /// names are distinct and never hex codes, and each colour has exactly
    /// one hex holder among the variants of that colour.
    proof fn lemma_table()
        ensures
            Self::count() > 0,
            forall|v: Self| #[trigger] v.position() < Self::count(),
            forall|v: Self, w: Self| #[trigger] v.position() == #[trigger] w.position() ==> v == w,
            forall|v: Self, w: Self| #[trigger] v.name() == #[trigger] w.name() ==> v == w,
            forall|v: Self| hex_colour(#[trigger] v.name()) is None,
            forall|v: Self|
                (#[trigger] v.hex_holder()).hex_holder() == v.hex_holder() && v.hex_holder().colour()
                    == v.colour(),
            forall|v: Self, w: Self|
                v.hex_holder() == v && w.hex_holder() == w && #[trigger] v.colour()
                    == #[trigger] w.colour() ==> v == w,
    ;

    /// Number of variants.
    fn variant_count() -> (n: usize)
        ensures
            n == Self::count(),
    ;

    /// The variant at position `i`, or the fallback past the last one.
    fn at(i: usize) -> (r: Self)
        ensures
            i < Self::count() ==> r.position() == i,
            Self::count() <= i ==> r == Self::fallback(),
    ;

    /// The colour of the variant.
    fn channels(&self) -> (r: ColourRgb)
        ensures
            r == self.colour(),
    ;

    /// The name of the variant.
    fn name_text(&self) -> (r: &'static str)
        ensures
            r@ == self.name(),
    ;

    /// Whether the variant answers to its own hex code.
    fn holds_hex(&self) -> (r: bool)
        ensures
            r == (self.hex_holder() == *self),
    ;
}

/// The variant answers to its own hex code.
pub open spec fn holds_hex<C: ColourFamily>(v: C) -> bool {
    v.hex_holder() == v
}

/// The variant that a lower-case key resolves to: first the hex holder of the
/// colour that the key writes as a hex code (with or without `#`), then the
/// variant with that name; `None` when neither exists.
pub open spec fn lookup<C: ColourFamily>(key: Seq<char>) -> Option<C> {
    let by_hex = hex_colour(key);
    if by_hex is Some && exists|v: C| #[trigger] v.colour() == by_hex->0 && holds_hex(v) {
        Some(choose|v: C| #[trigger] v.colour() == by_hex->0 && holds_hex(v))
    } else if exists|v: C| #[trigger] v.name() == key {
        Some(choose|v: C| #[trigger] v.name() == key)
    } else {
        None
    }
}

/// What a draw of `i` selects: the variant at position `i`, or the fallback
/// when `i` is past the last position.
pub open spec fn drawn<C: ColourFamily>(i: nat) -> C {
    if i < C::count() {
        choose|v: C| #[trigger] v.position() == i
    } else {
        C::fallback()
    }
}

/// The keys registered for a variant: its name, and, when it holds its hex
/// code, every text that writes its colour as a hex code.
pub open spec fn is_key<C: ColourFamily>(v: C, key: Seq<char>) -> bool {
    key == v.name() || (holds_hex(v) && hex_colour(key) == Some(v.colour()))
}

/// Resolves a key that is already in lower case: a hex code, with or without
/// `#`, or a name.
pub fn parse_lowered<C: ColourFamily>(key: &str) -> (r: Option<C>)
    ensures
        r == lookup::<C>(key@),
{
    proof {
        C::lemma_table();
    }
    let n = C::variant_count();
    if let Ok(c) = decode(key) {
        let mut i: usize = 0;
        while i < n
            invariant
                n == C::count(),
                i <= n,
                hex_colour(key@) == Some(c),
                forall|v: C| #[trigger] v.position() < i ==> !(v.colour() == c && holds_hex(v)),
            decreases n - i,
        {
            proof {
                C::lemma_table();
            }
            let v = C::at(i);
            if v.holds_hex() && v.channels() == c {
                proof {
                    let w = choose|w: C| #[trigger] w.colour() == c && holds_hex(w);
                    assert(w.colour() == v.colour());
                }
                return Some(v);
            }
            i += 1;
        }
        assert(!exists|v: C| #[trigger] v.colour() == c && holds_hex(v)) by {
            assert forall|v: C| !(#[trigger] v.colour() == c && holds_hex(v)) by {
                assert(v.position() < n);
            }
        }
    }
    let mut i: usize = 0;
    while i < n
        invariant
            n == C::count(),
            i <= n,
            !(hex_colour(key@) is Some && exists|v: C| #[trigger] v.colour() == hex_colour(key@)->0 && holds_hex(v)),
            forall|v: C| #[trigger] v.position() < i ==> v.name() != key@,
        decreases n - i,
    {
        proof {
            C::lemma_table();
        }
        let v = C::at(i);
        if text_eq(v.name_text(), key) {
            proof {
                let w = choose|w: C| #[trigger] w.name() == key@;
                assert(w.name() == v.name());
            }
            return Some(v);
        }
        i += 1;
    }
    assert(!exists|v: C| #[trigger] v.name() == key@) by {
        assert forall|v: C| #[trigger] v.name() != key@ by {
            assert(v.position() < n);
        }
    }
    None
}

/// Resolves a colour name or hex code of any case, with or without `#`.
pub fn parse<C: ColourFamily>(name: &str) -> (r: Option<C>)
    ensures
        r == lookup::<C>(lower_of(name@)),
        is_ascii_text(name@) ==> r == lookup::<C>(ascii_lower(name@)),
{
    let lowered = lowercase(name);
    parse_lowered(lowered.as_str())
}

/// Like `parse`, with an error that repeats the input when nothing matches.
pub fn from_string<C: ColourFamily>(s: &str) -> (r: Result<C, String>)
    ensures
        match r {
            Ok(v) => lookup::<C>(lower_of(s@)) == Some(v),
            Err(e) => lookup::<C>(lower_of(s@)) is None && e@ == "Invalid Colour: "@ + s@,
        },
{
    match parse::<C>(s) {
        Some(v) => Ok(v),
        None => {
            let mut e = String::new();
            e.append("Invalid Colour: ");
            e.append(s);
            Err(e)
        },
    }
}

/// The variant that a draw of `i` selects.
pub fn pick<C: ColourFamily>(i: usize) -> (r: C)
    ensures
        r == drawn::<C>(i as nat),
        (i as nat) < C::count() ==> r.position() == i,
        C::count() <= i ==> r == C::fallback(),
{
    proof {
        C::lemma_table();
    }
    let r = C::at(i);
    proof {
        if (i as nat) < C::count() {
            let w = choose|w: C| #[trigger] w.position() == i as nat;
            assert(w.position() == r.position());
        }
    }
    r
}

/// A variant drawn with `rand`, uniformly over the positions.
pub fn random_from<C: ColourFamily>(rand: &mut Wyrand) -> (r: C)
    ensures
        exists|i: nat| i < C::count() && r == drawn::<C>(i),
{
    proof {
        C::lemma_table();
    }
    let i = draw_below(rand, C::variant_count());
    pick(i)
}

/// A variant drawn by a generator seeded from the system clock.
pub fn random<C: ColourFamily>() -> (r: C)
    ensures
        exists|i: nat| i < C::count() && r == drawn::<C>(i),
{
    let mut rand = fresh_generator();
    random_from(&mut rand)
}

/// Every variant is selected by the draw of its own position, which is in
/// range: no variant is out of reach of `random`.
pub proof fn lemma_every_variant_drawable<C: ColourFamily>(v: C)
    ensures
        v.position() < C::count(),
        drawn::<C>(v.position()) == v,
{
    C::lemma_table();
    let w = choose|w: C| #[trigger] w.position() == v.position();
    assert(w.position() == v.position());
}

/// Decoding a variant's hex triplet, with or without prefix, gives back the
/// variant's channels.
pub proof fn lemma_variant_round_trip<C: ColourFamily>(v: C, prefix: Prefix)
    ensures
        hex_colour(hex_triplet(v.colour(), prefix)) == Some(v.colour()),
{
    let c = v.colour();
    lemma_hex_round_trip(c, true, prefix == Prefix::Hash);
    assert(hex_triplet(c, prefix) == (if prefix == Prefix::Hash {
        seq!['#'] + colour_hex(c, true)
    } else {
        colour_hex(c, true)
    }));
}

/// A draw of a variant's position selects that variant; a draw past the last
/// position selects the fallback.
pub proof fn lemma_draw_selects_position<C: ColourFamily>(i: nat)
    ensures
        forall|v: C| #[trigger] v.position() == i ==> drawn::<C>(i) == v,
        C::count() <= i ==> drawn::<C>(i) == C::fallback(),
{
    assert forall|v: C| #[trigger] v.position() == i implies drawn::<C>(i) == v by {
        lemma_every_variant_drawable(v);
    }
}

/// A variant's name resolves to that variant.
pub proof fn lemma_name_resolves<C: ColourFamily>(v: C)
    ensures
        lookup::<C>(v.name()) == Some(v),
{
    C::lemma_table();
    let w = choose|w: C| #[trigger] w.name() == v.name();
    assert(w.name() == v.name());
}

/// Any text that writes a variant's colour as a hex code resolves to the hex
/// holder of that colour: one variant, whichever of the variants sharing the
/// colour the text came from.
pub proof fn lemma_hex_resolves<C: ColourFamily>(v: C, key: Seq<char>)
    requires
        hex_colour(key) == Some(v.colour()),
    ensures
        lookup::<C>(key) == Some(v.hex_holder()),
{
    C::lemma_table();
    let h = v.hex_holder();
    assert(h.colour() == v.colour() && holds_hex(h));
    let w = choose|w: C| #[trigger] w.colour() == v.colour() && holds_hex(w);
    assert(w.colour() == h.colour());
}

/// Two keys registered for the same variant resolve alike, to that variant.
pub proof fn lemma_aliases_agree<C: ColourFamily>(v: C, k1: Seq<char>, k2: Seq<char>)
    requires
        is_key(v, k1),
        is_key(v, k2),
    ensures
        lookup::<C>(k1) == Some(v),
        lookup::<C>(k1) == lookup::<C>(k2),
{
    lemma_key_resolves(v, k1);
    lemma_key_resolves(v, k2);
}

/// A key resolves to a variant exactly when it is registered for that
/// variant; a key registered for no variant resolves to nothing.
pub proof fn lemma_lookup_is_key<C: ColourFamily>(v: C, key: Seq<char>)
    ensures
        lookup::<C>(key) == Some(v) <==> is_key(v, key),
        lookup::<C>(key) is None <==> !exists|w: C| is_key(w, key),
{
    if is_key(v, key) {
        lemma_key_resolves(v, key);
    }
    if lookup::<C>(key) is Some {
        let w = lookup::<C>(key)->0;
        assert(is_key(w, key));
    } else {
        assert forall|w: C| !is_key(w, key) by {
            if is_key(w, key) {
                lemma_key_resolves(w, key);
            }
        }
    }
}

proof fn lemma_key_resolves<C: ColourFamily>(v: C, k: Seq<char>)
    requires
        is_key(v, k),
    ensures
        lookup::<C>(k) == Some(v),
{
    if k == v.name() {
        lemma_name_resolves(v);
    } else {
        lemma_hex_resolves(v, k);
    }
}

/// A name written in any ASCII case resolves, once lower-cased, to its variant.
pub proof fn lemma_name_resolves_in_any_case<C: ColourFamily>(v: C, s: Seq<char>)
    requires
        ascii_lower(s) == v.name(),
    ensures
        lookup::<C>(ascii_lower(s)) == Some(v),
{
    lemma_name_resolves(v);
}

/// A variant's hex triplet, with or without prefix, is ASCII text; lower-cased
/// it resolves to the variant's hex holder, which is the variant itself when
/// it holds its hex code.
pub proof fn lemma_rendered_hex_resolves<C: ColourFamily>(v: C, prefix: Prefix)
    ensures
        is_ascii_text(hex_triplet(v.colour(), prefix)),
        lookup::<C>(ascii_lower(hex_triplet(v.colour(), prefix))) == Some(v.hex_holder()),
        holds_hex(v) ==> lookup::<C>(ascii_lower(hex_triplet(v.colour(), prefix))) == Some(v),
{
    let c = v.colour();
    lemma_lower_hex_triplet(c, prefix);
    lemma_hex_round_trip(c, false, prefix == Prefix::Hash);
    assert(prefix_text(prefix) + colour_hex(c, false) == (if prefix == Prefix::Hash {
        seq!['#'] + colour_hex(c, false)
    } else {
        colour_hex(c, false)
    }));
    lemma_hex_resolves(v, ascii_lower(hex_triplet(c, prefix)));
}

/// A hex triplet is ASCII, and lower-casing it turns its digits to small
/// letters.
pub proof fn lemma_lower_hex_triplet(c: ColourRgb, prefix: Prefix)
    ensures
        is_ascii_text(hex_triplet(c, prefix)),
        ascii_lower(hex_triplet(c, prefix)) == prefix_text(prefix) + colour_hex(c, false),
{
    let s = hex_triplet(c, prefix);
    let t = prefix_text(prefix) + colour_hex(c, false);
    assert forall|i: int| 0 <= i < s.len() implies (#[trigger] s[i] as u32) < 128 && ascii_lower_char(s[i]) == t[i] by {
        let p = prefix_text(prefix).len() as int;
        if i >= p {
            let k = i - p;
            let d: nat = if k == 0 {
                c.red as nat / 16
            } else if k == 1 {
                c.red as nat % 16
            } else if k == 2 {
                c.green as nat / 16
            } else if k == 3 {
                c.green as nat % 16
            } else if k == 4 {
                c.blue as nat / 16
            } else {
                c.blue as nat % 16
            };
            assert(s[i] == digit_char(d, true));
            assert(t[i] == digit_char(d, false));
        }
    }
    assert(ascii_lower(s) =~= t);
}

} // verus!
