//! Character-level helpers: ASCII case mapping, text comparison and the
//! digit glyphs used when rendering colours.

use vstd::prelude::*;

verus! {

/// Lower-case form of a single ASCII letter; every other character is kept.
pub open spec fn ascii_lower_char(c: char) -> char {
    if 'A' <= c && c <= 'Z' {
        ((c as u32) + 32) as char
    } else {
        c
    }
}

/// `s` with every ASCII capital letter replaced by its small letter.
pub open spec fn ascii_lower(s: Seq<char>) -> Seq<char> {
    Seq::new(s.len(), |i: int| ascii_lower_char(s[i]))
}

/// Every character of `s` is ASCII.
pub open spec fn is_ascii_text(s: Seq<char>) -> bool {
    forall|i: int| 0 <= i < s.len() ==> (#[trigger] s[i] as u32) < 128
}

/// What `str::to_lowercase` returns for `s`.
pub uninterp spec fn lower_of(s: Seq<char>) -> Seq<char>;

/// Relies on `str::to_lowercase`: the result depends on the characters of `s`
/// alone, and on ASCII text the Unicode lower-case mapping sends `A`..=`Z` to
/// `a`..=`z` and keeps every other character.
#[verifier::external_body]
pub(crate) fn lowercase(s: &str) -> (r: String)
    ensures
        r@ == lower_of(s@),
        is_ascii_text(s@) ==> r@ == ascii_lower(s@),
{
    s.to_lowercase()
}

/// Whether `s`, read from character `start` on, is exactly `t`.
pub fn text_from_eq(s: &str, start: usize, t: &str) -> (r: bool)
    ensures
        r == (start <= s@.len() && s@.subrange(start as int, s@.len() as int) == t@),
{
    let n = s.unicode_len();
    let m = t.unicode_len();
    if start > n || n - start != m {
        proof {
            if start <= s@.len() {
                assert(s@.subrange(start as int, s@.len() as int).len() != t@.len());
            }
        }
        return false;
    }
    let mut i: usize = 0;
    while i < m
        invariant
            n == s@.len(),
            m == t@.len(),
            start + m == n,
            i <= m,
            forall|j: int| 0 <= j < i ==> s@[start + j] == t@[j],
        decreases m - i,
    {
        if s.get_char(start + i) != t.get_char(i) {
            proof {
                assert(s@.subrange(start as int, s@.len() as int)[i as int] != t@[i as int]);
            }
            return false;
        }
        i += 1;
    }
    assert(s@.subrange(start as int, s@.len() as int) =~= t@);
    true
}

/// Whether the two texts are equal.
pub fn text_eq(s: &str, t: &str) -> (r: bool)
    ensures
        r == (s@ == t@),
{
    let r = text_from_eq(s, 0, t);
    assert(s@.subrange(0, s@.len() as int) =~= s@);
    r
}

/// The character that writes the digit `d` in base 16; letters are capitals
/// when `upper` holds. Digits below ten are the decimal digits.
pub open spec fn digit_char(d: nat, upper: bool) -> char {
    if d < 10 {
        (('0' as u32) + d) as char
    } else if upper {
        (('A' as u32) + d - 10) as char
    } else {
        (('a' as u32) + d - 10) as char
    }
}

/// The one-character text that writes the digit `d`.
pub fn digit_text(d: u8, upper: bool) -> (r: &'static str)
    requires
        d < 16,
    ensures
        r@ == seq![digit_char(d as nat, upper)],
{
    proof {
        reveal_strlit("0");
        reveal_strlit("1");
        reveal_strlit("2");
        reveal_strlit("3");
        reveal_strlit("4");
        reveal_strlit("5");
        reveal_strlit("6");
        reveal_strlit("7");
        reveal_strlit("8");
        reveal_strlit("9");
        reveal_strlit("A");
        reveal_strlit("B");
        reveal_strlit("C");
        reveal_strlit("D");
        reveal_strlit("E");
        reveal_strlit("F");
        reveal_strlit("a");
        reveal_strlit("b");
        reveal_strlit("c");
        reveal_strlit("d");
        reveal_strlit("e");
        reveal_strlit("f");
    }
    let r = match d {
        0 => "0",
        1 => "1",
        2 => "2",
        3 => "3",
        4 => "4",
        5 => "5",
        6 => "6",
        7 => "7",
        8 => "8",
        9 => "9",
        10 => if upper { "A" } else { "a" },
        11 => if upper { "B" } else { "b" },
        12 => if upper { "C" } else { "c" },
        13 => if upper { "D" } else { "d" },
        14 => if upper { "E" } else { "e" },
        _ => if upper { "F" } else { "f" },
    };
    assert(r@ =~= seq![digit_char(d as nat, upper)]);
    r
}

/// The decimal numeral of `n`, without leading zeros.
pub open spec fn decimal_text(n: nat) -> Seq<char>
    decreases n,
{
    if n < 10 {
        seq![digit_char(n, false)]
    } else {
        decimal_text(n / 10) + seq![digit_char(n % 10, false)]
    }
}

/// Appends the decimal numeral of `n` to `out`.
pub fn push_decimal(out: &mut String, n: u8)
    ensures
        final(out)@ == old(out)@ + decimal_text(n as nat),
{
    if n >= 100 {
        out.append(digit_text(n / 100, false));
    }
    if n >= 10 {
        out.append(digit_text((n / 10) % 10, false));
    }
    out.append(digit_text(n % 10, false));
    proof {
        let k = n as nat;
        if k >= 100 {
            assert(decimal_text(k / 10) == decimal_text(k / 100) + seq![digit_char((k / 10) % 10, false)]);
        }
        if k >= 10 {
            assert(decimal_text(k) == decimal_text(k / 10) + seq![digit_char(k % 10, false)]);
        }
    }
    assert(out@ =~= old(out)@ + decimal_text(n as nat));
}

} // verus!
