//! Small verified string helpers: character-wise equality and ASCII
//! lower-casing, used by the card representations.

use vstd::prelude::*;
use vstd::string::StrSliceExecFns;

verus! {

/// The ASCII-lowered form of one character: 'A'..'Z' map to their lower-case
/// counterparts, every other character is unchanged.
pub open spec fn lower_char(c: char) -> char {
    if 'A' <= c && c <= 'Z' {
        ((c as u8) + 32) as u8 as char
    } else {
        c
    }
}

/// The ASCII-lowered form of a sequence of characters.
pub open spec fn lower_seq(s: Seq<char>) -> Seq<char> {
    Seq::new(s.len(), |i: int| lower_char(s[i]))
}

/// Relies on `String::push`: appends the given character at the end of the
/// string and changes nothing else.
#[verifier::external_body]
pub(crate) fn push_char(s: &mut String, c: char)
    ensures
        final(s)@ == old(s)@.push(c),
{
    s.push(c);
}

/// Character-for-character equality of two string slices.
pub fn str_eq(a: &str, b: &str) -> (r: bool)
    ensures
        r == (a@ == b@),
{
    let alen = a.unicode_len();
    let blen = b.unicode_len();
    if alen != blen {
        return false;
    }
    let mut i: usize = 0;
    while i < alen
        invariant
            alen == a@.len(),
            alen == b@.len(),
            i <= alen,
            forall|j: int| 0 <= j < i ==> a@[j] == b@[j],
        decreases alen - i,
    {
        if a.get_char(i) != b.get_char(i) {
            return false;
        }
        i += 1;
    }
    proof {
        assert(a@ =~= b@);
    }
    true
}

/// Lower-case a string slice character by character, in the ASCII sense.
/// Suit names are ASCII words, for which this agrees with full Unicode
/// lower-casing.
pub fn to_ascii_lower(s: &str) -> (r: String)
    ensures
        r@ == lower_seq(s@),
{
    let len = s.unicode_len();
    let mut r = String::new();
    let mut i: usize = 0;
    while i < len
        invariant
            len == s@.len(),
            i <= len,
            r@ == lower_seq(s@).subrange(0, i as int),
        decreases len - i,
    {
        let c = s.get_char(i);
        let lc: char = if 'A' <= c && c <= 'Z' {
            ((c as u8) + 32) as char
        } else {
            c
        };
        push_char(&mut r, lc);
        proof {
            assert(lc == lower_char(s@[i as int]));
            assert(r@ =~= lower_seq(s@).subrange(0, i + 1));
        }
        i += 1;
    }
    proof {
        assert(r@ =~= lower_seq(s@));
    }
    r
}

} // verus!
