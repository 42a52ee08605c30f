//! Normalization of a user-typed ticker symbol into the provider's form:
//! raised to upper case, surrounding whitespace stripped, and the market
//! suffix appended. Case mapping and the whitespace property are Unicode's,
//! through std; both enter the contracts as named results.

use vstd::prelude::*;
use vstd::string::*;

verus! {

/// What `str::to_uppercase` returns: the Unicode upper-case mapping of the
/// character sequence, a function of the characters alone. Stating the full
/// mapping is out of the question; the name pins that equal inputs give
/// equal results, and the wrapper below states the ASCII part beside it.
pub uninterp spec fn upper_of(s: Seq<char>) -> Seq<char>;

/// What `char::is_whitespace` returns: whether the character has the Unicode
/// White_Space property.
pub uninterp spec fn is_unicode_space(c: char) -> bool;

/// An ASCII character raised to upper case: the lower-case ASCII letters
/// move to their upper-case partners, every other character is kept.
pub open spec fn ascii_upper(c: char) -> char {
    if 'a' as u32 <= c as u32 && c as u32 <= 'z' as u32 {
        ((c as u32 - 32) as u8) as char
    } else {
        c
    }
}

/// Whether a character is ASCII and carries the White_Space property: the
/// space and the five controls, tab through carriage return.
pub open spec fn ascii_space(c: char) -> bool {
    c as u32 == 32 || (9 <= c as u32 && c as u32 <= 13)
}

/// Relies on str::to_uppercase: the Unicode upper-case mapping, depending on
/// the characters alone. Its documentation gives the ASCII part in full:
/// on an all-ASCII input the length is kept, lower-case letters move to
/// their upper-case partners and every other character stays.
#[verifier::external_body]
fn to_upper(s: &str) -> (r: String)
    ensures
        r@ == upper_of(s@),
        (forall|i: int| 0 <= i < s@.len() ==> (s@[i] as u32) < 128) ==> (r@.len() == s@.len()
            && (forall|i: int| 0 <= i < r@.len() ==> r@[i] == ascii_upper(s@[i]))),
{
    s.to_uppercase()
}

/// Relies on char::is_whitespace: the Unicode White_Space property, whose
/// ASCII members are exactly the space and tab through carriage return.
#[verifier::external_body]
fn space_char(c: char) -> (r: bool)
    ensures
        r == is_unicode_space(c),
        ascii_space(c) ==> r,
        (c as u32) < 128 && !ascii_space(c) ==> !r,
{
    c.is_whitespace()
}

/// The sequence with its leading whitespace removed.
pub open spec fn trim_front(s: Seq<char>) -> Seq<char>
    decreases s.len(),
{
    if s.len() > 0 && is_unicode_space(s[0]) {
        trim_front(s.drop_first())
    } else {
        s
    }
}

/// The sequence with its trailing whitespace removed.
pub open spec fn trim_back(s: Seq<char>) -> Seq<char>
    decreases s.len(),
{
    if s.len() > 0 && is_unicode_space(s.last()) {
        trim_back(s.drop_last())
    } else {
        s
    }
}

/// The sequence with whitespace removed from both ends.
pub open spec fn trimmed(s: Seq<char>) -> Seq<char> {
    trim_back(trim_front(s))
}

/// A symbol in the provider's form: raised to upper case, then trimmed, then
/// carrying the market suffix.
pub open spec fn normalized(s: Seq<char>) -> Seq<char> {
    trimmed(upper_of(s)) + seq!['.', 'S', 'A']
}

/// Whether the character at one position of the symbol is whitespace.
fn space_at(s: &str, i: usize) -> (r: bool)
    requires
        i < s@.len(),
    ensures
        r == is_unicode_space(s@[i as int]),
{
    let c = s.get_char(i);
    space_char(c)
}

/// Normalize a user-typed symbol: raise it to upper case, strip surrounding
/// whitespace, append the market suffix.
pub fn normalize_ticker(t: &str) -> (r: String)
    ensures
        r@ == normalized(t@),
{
    let upper = to_upper(t);
    let s = upper.as_str();
    let n = s.unicode_len();
    proof {
        assert(s@.skip(0) =~= s@);
    }
    let mut a: usize = 0;
    while a < n && space_at(s, a)
        invariant
            a <= n,
            n == s@.len(),
            trim_front(s@) == trim_front(s@.skip(a as int)),
        decreases n - a,
    {
        proof {
            assert(s@.skip(a as int)[0] == s@[a as int]);
            assert(s@.skip(a as int).drop_first() =~= s@.skip(a + 1));
        }
        a = a + 1;
    }
    proof {
        if a < n {
            assert(s@.skip(a as int)[0] == s@[a as int]);
        }
        assert(trim_front(s@.skip(a as int)) == s@.skip(a as int));
        assert(s@.subrange(a as int, n as int) =~= s@.skip(a as int));
    }
    let mut b: usize = n;
    while b > a && space_at(s, b - 1)
        invariant
            a <= b <= n,
            n == s@.len(),
            trim_front(s@) == s@.skip(a as int),
            trim_back(s@.skip(a as int)) == trim_back(s@.subrange(a as int, b as int)),
        decreases b,
    {
        proof {
            assert(s@.subrange(a as int, b as int).last() == s@[b - 1]);
            assert(s@.subrange(a as int, b as int).drop_last() =~= s@.subrange(a as int, b - 1));
        }
        b = b - 1;
    }
    proof {
        if b > a {
            assert(s@.subrange(a as int, b as int).last() == s@[b - 1]);
        }
        assert(trim_back(s@.subrange(a as int, b as int)) == s@.subrange(a as int, b as int));
        assert(trimmed(s@) == s@.subrange(a as int, b as int));
    }
    let core = s.substring_char(a, b);
    let mut r = String::from_str(core);
    r.append(".SA");
    proof {
        reveal_strlit(".SA");
        assert(".SA"@ =~= seq!['.', 'S', 'A']);
    }
    r
}

} // verus!
