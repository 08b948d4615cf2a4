//! Character plumbing: Unicode classification and case mapping, named as
//! opaque functions and reached through thin trusted wrappers, and verified
//! conversions between strings and character vectors.

use vstd::prelude::*;
use vstd::string::StrSliceExecFns;

verus! {

/// What `char::is_alphanumeric` returns for a character.
pub uninterp spec fn char_alphanumeric(c: char) -> bool;

/// What `char::is_whitespace` returns for a character.
pub uninterp spec fn char_whitespace(c: char) -> bool;

/// What `char::to_lowercase` yields for a character.
pub uninterp spec fn char_lower(c: char) -> Seq<char>;

/// Relies on char::is_alphanumeric: a Unicode classification that depends
/// on the character alone.
#[verifier::external_body]
pub(crate) fn is_alnum(c: char) -> (r: bool)
    ensures
        r == char_alphanumeric(c),
{
    c.is_alphanumeric()
}

/// Relies on char::is_whitespace: a Unicode classification that depends on
/// the character alone.
#[verifier::external_body]
pub(crate) fn is_space(c: char) -> (r: bool)
    ensures
        r == char_whitespace(c),
{
    c.is_whitespace()
}

/// Relies on char::to_lowercase: the lowercase mapping of the character
/// alone. Its documentation says a character with no lowercase mapping is
/// yielded unchanged, and the Unicode lowercase mappings are defined only
/// for cased letters, all of which are alphabetic; so a character that is
/// not alphanumeric maps to itself.
#[verifier::external_body]
pub(crate) fn lower_char(c: char) -> (r: Vec<char>)
    ensures
        r@ == char_lower(c),
        !char_alphanumeric(c) ==> r@ =~= seq![c],
{
    c.to_lowercase().collect()
}

/// Relies on String::push: appends the character to the end of the string.
#[verifier::external_body]
pub(crate) fn push_char(s: &mut String, c: char)
    ensures
        final(s)@ == old(s)@.push(c),
{
    s.push(c)
}

/// Which characters separate words when a text is split.
#[derive(Clone, Copy)]
pub enum Sep {
    /// Split on whitespace alone.
    Space,
    /// Split on whitespace and on commas.
    SpaceOrComma,
    /// Split on commas alone.
    Comma,
}

/// Whether `c` is a separator under mode `m`.
pub open spec fn spec_is_sep(m: Sep, c: char) -> bool {
    match m {
        Sep::Space => char_whitespace(c),
        Sep::SpaceOrComma => char_whitespace(c) || c == ',',
        Sep::Comma => c == ',',
    }
}

pub(crate) fn is_sep(m: Sep, c: char) -> (r: bool)
    ensures
        r == spec_is_sep(m, c),
{
    match m {
        Sep::Space => is_space(c),
        Sep::SpaceOrComma => is_space(c) || c == ',',
        Sep::Comma => c == ',',
    }
}

/// The characters of a string, in order.
pub fn chars_of_str(s: &str) -> (r: Vec<char>)
    ensures
        r@ == s@,
{
    let n = s.unicode_len();
    let mut out: Vec<char> = Vec::new();
    let mut i: usize = 0;
    while i < n
        invariant
            i <= n,
            n == s@.len(),
            out@ == s@.take(i as int),
        decreases n - i,
    {
        out.push(s.get_char(i));
        i = i + 1;
        proof {
            assert(s@.take(i as int) =~= s@.take(i - 1).push(s@[i - 1]));
        }
    }
    proof {
        assert(s@.take(n as int) =~= s@);
    }
    out
}

/// The string holding exactly the given characters, in order.
pub fn string_of_chars(v: &Vec<char>) -> (r: String)
    ensures
        r@ == v@,
{
    let mut out = String::new();
    let mut i: usize = 0;
    while i < v.len()
        invariant
            i <= v@.len(),
            out@ == v@.take(i as int),
        decreases v@.len() - i,
    {
        push_char(&mut out, v[i]);
        i = i + 1;
        proof {
            assert(v@.take(i as int) =~= v@.take(i - 1).push(v@[i - 1]));
        }
    }
    proof {
        assert(v@.take(v@.len() as int) =~= v@);
    }
    out
}

/// The characters of `v` with indices in `[lo, hi)`.
pub(crate) fn vec_range(v: &Vec<char>, lo: usize, hi: usize) -> (r: Vec<char>)
    requires
        lo <= hi <= v@.len(),
    ensures
        r@ == v@.subrange(lo as int, hi as int),
{
    let mut out: Vec<char> = Vec::new();
    let mut i: usize = lo;
    while i < hi
        invariant
            lo <= i <= hi <= v@.len(),
            out@ == v@.subrange(lo as int, i as int),
        decreases hi - i,
    {
        out.push(v[i]);
        i = i + 1;
        proof {
            assert(v@.subrange(lo as int, i as int) =~= v@.subrange(lo as int, i - 1).push(
                v@[i - 1],
            ));
        }
    }
    out
}

} // verus!
