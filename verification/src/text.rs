//! Small string helpers shared by the other modules.

use vstd::prelude::*;

verus! {

/// The text of an optional string, for use in contracts.
pub open spec fn text_of(s: Option<String>) -> Option<Seq<char>> {
    match s {
        Some(t) => Some(t@),
        None => None,
    }
}

/// The upper-case form of a text under Unicode's case mapping, which is what
/// `str::to_uppercase` computes. The mapping fills tables and is not written
/// out here; contracts refer to it by this name.
pub uninterp spec fn uppercase(s: Seq<char>) -> Seq<char>;

/// Calls `str::to_uppercase`. Trusted: the result is the Unicode upper-case
/// form of `s`, a function of the characters of `s` alone.
#[verifier::external_body]
pub(crate) fn to_uppercase(s: &str) -> (upper: String)
    ensures
        upper@ == uppercase(s@),
{
    s.to_uppercase()
}

/// Whether the character `c` occurs in `s`.
pub fn contains_char(s: &str, c: char) -> (found: bool)
    ensures
        found == s@.contains(c),
{
    let mut found = false;
    for x in it: s.chars()
        invariant
            it.seq() == s@,
            found == exists|i: int| 0 <= i < it.index() && s@[i] == c,
    {
        if x == c {
            found = true;
        }
    }
    found
}

} // verus!
