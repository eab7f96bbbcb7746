//! Text comparisons that the rules need, stated over the characters of a string.

use vstd::prelude::*;

verus! {

/// `needle` occurs in `haystack` as a run of consecutive characters.
pub open spec fn contains_text(haystack: Seq<char>, needle: Seq<char>) -> bool {
    exists|i: int|
        0 <= i && i + needle.len() <= haystack.len() && #[trigger] haystack.subrange(
            i,
            i + needle.len(),
        ) == needle
}

/// Wraps std's `str == str`: true exactly when the two strings hold the same
/// characters.
#[verifier::external_body]
pub(crate) fn text_eq(a: &str, b: &str) -> (r: bool)
    ensures
        r == (a@ == b@),
{
    a == b
}

/// Wraps std's `str::contains` with a string pattern: true exactly when
/// `needle` is a substring of `haystack` (the empty string is a substring of
/// every string). UTF-8 is self-synchronising, so a match of the bytes is a
/// match of the characters.
#[verifier::external_body]
pub(crate) fn text_contains(haystack: &str, needle: &str) -> (r: bool)
    ensures
        r == contains_text(haystack@, needle@),
{
    haystack.contains(needle)
}

} // verus!
