//! The operations on text that the heuristics need and that the standard
//! library provides.

use vstd::prelude::*;

verus! {

/// Whether `needle` occurs in `haystack` as a run of consecutive characters.
pub open spec fn is_substring(needle: Seq<char>, haystack: Seq<char>) -> bool {
    exists|start: int|
        0 <= start <= haystack.len() - needle.len() && #[trigger] haystack.subrange(
            start,
            start + needle.len(),
        ) == needle
}

/// The lowercase equivalent of `text` as `str::to_lowercase` gives it, by the
/// rules of Unicode.
pub uninterp spec fn lowercase(text: Seq<char>) -> Seq<char>;

/// Compares two string slices with `==` (`str`'s `PartialEq::eq`).
///
/// Trusted: two string slices are equal exactly when they hold the same
/// characters in the same order.
#[verifier::external_body]
pub(crate) fn str_eq(a: &str, b: &str) -> (same: bool)
    ensures
        same == (a@ == b@),
{
    a == b
}

/// Calls `str::to_lowercase`.
///
/// Trusted: the result depends on the characters of `text` alone; it is
/// named [`lowercase`] and nothing more is said of it.
#[verifier::external_body]
pub(crate) fn to_lowercase(text: &str) -> (lowered: String)
    ensures
        lowered@ == lowercase(text@),
{
    text.to_lowercase()
}

/// Calls `str::contains` with a string slice as the pattern.
///
/// Trusted: the result is `true` exactly when the pattern matches a
/// sub-slice of `haystack`.
#[verifier::external_body]
pub(crate) fn str_contains(haystack: &str, needle: &str) -> (found: bool)
    ensures
        found == is_substring(needle@, haystack@),
{
    haystack.contains(needle)
}

} // verus!
