//! Text operations that the standard library provides.

use vstd::prelude::*;

verus! {

/// The text `text` without the white space at its two ends, as `str::trim`
/// of the standard library returns it.
pub uninterp spec fn trimmed(text: Seq<char>) -> Seq<char>;

/// The text `text` in upper case, as `str::to_uppercase` of the standard
/// library returns it.
pub uninterp spec fn uppercased(text: Seq<char>) -> Seq<char>;

/// Calls `str::trim`. Nothing is proved of it: the result is taken to
/// depend on the characters of `text` alone, and is known as
/// [`trimmed`] of them.
#[verifier::external_body]
pub(crate) fn trim(text: &str) -> (inner: &str)
    ensures
        inner@ == trimmed(text@),
{
    text.trim()
}

/// Calls `str::to_uppercase`. Nothing is proved of it: the result is taken
/// to depend on the characters of `text` alone, and is known as
/// [`uppercased`] of them.
#[verifier::external_body]
pub(crate) fn to_uppercase(text: &str) -> (upper: String)
    ensures
        upper@ == uppercased(text@),
{
    text.to_uppercase()
}

} // verus!
