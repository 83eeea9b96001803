//! Comparison and splitting of string slices.

use vstd::prelude::*;

verus! {

/// Whether two string slices hold the same characters: `==` of `str`.
#[verifier::external_body]
pub(crate) fn str_eq(a: &str, b: &str) -> (r: bool)
    ensures
        r == (a@ == b@),
{
    a == b
}

/// Splits a string slice at its first hyphen: `str::split_once`.
///
/// Where the slice holds a hyphen, the result is the part before the first
/// one, which holds none, and the part behind it; else there is no result.
#[verifier::external_body]
pub(crate) fn split_once_hyphen<'a>(s: &'a str) -> (r: Option<(&'a str, &'a str)>)
    ensures
        match r {
            Some((head, tail)) => s@ == head@ + seq!['-'] + tail@ && !head@.contains('-'),
            None => !s@.contains('-'),
        },
{
    s.split_once('-')
}

} // verus!
