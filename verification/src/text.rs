//! Comparison of string slices by their characters.

use vstd::prelude::*;

verus! {

/// `str`'s own `==`: two slices are equal exactly when they hold the same
/// characters in the same order.
#[verifier::external_body]
pub(crate) fn str_eq(a: &str, b: &str) -> (r: bool)
    ensures
        r == (a@ == b@),
{
    a == b
}

} // verus!
