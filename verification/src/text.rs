//! Comparing text.

use vstd::prelude::*;

verus! {

/// Whether two string slices hold the same characters.
///
/// This is `==` of `str` from the standard library, which compares the two
/// slices character by character; the contract says so over their views.
#[verifier::external_body]
pub(crate) fn same_text(left: &str, right: &str) -> (same: bool)
    ensures
        same == (left@ == right@),
{
    left == right
}

} // verus!
