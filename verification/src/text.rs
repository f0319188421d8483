//! Text comparison used by the name tables.

use vstd::prelude::*;

verus! {

/// Calls `<str as PartialEq>::eq`; trusted to return whether the two strings
/// hold the same characters.
#[verifier::external_body]
pub fn str_eq(a: &str, b: &str) -> (r: bool)
    ensures
        r == (a@ == b@),
{
    a == b
}

} // verus!
