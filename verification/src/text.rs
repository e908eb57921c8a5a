//! Small string utilities shared across the crate.

use vstd::prelude::*;

verus! {

/// Relies on `str`'s `PartialEq` implementation: two string slices compare
/// equal exactly when their character sequences are equal.
#[verifier::external_body]
pub fn str_eq(a: &str, b: &str) -> (r: bool)
    ensures
        r == (a@ == b@),
{
    a == b
}

} // verus!
