//! Contracts for the few pieces of the standard library that the client needs
//! and that vstd does not already specify.

use vstd::prelude::*;

verus! {

/// Relies on `str`'s `PartialEq` implementation: string slices compare equal
/// exactly when they hold the same characters.
pub assume_specification[ <str as PartialEq<str>>::eq ](a: &str, b: &str) -> (r: bool)
    ensures
        r == (a@ == b@),
;

/// Compares two string slices character by character.
pub(crate) fn str_eq(a: &str, b: &str) -> (r: bool)
    ensures
        r == (a@ == b@),
{
    a.eq(b)
}

} // verus!
