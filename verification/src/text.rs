//! Comparing texts.

use vstd::prelude::*;

verus! {

/// `==` on `str`: two texts are equal where their characters are.
pub assume_specification[ <str as PartialEq>::eq ](first: &str, second: &str) -> (same: bool)
    ensures
        same == (first@ == second@),
;

/// Whether two texts are made of the same characters.
pub fn same_text(first: &str, second: &str) -> (same: bool)
    ensures
        same == (first@ == second@),
{
    first.eq(second)
}

} // verus!
