//! Text comparison.

use vstd::prelude::*;

verus! {

/// `str`'s `eq` of the standard library compares two string slices by their
/// contents: it returns `true` exactly when both hold the same characters.
pub assume_specification[ <str as PartialEq>::eq ](a: &str, b: &str) -> (equal: bool)
    ensures
        equal == (a@ == b@),
;

} // verus!
