//! Verified comparison of string slices, used to test discriminator
//! fields against the literals the dispatch table knows.

use vstd::prelude::*;

verus! {

/// Two string slices are equal exactly when their characters are.
pub fn str_eq(a: &str, b: &str) -> (r: bool)
    ensures
        r == (a@ == b@),
{
    let x: String = a.to_owned();
    let y: String = b.to_owned();
    x == y
}

} // verus!
