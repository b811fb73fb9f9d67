//! Small helpers on text that the rest of the library relies on.

use vstd::prelude::*;

verus! {

/// Whether two pieces of text hold exactly the same characters.
pub fn same_text(a: &str, b: &str) -> (same: bool)
    ensures
        same == (a@ == b@),
{
    let left: String = a.to_owned();
    let right: String = b.to_owned();
    left == right
}

} // verus!
