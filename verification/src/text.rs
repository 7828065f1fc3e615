//! String comparison for type tags and enumeration tokens.

use vstd::prelude::*;

verus! {

/// Whether two strings hold the same characters: the exact, case-sensitive
/// comparison every tag dispatch and enumeration parser is built on.
pub fn str_eq(a: &str, b: &str) -> (r: bool)
    ensures
        r == (a@ == b@),
{
    let owned_a: String = a.to_owned();
    let owned_b: String = b.to_owned();
    owned_a == owned_b
}

} // verus!
