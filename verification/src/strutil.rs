//! Small verified string helpers shared by the shell's modules.

use vstd::prelude::*;

verus! {

/// String-slice equality, specified over the character sequences of the two
/// slices.
pub fn str_eq(a: &str, b: &str) -> (r: bool)
    ensures
        r == (a@ == b@),
{
    let sa: String = a.to_owned();
    let sb: String = b.to_owned();
    sa == sb
}

} // verus!
