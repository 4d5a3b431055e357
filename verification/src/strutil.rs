use vstd::prelude::*;

verus! {

/// Equality of two string slices, specified over their character views.
pub fn str_eq(a: &str, b: &str) -> (r: bool)
    ensures
        r == (a@ == b@),
{
    let a_string: String = a.to_owned();
    let b_string: String = b.to_owned();
    a_string == b_string
}

} // verus!
