use vstd::prelude::*;

verus! {

/// Returns a reference to an integer holding ten. The integer is a constant,
/// so the reference outlives any caller's frame; a reference to a local would
/// dangle and is rejected by the borrow checker.
pub fn create_int<'a>() -> (r: &'a i32)
    ensures
        *r == 10,
{
    &10
}

} // verus!
