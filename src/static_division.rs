use vstd::prelude::*;
use crate::division::{lemma_quotient_bounds, truncated_quotient};

verus! {

/// Divides `a` by `b`, reporting a zero divisor with a message that lives for
/// the whole program.
pub fn divide(a: i32, b: i32) -> (r: Result<i32, &'static str>)
    requires
        !(a == i32::MIN && b == -1),
    ensures
        b == 0 ==> (r matches Err(e) && e@ == "Division by zero!"@),
        b != 0 ==> (r matches Ok(q) && q as int == truncated_quotient(a as int, b as int)),
{
    if b == 0 {
        return Err("Division by zero!");
    }
    proof {
        lemma_quotient_bounds(a as int, b as int);
    }
    match a.checked_div(b) {
        Some(q) => Ok(q),
        // Unreachable: the divisor is nonzero and the quotient fits.
        None => Err("Division by zero!"),
    }
}

} // verus!
