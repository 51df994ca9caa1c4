use vstd::prelude::*;

verus! {

/// The square of `x`. The argument is evaluated once, so `square(x + 1)` is
/// `(x + 1) * (x + 1)`.
pub fn square(x: i32) -> (r: i32)
    requires
        x * x <= i32::MAX,
    ensures
        r == x * x,
{
    assert(x * x >= 0) by (nonlinear_arith);
    x * x
}

} // verus!
