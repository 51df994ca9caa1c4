use vstd::prelude::*;

verus! {

/// The value handed out when one is available.
pub const AVAILABLE_VALUE: i32 = 10;

/// Returns a value only when asked for a valid one; absence is `None`, never a
/// sentinel.
pub fn get_value(valid: bool) -> (r: Option<i32>)
    ensures
        r == (if valid { Some(AVAILABLE_VALUE) } else { None::<i32> }),
{
    if valid {
        Some(AVAILABLE_VALUE)
    } else {
        None
    }
}

} // verus!
