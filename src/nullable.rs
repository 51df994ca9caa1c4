use vstd::prelude::*;
use crate::decimal::{decimal, decimal_text};

verus! {

/// What is shown for a reference that may be absent.
pub open spec fn pointer_text_spec(ptr: Option<&i32>) -> Seq<char> {
    match ptr {
        Some(v) => decimal(*v as int),
        None => "Pointer is null"@,
    }
}

/// The line shown for an optional reference: the value it points to in
/// decimal, or a notice that there is none.
pub fn pointer_text(ptr: Option<&i32>) -> (r: String)
    ensures
        r@ == pointer_text_spec(ptr),
{
    match ptr {
        Some(v) => decimal_text(*v),
        None => "Pointer is null".to_string(),
    }
}

} // verus!
