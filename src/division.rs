use vstd::prelude::*;

verus! {

/// Quotient of `a` by `b` rounded toward zero, as Rust's `/` computes it on
/// signed integers.
pub open spec fn truncated_quotient(a: int, b: int) -> int {
    let q: int = (magnitude(a) / magnitude(b)) as int;
    if (a >= 0) == (b >= 0) {
        q
    } else {
        -q
    }
}

/// Absolute value.
pub open spec fn magnitude(x: int) -> nat {
    if x >= 0 {
        x as nat
    } else {
        (-x) as nat
    }
}

/// The quotient never exceeds the dividend in magnitude, so it fits the
/// dividend's type except for the one case of the most negative value divided
/// by minus one.
pub proof fn lemma_quotient_bounds(a: int, b: int)
    requires
        b != 0,
    ensures
        magnitude(truncated_quotient(a, b)) <= magnitude(a),
        magnitude(a) > 0 && magnitude(b) > 1 ==> magnitude(truncated_quotient(a, b)) < magnitude(a),
        a >= 0 && b > 0 ==> truncated_quotient(a, b) == a / b,
        a < 0 && b < 0 ==> truncated_quotient(a, b) == (a * -1) / (b * -1),
        a < 0 && b > 0 ==> truncated_quotient(a, b) == ((a * -1) / b) * -1,
        a >= 0 && b < 0 ==> truncated_quotient(a, b) == (a / (b * -1)) * -1,
{
    let m = magnitude(a) as int;
    let n = magnitude(b) as int;
    assert(m / n <= m) by (nonlinear_arith)
        requires
            m >= 0,
            n >= 1,
    ;
    assert(m > 0 && n > 1 ==> m / n < m) by (nonlinear_arith)
        requires
            m >= 0,
            n >= 1,
    ;
    assert(m / n >= 0) by (nonlinear_arith)
        requires
            m >= 0,
            n >= 1,
    ;
}

/// Divides `a` by `b`, reporting a zero divisor as an error message.
pub fn divide(a: i32, b: i32) -> (r: Result<i32, String>)
    requires
        !(a == i32::MIN && b == -1),
    ensures
        b == 0 ==> (r matches Err(e) && e@ == "Division by zero!"@),
        b != 0 ==> (r matches Ok(q) && q as int == truncated_quotient(a as int, b as int)),
{
    if b == 0 {
        Err("Division by zero!".to_string())
    } else {
        proof {
            lemma_quotient_bounds(a as int, b as int);
        }
        match a.checked_div(b) {
            Some(q) => Ok(q),
            // Unreachable: the divisor is nonzero and the quotient fits.
            None => Err("Division by zero!".to_string()),
        }
    }
}

} // verus!
