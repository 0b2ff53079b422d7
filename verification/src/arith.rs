//! Rust's truncating division and remainder, stated over the integers.
use vstd::prelude::*;

verus! {

/// Rust's `/` on signed integers with a positive divisor: rounds towards zero.
pub open spec fn trunc_div(a: int, b: int) -> int {
    if a >= 0 {
        a / b
    } else {
        -((-a) / b)
    }
}

/// Rust's `%` on signed integers with a positive divisor: the sign follows the dividend.
pub open spec fn trunc_rem(a: int, b: int) -> int {
    if a >= 0 {
        a % b
    } else {
        -((-a) % b)
    }
}


/// Rust's remainder by a positive divisor is smaller than the divisor in size.
pub proof fn lemma_trunc_rem_bounds(a: int, b: int)
    requires
        b > 0,
    ensures
        -b < trunc_rem(a, b) < b,
{
}

} // verus!
