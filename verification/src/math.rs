//! Integer arithmetic shared by the contracts: division that rounds toward
//! zero, and sums and differences that stay inside `i128`.

use vstd::prelude::*;

verus! {

/// `a / b` rounded toward zero, for a positive divisor.
pub open spec fn div_toward_zero(a: int, b: int) -> int
    recommends
        b > 0,
{
    if a >= 0 {
        a / b
    } else {
        -((-a) / b)
    }
}

/// The value of `i128` nearest to `v`.
pub open spec fn clamp_i128(v: int) -> int {
    if v > i128::MAX {
        i128::MAX as int
    } else if v < i128::MIN {
        i128::MIN as int
    } else {
        v
    }
}

/// Whether `v` can be held in an `i128`.
pub open spec fn fits_i128(v: int) -> bool {
    i128::MIN <= v <= i128::MAX
}

/// The magnitude of `v`.
pub open spec fn magnitude(v: int) -> int {
    if v >= 0 {
        v
    } else {
        -v
    }
}

/// `a + b`, held at the nearest end of `i128` where the sum leaves it.
pub fn saturating_add_i128(a: i128, b: i128) -> (r: i128)
    ensures
        r == clamp_i128(a + b),
{
    match a.checked_add(b) {
        Some(v) => v,
        None => {
            if b > 0 {
                i128::MAX
            } else {
                i128::MIN
            }
        },
    }
}

/// `a - b`, held at the nearest end of `i128` where the difference leaves it.
pub fn saturating_sub_i128(a: i128, b: i128) -> (r: i128)
    ensures
        r == clamp_i128(a - b),
{
    match a.checked_sub(b) {
        Some(v) => v,
        None => {
            if b > 0 {
                i128::MIN
            } else {
                i128::MAX
            }
        },
    }
}

/// A division by a positive divisor rounds a non-negative dividend down, so
/// the quotient times the divisor never exceeds the dividend.
pub proof fn lemma_div_toward_zero_bounds(a: int, b: int)
    requires
        a >= 0,
        b > 0,
    ensures
        0 <= div_toward_zero(a, b) <= a,
        div_toward_zero(a, b) * b <= a < (div_toward_zero(a, b) + 1) * b,
{
    vstd::arithmetic::div_mod::lemma_fundamental_div_mod(a, b);
    vstd::arithmetic::div_mod::lemma_div_pos_is_pos(a, b);
    vstd::arithmetic::div_mod::lemma_mod_bound(a, b);
    assert(a == b * (a / b) + a % b);
    assert(b * (a / b) == (a / b) * b) by (nonlinear_arith);
    assert((a / b + 1) * b == (a / b) * b + b) by (nonlinear_arith);
    assert(a / b <= a) by (nonlinear_arith)
        requires
            a == (a / b) * b + a % b,
            0 <= a % b,
            b >= 1,
            a / b >= 0,
    ;
}

} // verus!

