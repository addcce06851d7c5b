use vstd::prelude::*;

verus! {

/// `x` is representable as an `i128`.
pub open spec fn fits_i128(x: int) -> bool {
    i128::MIN <= x <= i128::MAX
}

/// Integer division that rounds toward zero, as `/` does on Rust's signed
/// integers.
pub open spec fn div_toward_zero(x: int, d: int) -> int {
    if x == 0 {
        0
    } else if x > 0 && d > 0 {
        x / d
    } else if x < 0 && d < 0 {
        (x * -1) / (d * -1)
    } else if x < 0 {
        ((x * -1) / d) * -1
    } else {
        (x / (d * -1)) * -1
    }
}

/// `a * b / d` computed with overflow-checked `i128` operations: `None` when
/// the product or the quotient leaves the `i128` range, or when `d` is zero.
pub open spec fn checked_mul_div(a: i128, b: i128, d: i128) -> Option<i128> {
    let p = a * b;
    if !fits_i128(p) || d == 0 || !fits_i128(div_toward_zero(p, d as int)) {
        None
    } else {
        Some(div_toward_zero(p, d as int) as i128)
    }
}

/// Computes `a * b / d` with checked multiplication and checked division.
pub fn mul_div(a: i128, b: i128, d: i128) -> (r: Option<i128>)
    ensures
        r == checked_mul_div(a, b, d),
{
    match a.checked_mul(b) {
        Some(p) => p.checked_div(d),
        None => None,
    }
}

/// `a - b` clamped to the `i128` range.
pub open spec fn saturating_diff(a: i128, b: i128) -> i128 {
    if a - b > i128::MAX {
        i128::MAX
    } else if a - b < i128::MIN {
        i128::MIN
    } else {
        (a - b) as i128
    }
}

/// Subtraction that saturates at the bounds of `i128`.
pub fn saturating_sub(a: i128, b: i128) -> (r: i128)
    ensures
        r == saturating_diff(a, b),
{
    match a.checked_sub(b) {
        Some(v) => v,
        None => {
            if b < 0 {
                i128::MAX
            } else {
                i128::MIN
            }
        },
    }
}

} // verus!
