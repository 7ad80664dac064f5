//! Checked fixed-width arithmetic and the integer square root.
//!
//! These are the only primitives the quote algorithms build on. No operation
//! here wraps silently: each one either returns the exact mathematical result
//! or a typed error.

use vstd::prelude::*;

use crate::errors::BondingCurveError;

verus! {

/// `a + b`, or `ArithmeticOverflow` when the sum does not fit in a `u64`.
pub fn checked_add(a: u64, b: u64) -> (r: Result<u64, BondingCurveError>)
    ensures
        a + b <= u64::MAX ==> r == Ok::<u64, BondingCurveError>((a + b) as u64),
        a + b > u64::MAX ==> r == Err::<u64, BondingCurveError>(
            BondingCurveError::ArithmeticOverflow,
        ),
{
    match a.checked_add(b) {
        Some(v) => Ok(v),
        None => Err(BondingCurveError::ArithmeticOverflow),
    }
}

/// `a * b`, or `ArithmeticOverflow` when the product does not fit in a `u64`.
pub fn checked_mul(a: u64, b: u64) -> (r: Result<u64, BondingCurveError>)
    ensures
        a * b <= u64::MAX ==> r == Ok::<u64, BondingCurveError>((a * b) as u64),
        a * b > u64::MAX ==> r == Err::<u64, BondingCurveError>(
            BondingCurveError::ArithmeticOverflow,
        ),
{
    match a.checked_mul(b) {
        Some(v) => Ok(v),
        None => Err(BondingCurveError::ArithmeticOverflow),
    }
}

/// `a - b`, or `ArithmeticUnderflow` when the difference would be negative.
pub fn checked_sub(a: u64, b: u64) -> (r: Result<u64, BondingCurveError>)
    ensures
        a >= b ==> r == Ok::<u64, BondingCurveError>((a - b) as u64),
        a < b ==> r == Err::<u64, BondingCurveError>(BondingCurveError::ArithmeticUnderflow),
{
    match a.checked_sub(b) {
        Some(v) => Ok(v),
        None => Err(BondingCurveError::ArithmeticUnderflow),
    }
}

/// `a / b` with floor division, or `DivideByZero` when `b == 0`.
pub fn checked_div(a: u64, b: u64) -> (r: Result<u64, BondingCurveError>)
    ensures
        b > 0 ==> r == Ok::<u64, BondingCurveError>((a as int / b as int) as u64),
        b == 0 ==> r == Err::<u64, BondingCurveError>(BondingCurveError::DivideByZero),
{
    if b == 0 {
        Err(BondingCurveError::DivideByZero)
    } else {
        Ok(a / b)
    }
}

/// `floor(sqrt(n))` as a mathematical function: walking up from `0`, the
/// root grows by one exactly when the next square still fits under `n`.
pub open spec fn spec_sqrt(n: int) -> int
    decreases n,
{
    if n <= 0 {
        0
    } else {
        let r = spec_sqrt(n - 1);
        if (r + 1) * (r + 1) <= n {
            r + 1
        } else {
            r
        }
    }
}

/// `spec_sqrt(n)` is the floor of the square root: its square is at most `n`
/// and the next square is beyond `n`.
pub proof fn lemma_sqrt_bounds(n: int)
    requires
        n >= 0,
    ensures
        spec_sqrt(n) >= 0,
        spec_sqrt(n) * spec_sqrt(n) <= n,
        n < (spec_sqrt(n) + 1) * (spec_sqrt(n) + 1),
    decreases n,
{
    if n > 0 {
        lemma_sqrt_bounds(n - 1);
        let r = spec_sqrt(n - 1);
        if (r + 1) * (r + 1) <= n {
            assert(spec_sqrt(n) == r + 1);
            assert(n < (r + 2) * (r + 2)) by (nonlinear_arith)
                requires
                    n <= (r + 1) * (r + 1),
                    r >= 0,
            ;
        } else {
            assert(spec_sqrt(n) == r);
        }
    }
}

/// Any `r` squeezed between the same two squares equals `spec_sqrt(n)`.
pub proof fn lemma_sqrt_unique(n: int, r: int)
    requires
        0 <= r,
        r * r <= n,
        n < (r + 1) * (r + 1),
    ensures
        r == spec_sqrt(n),
{
    lemma_sqrt_bounds(n);
    let s = spec_sqrt(n);
    if r < s {
        assert(false) by (nonlinear_arith)
            requires
                0 <= r < s,
                s * s <= n,
                n < (r + 1) * (r + 1),
        ;
    }
    if s < r {
        assert(false) by (nonlinear_arith)
            requires
                0 <= s < r,
                r * r <= n,
                n < (s + 1) * (s + 1),
        ;
    }
}

/// `floor(sqrt(n))`, exact for every `n` including `0` and values near
/// `u64::MAX`, by binary search; a midpoint whose square overflows is
/// treated as too large and the search narrows downward.
pub fn integer_sqrt(n: u64) -> (r: u64)
    ensures
        r == spec_sqrt(n as int),
        r * r <= n < (r + 1) * (r + 1),
{
    if n == 0 {
        return 0;
    }
    let mut left: u64 = 1;
    let mut right: u64 = n;
    let mut result: u64 = 0;
    proof {
        assert(n < (n + 1) * (n + 1)) by (nonlinear_arith);
    }
    while left <= right
        invariant
            1 <= left <= right + 1,
            right <= n,
            result == left - 1,
            result * result <= n,
            n < (right + 1) * (right + 1),
        decreases right + 1 - left,
    {
        let mid = left + (right - left) / 2;
        match mid.checked_mul(mid) {
            Some(mid_squared) => {
                if mid_squared == n {
                    proof {
                        assert(n < (mid + 1) * (mid + 1)) by (nonlinear_arith)
                            requires
                                mid * mid == n,
                        ;
                        lemma_sqrt_unique(n as int, mid as int);
                    }
                    return mid;
                } else if mid_squared < n {
                    proof {
                        assert(mid <= mid * mid) by (nonlinear_arith)
                            requires
                                mid >= 1,
                        ;
                    }
                    left = mid + 1;
                    result = mid;
                } else {
                    right = mid - 1;
                }
            },
            None => {
                // mid * mid exceeds u64::MAX >= n, so mid is too large.
                right = mid - 1;
            },
        }
    }
    proof {
        lemma_sqrt_unique(n as int, result as int);
    }
    result
}

} // verus!
