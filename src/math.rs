//! Integer arithmetic used by the pool: checked multiply-then-divide and the
//! floor square root.

use vstd::prelude::*;

use crate::pool::AmmError;

verus! {

/// `r` is the floor of the square root of `n`.
pub open spec fn is_floor_sqrt(n: int, r: int) -> bool {
    &&& 0 <= r
    &&& r * r <= n
    &&& n < (r + 1) * (r + 1)
}

/// The floor of the square root of a non-negative integer.
pub open spec fn floor_sqrt(n: int) -> int {
    choose|r: int| is_floor_sqrt(n, r)
}

/// Two floor square roots of one number are equal.
pub proof fn lemma_floor_sqrt_unique(n: int, r: int, s: int)
    requires
        is_floor_sqrt(n, r),
        is_floor_sqrt(n, s),
    ensures
        r == s,
{
    if r < s {
        assert((r + 1) * (r + 1) <= s * s) by (nonlinear_arith)
            requires
                0 <= r,
                r + 1 <= s,
        ;
    } else if s < r {
        assert((s + 1) * (s + 1) <= r * r) by (nonlinear_arith)
            requires
                0 <= s,
                s + 1 <= r,
        ;
    }
}

/// Any witness of the floor square root is the value `floor_sqrt` names.
pub proof fn lemma_floor_sqrt_is(n: int, r: int)
    requires
        is_floor_sqrt(n, r),
    ensures
        floor_sqrt(n) == r,
{
    let s = floor_sqrt(n);
    assert(is_floor_sqrt(n, s));
    lemma_floor_sqrt_unique(n, r, s);
}

/// Every non-negative integer has a floor square root.
pub proof fn lemma_floor_sqrt_exists(n: int)
    requires
        0 <= n,
    ensures
        is_floor_sqrt(n, floor_sqrt(n)),
    decreases n,
{
    if n == 0 {
        assert(is_floor_sqrt(0, 0));
    } else {
        lemma_floor_sqrt_exists(n - 1);
        let r = floor_sqrt(n - 1);
        if (r + 1) * (r + 1) <= n {
            assert(n < (r + 2) * (r + 2)) by (nonlinear_arith)
                requires
                    n - 1 < (r + 1) * (r + 1),
                    0 <= r,
            ;
            assert(is_floor_sqrt(n, r + 1));
        } else {
            assert(is_floor_sqrt(n, r));
        }
    }
}

/// The floor square root of a product of two 64-bit values fits in 64 bits.
pub proof fn lemma_floor_sqrt_of_product(x: u64, y: u64)
    ensures
        is_floor_sqrt(x * y, floor_sqrt(x * y)),
        floor_sqrt(x * y) <= u64::MAX,
{
    assert(0 <= x * y <= u64::MAX * u64::MAX) by (nonlinear_arith)
        requires
            x <= u64::MAX,
            y <= u64::MAX,
    ;
    lemma_floor_sqrt_exists(x * y);
    let r = floor_sqrt(x * y);
    assert(r <= u64::MAX) by (nonlinear_arith)
        requires
            0 <= r,
            r * r <= x * y,
            x * y <= u64::MAX * u64::MAX,
    ;
}

/// Relies on `num_integer::Roots::sqrt` for `u128`, documented to return the
/// truncated square root `r` with `r * r <= n < (r + 1) * (r + 1)`; it
/// panics only on negative input, which `u128` cannot hold.
#[verifier::external_body]
fn sqrt_u128(n: u128) -> (r: u128)
    ensures
        is_floor_sqrt(n as int, r as int),
{
    num_integer::Roots::sqrt(&n)
}

/// The floor square root of the product of two 64-bit amounts, computed with
/// 128-bit intermediate precision.
pub fn sqrt_of_product(x: u64, y: u64) -> (r: u64)
    ensures
        r as int == floor_sqrt(x * y),
{
    assert((x as int) * (y as int) <= u128::MAX) by (nonlinear_arith)
        requires
            x <= u64::MAX,
            y <= u64::MAX,
    ;
    let n: u128 = (x as u128) * (y as u128);
    let r = sqrt_u128(n);
    assert(r <= u64::MAX) by (nonlinear_arith)
        requires
            r * r <= n,
            n < 0x1_0000_0000_0000_0000 * 0x1_0000_0000_0000_0000,
    ;
    proof {
        lemma_floor_sqrt_is(x * y, r as int);
    }
    r as u64
}


/// `x * y / d` rounded down, failing with `ArithmeticError` when the product
/// exceeds the 64-bit range or `d` is zero.
pub open spec fn mul_div(x: u64, y: u64, d: u64) -> Result<u64, AmmError> {
    if x * y > u64::MAX || d == 0 {
        Err(AmmError::ArithmeticError)
    } else {
        Ok(((x * y) / (d as int)) as u64)
    }
}

/// Checked `x * y / d`, rounded down.
pub fn checked_mul_div(x: u64, y: u64, d: u64) -> (r: Result<u64, AmmError>)
    ensures
        r == mul_div(x, y, d),
{
    match x.checked_mul(y) {
        None => Err(AmmError::ArithmeticError),
        Some(p) => match p.checked_div(d) {
            None => Err(AmmError::ArithmeticError),
            Some(q) => Ok(q),
        },
    }
}

} // verus!
