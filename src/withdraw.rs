//! Removing liquidity: redeeming claim units for a share of both reserves.

use vstd::prelude::*;

use crate::math::{checked_mul_div, mul_div};
use crate::pool::{AmmError, Pool};

verus! {

/// What a withdrawal pays out.
#[derive(Clone, Copy, Debug, PartialEq, Eq, Structural)]
pub struct Withdrawal {
    /// Units of asset A paid out of the pool.
    pub amount_a: u64,
    /// Units of asset B paid out of the pool.
    pub amount_b: u64,
}

/// The outcome of redeeming `lp_token_amount` claim units from `p`: the
/// amounts paid out, or the error it fails with.
pub open spec fn withdraw_result(
    p: Pool,
    lp_token_amount: u64,
    amount_a_min: u64,
    amount_b_min: u64,
) -> Result<Withdrawal, AmmError> {
    match mul_div(lp_token_amount, p.token_a_reserve, p.lp_token_supply) {
        Err(e) => Err(e),
        Ok(amount_a) => match mul_div(lp_token_amount, p.token_b_reserve, p.lp_token_supply) {
            Err(e) => Err(e),
            Ok(amount_b) => if amount_a < amount_a_min || amount_b < amount_b_min {
                Err(AmmError::InsufficientAmount)
            } else if amount_a > p.token_a_reserve || amount_b > p.token_b_reserve
                || lp_token_amount > p.lp_token_supply {
                Err(AmmError::ArithmeticError)
            } else {
                Ok(Withdrawal { amount_a, amount_b })
            },
        },
    }
}

/// The pool after it pays out `w` and retires `lp_token_amount` claim units.
pub open spec fn withdraw_post(p: Pool, lp_token_amount: u64, w: Withdrawal) -> Pool {
    p.with_balances(
        p.token_a_reserve - w.amount_a,
        p.token_b_reserve - w.amount_b,
        p.lp_token_supply - lp_token_amount,
    )
}

/// A withdrawal that succeeds on a well-formed pool leaves it well-formed.
pub proof fn lemma_withdraw_preserves_wf(
    p: Pool,
    lp_token_amount: u64,
    amount_a_min: u64,
    amount_b_min: u64,
)
    requires
        p.wf(),
    ensures
        withdraw_result(p, lp_token_amount, amount_a_min, amount_b_min) matches Ok(w)
            ==> withdraw_post(p, lp_token_amount, w).wf(),
{
    if let Ok(w) = withdraw_result(p, lp_token_amount, amount_a_min, amount_b_min) {
        let s = p.lp_token_supply as int;
        let c = lp_token_amount as int;
        if c < s {
            lemma_share_below_whole(c, p.token_a_reserve as int, s);
            lemma_share_below_whole(c, p.token_b_reserve as int, s);
        } else {
            assert(c * (p.token_a_reserve as int) / s == p.token_a_reserve as int) by (
            nonlinear_arith)
                requires
                    c == s,
                    s > 0,
            ;
            assert(c * (p.token_b_reserve as int) / s == p.token_b_reserve as int) by (
            nonlinear_arith)
                requires
                    c == s,
                    s > 0,
            ;
        }
    }
}

/// A share `c / s` of a positive whole, with `c < s`, is less than the whole.
proof fn lemma_share_below_whole(c: int, whole: int, s: int)
    requires
        0 <= c < s,
        0 < whole,
    ensures
        c * whole / s < whole,
{
    assert(c * whole / s < whole) by (nonlinear_arith)
        requires
            0 <= c < s,
            0 < whole,
    ;
}

/// Computes what redeeming `lp_token_amount` claim units would pay out,
/// without changing the pool.
pub fn quote_remove_liquidity(
    pool: &Pool,
    lp_token_amount: u64,
    amount_a_min: u64,
    amount_b_min: u64,
) -> (r: Result<Withdrawal, AmmError>)
    ensures
        r == withdraw_result(*pool, lp_token_amount, amount_a_min, amount_b_min),
{
    let amount_a = checked_mul_div(lp_token_amount, pool.token_a_reserve, pool.lp_token_supply)?;
    let amount_b = checked_mul_div(lp_token_amount, pool.token_b_reserve, pool.lp_token_supply)?;
    if amount_a < amount_a_min || amount_b < amount_b_min {
        return Err(AmmError::InsufficientAmount);
    }
    if amount_a > pool.token_a_reserve || amount_b > pool.token_b_reserve || lp_token_amount
        > pool.lp_token_supply {
        return Err(AmmError::ArithmeticError);
    }
    Ok(Withdrawal { amount_a, amount_b })
}

/// Removes liquidity from the pool. The caller retires `lp_token_amount`
/// claim units from the withdrawer and moves the quoted amounts out of the
/// vaults first, and reports in `transfers_ok` whether all of that
/// succeeded. The pool changes only on success, and then by exactly the
/// withdrawal.
pub fn remove_liquidity(
    pool: &mut Pool,
    lp_token_amount: u64,
    amount_a_min: u64,
    amount_b_min: u64,
    transfers_ok: bool,
) -> (r: Result<Withdrawal, AmmError>)
    ensures
        match withdraw_result(*old(pool), lp_token_amount, amount_a_min, amount_b_min) {
            Err(e) => r == Err::<Withdrawal, AmmError>(e) && *final(pool) == *old(pool),
            Ok(w) => if transfers_ok {
                r == Ok::<Withdrawal, AmmError>(w) && *final(pool) == withdraw_post(
                    *old(pool),
                    lp_token_amount,
                    w,
                )
            } else {
                r == Err::<Withdrawal, AmmError>(AmmError::TransferFailed) && *final(pool) == *old(
                    pool,
                )
            },
        },
        old(pool).wf() ==> final(pool).wf(),
{
    proof {
        if old(pool).wf() {
            lemma_withdraw_preserves_wf(*old(pool), lp_token_amount, amount_a_min, amount_b_min);
        }
    }
    let w = quote_remove_liquidity(pool, lp_token_amount, amount_a_min, amount_b_min)?;
    if !transfers_ok {
        return Err(AmmError::TransferFailed);
    }
    pool.token_a_reserve = pool.token_a_reserve - w.amount_a;
    pool.token_b_reserve = pool.token_b_reserve - w.amount_b;
    pool.lp_token_supply = pool.lp_token_supply - lp_token_amount;
    Ok(w)
}

} // verus!
