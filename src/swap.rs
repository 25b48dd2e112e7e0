//! Swapping one asset for the other against the reserves, for a fee.

use vstd::prelude::*;

use crate::math::{checked_mul_div, mul_div};
use crate::pool::{AmmError, Pool, BPS_DENOMINATOR};

verus! {

/// What a swap pays out and keeps.
#[derive(Clone, Copy, Debug, PartialEq, Eq, Structural)]
pub struct SwapOutcome {
    /// Units of the output asset paid to the trader.
    pub amount_out: u64,
    /// Units of the input asset kept as the fee.
    pub fee: u64,
}

/// The reserve on the input side of a swap.
pub open spec fn reserve_in(p: Pool, a_to_b: bool) -> u64 {
    if a_to_b {
        p.token_a_reserve
    } else {
        p.token_b_reserve
    }
}

/// The reserve on the output side of a swap.
pub open spec fn reserve_out(p: Pool, a_to_b: bool) -> u64 {
    if a_to_b {
        p.token_b_reserve
    } else {
        p.token_a_reserve
    }
}

/// The input amount that prices the trade: `amount_in` net of the fee.
pub open spec fn net_input(p: Pool, amount_in: u64) -> Result<u64, AmmError> {
    if p.fee_rate > BPS_DENOMINATOR {
        Err(AmmError::ArithmeticError)
    } else {
        mul_div(amount_in, (BPS_DENOMINATOR - p.fee_rate) as u64, BPS_DENOMINATOR)
    }
}

/// The outcome of swapping `amount_in` on `p`, from A to B when `a_to_b`:
/// what is paid out and kept, or the error it fails with.
pub open spec fn swap_result(p: Pool, amount_in: u64, amount_out_min: u64, a_to_b: bool) -> Result<
    SwapOutcome,
    AmmError,
> {
    let r_in = reserve_in(p, a_to_b);
    let r_out = reserve_out(p, a_to_b);
    match net_input(p, amount_in) {
        Err(e) => Err(e),
        Ok(net) => if r_in + net > u64::MAX {
            Err(AmmError::ArithmeticError)
        } else {
            match mul_div(r_out, net, (r_in + net) as u64) {
                Err(e) => Err(e),
                Ok(amount_out) => if amount_out < amount_out_min {
                    Err(AmmError::InsufficientOutputAmount)
                } else if amount_out >= r_out {
                    Err(AmmError::InsufficientLiquidity)
                } else if r_in + amount_in > u64::MAX {
                    Err(AmmError::ArithmeticError)
                } else {
                    Ok(SwapOutcome { amount_out, fee: (amount_in - net) as u64 })
                },
            }
        },
    }
}

/// The pool after it takes in `amount_in` and pays out `amount_out`.
pub open spec fn swap_post(p: Pool, amount_in: u64, a_to_b: bool, amount_out: u64) -> Pool {
    if a_to_b {
        p.with_balances(
            p.token_a_reserve + amount_in,
            p.token_b_reserve - amount_out,
            p.lp_token_supply as int,
        )
    } else {
        p.with_balances(
            p.token_a_reserve - amount_out,
            p.token_b_reserve + amount_in,
            p.lp_token_supply as int,
        )
    }
}

/// The net input never exceeds the input.
proof fn lemma_net_input_bounded(p: Pool, amount_in: u64)
    ensures
        net_input(p, amount_in) matches Ok(net) ==> net <= amount_in,
{
    if let Ok(net) = net_input(p, amount_in) {
        let k = (BPS_DENOMINATOR - p.fee_rate) as int;
        assert((amount_in as int) * k / 10000 <= amount_in as int) by (nonlinear_arith)
            requires
                0 <= k <= 10000,
                0 <= amount_in,
        ;
    }
}

/// A swap that succeeds on a well-formed pool leaves it well-formed.
pub proof fn lemma_swap_preserves_wf(p: Pool, amount_in: u64, amount_out_min: u64, a_to_b: bool)
    requires
        p.wf(),
    ensures
        swap_result(p, amount_in, amount_out_min, a_to_b) matches Ok(s) ==> swap_post(
            p,
            amount_in,
            a_to_b,
            s.amount_out,
        ).wf(),
{
}

/// Computes what a swap would pay out and keep, without changing the pool.
pub fn quote_swap(pool: &Pool, amount_in: u64, amount_out_min: u64, a_to_b: bool) -> (r: Result<
    SwapOutcome,
    AmmError,
>)
    ensures
        r == swap_result(*pool, amount_in, amount_out_min, a_to_b),
{
    proof {
        lemma_net_input_bounded(*pool, amount_in);
    }
    let (r_in, r_out) = if a_to_b {
        (pool.token_a_reserve, pool.token_b_reserve)
    } else {
        (pool.token_b_reserve, pool.token_a_reserve)
    };
    if pool.fee_rate > BPS_DENOMINATOR {
        return Err(AmmError::ArithmeticError);
    }
    let net = checked_mul_div(amount_in, BPS_DENOMINATOR - pool.fee_rate, BPS_DENOMINATOR)?;
    let denominator = match r_in.checked_add(net) {
        None => return Err(AmmError::ArithmeticError),
        Some(v) => v,
    };
    let amount_out = checked_mul_div(r_out, net, denominator)?;
    let fee = amount_in - net;
    if amount_out < amount_out_min {
        return Err(AmmError::InsufficientOutputAmount);
    }
    if amount_out >= r_out {
        return Err(AmmError::InsufficientLiquidity);
    }
    if r_in > u64::MAX - amount_in {
        return Err(AmmError::ArithmeticError);
    }
    Ok(SwapOutcome { amount_out, fee })
}

/// Swaps `amount_in` of one asset for the other, from A to B when `a_to_b`.
/// The caller moves `amount_in` into the input vault and the quoted output
/// out of the other vault first, and reports in `transfers_ok` whether both
/// succeeded. The pool changes only on success, and then by exactly the
/// swap.
pub fn swap(
    pool: &mut Pool,
    amount_in: u64,
    amount_out_min: u64,
    a_to_b: bool,
    transfers_ok: bool,
) -> (r: Result<SwapOutcome, AmmError>)
    ensures
        match swap_result(*old(pool), amount_in, amount_out_min, a_to_b) {
            Err(e) => r == Err::<SwapOutcome, AmmError>(e) && *final(pool) == *old(pool),
            Ok(s) => if transfers_ok {
                r == Ok::<SwapOutcome, AmmError>(s) && *final(pool) == swap_post(
                    *old(pool),
                    amount_in,
                    a_to_b,
                    s.amount_out,
                )
            } else {
                r == Err::<SwapOutcome, AmmError>(AmmError::TransferFailed) && *final(pool)
                    == *old(pool)
            },
        },
        old(pool).wf() ==> final(pool).wf(),
{
    proof {
        if old(pool).wf() {
            lemma_swap_preserves_wf(*old(pool), amount_in, amount_out_min, a_to_b);
        }
    }
    let s = quote_swap(pool, amount_in, amount_out_min, a_to_b)?;
    if !transfers_ok {
        return Err(AmmError::TransferFailed);
    }
    if a_to_b {
        pool.token_a_reserve = pool.token_a_reserve + amount_in;
        pool.token_b_reserve = pool.token_b_reserve - s.amount_out;
    } else {
        pool.token_b_reserve = pool.token_b_reserve + amount_in;
        pool.token_a_reserve = pool.token_a_reserve - s.amount_out;
    }
    Ok(s)
}

} // verus!
