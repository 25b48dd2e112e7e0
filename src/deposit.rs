//! Adding liquidity: seeding an empty pool, or a deposit in proportion to the
//! reserves.

use vstd::prelude::*;

use crate::math::{
    checked_mul_div, floor_sqrt, lemma_floor_sqrt_of_product, mul_div, sqrt_of_product,
};
use crate::pool::{AmmError, Pool, MINIMUM_LIQUIDITY};

verus! {

/// What a deposit takes in and what it issues.
#[derive(Clone, Copy, Debug, PartialEq, Eq, Structural)]
pub struct Deposit {
    /// Units of asset A moved into the pool.
    pub amount_a: u64,
    /// Units of asset B moved into the pool.
    pub amount_b: u64,
    /// Claim units issued to the depositor.
    pub lp_tokens: u64,
}

/// The amounts a deposit takes, before the pool's balances are checked to
/// absorb them.
pub open spec fn deposit_amounts(
    p: Pool,
    amount_a_desired: u64,
    amount_b_desired: u64,
    amount_a_min: u64,
    amount_b_min: u64,
) -> Result<Deposit, AmmError> {
    if p.is_empty() {
        if amount_a_desired == 0 || amount_b_desired == 0 {
            Err(AmmError::InsufficientAmount)
        } else {
            let root = floor_sqrt(amount_a_desired * amount_b_desired);
            if root <= MINIMUM_LIQUIDITY {
                Err(AmmError::InsufficientLiquidity)
            } else {
                Ok(
                    Deposit {
                        amount_a: amount_a_desired,
                        amount_b: amount_b_desired,
                        lp_tokens: (root - MINIMUM_LIQUIDITY) as u64,
                    },
                )
            }
        }
    } else {
        match mul_div(amount_a_desired, p.token_b_reserve, p.token_a_reserve) {
            Err(e) => Err(e),
            Ok(amount_b_optimal) => if amount_b_optimal <= amount_b_desired {
                if amount_b_optimal < amount_b_min {
                    Err(AmmError::InsufficientAmount)
                } else {
                    match mul_div(amount_a_desired, p.lp_token_supply, p.token_a_reserve) {
                        Err(e) => Err(e),
                        Ok(lp) => Ok(
                            Deposit {
                                amount_a: amount_a_desired,
                                amount_b: amount_b_optimal,
                                lp_tokens: lp,
                            },
                        ),
                    }
                }
            } else {
                match mul_div(amount_b_desired, p.token_a_reserve, p.token_b_reserve) {
                    Err(e) => Err(e),
                    Ok(amount_a_optimal) => if amount_a_optimal > amount_a_desired
                        || amount_a_optimal < amount_a_min {
                        Err(AmmError::InsufficientAmount)
                    } else {
                        match mul_div(amount_b_desired, p.lp_token_supply, p.token_b_reserve) {
                            Err(e) => Err(e),
                            Ok(lp) => Ok(
                                Deposit {
                                    amount_a: amount_a_optimal,
                                    amount_b: amount_b_desired,
                                    lp_tokens: lp,
                                },
                            ),
                        }
                    },
                }
            },
        }
    }
}

/// The pool after it absorbs `d`.
pub open spec fn deposit_post(p: Pool, d: Deposit) -> Pool {
    p.with_balances(
        p.token_a_reserve + d.amount_a,
        p.token_b_reserve + d.amount_b,
        p.lp_token_supply + d.lp_tokens,
    )
}

/// The pool's reserves and claim supply stay within 64 bits after `d`.
pub open spec fn deposit_fits(p: Pool, d: Deposit) -> bool {
    &&& p.token_a_reserve + d.amount_a <= u64::MAX
    &&& p.token_b_reserve + d.amount_b <= u64::MAX
    &&& p.lp_token_supply + d.lp_tokens <= u64::MAX
}

/// The outcome of a deposit on `p`: its amounts, or the error it fails with.
pub open spec fn deposit_result(
    p: Pool,
    amount_a_desired: u64,
    amount_b_desired: u64,
    amount_a_min: u64,
    amount_b_min: u64,
) -> Result<Deposit, AmmError> {
    match deposit_amounts(p, amount_a_desired, amount_b_desired, amount_a_min, amount_b_min) {
        Err(e) => Err(e),
        Ok(d) => if deposit_fits(p, d) {
            Ok(d)
        } else {
            Err(AmmError::ArithmeticError)
        },
    }
}

/// A deposit that succeeds on a well-formed pool leaves it well-formed.
pub proof fn lemma_deposit_preserves_wf(
    p: Pool,
    amount_a_desired: u64,
    amount_b_desired: u64,
    amount_a_min: u64,
    amount_b_min: u64,
)
    requires
        p.wf(),
    ensures
        deposit_result(p, amount_a_desired, amount_b_desired, amount_a_min, amount_b_min) matches Ok(
            d,
        ) ==> deposit_post(p, d).wf(),
{
    lemma_floor_sqrt_of_product(amount_a_desired, amount_b_desired);
}

/// Computes what a deposit would take and issue, without changing the pool.
pub fn quote_add_liquidity(
    pool: &Pool,
    amount_a_desired: u64,
    amount_b_desired: u64,
    amount_a_min: u64,
    amount_b_min: u64,
) -> (r: Result<Deposit, AmmError>)
    ensures
        r == deposit_result(*pool, amount_a_desired, amount_b_desired, amount_a_min, amount_b_min),
{
    let d = if pool.token_a_reserve == 0 && pool.token_b_reserve == 0 {
        if amount_a_desired == 0 || amount_b_desired == 0 {
            return Err(AmmError::InsufficientAmount);
        }
        let root = sqrt_of_product(amount_a_desired, amount_b_desired);
        if root <= MINIMUM_LIQUIDITY {
            return Err(AmmError::InsufficientLiquidity);
        }
        Deposit {
            amount_a: amount_a_desired,
            amount_b: amount_b_desired,
            lp_tokens: root - MINIMUM_LIQUIDITY,
        }
    } else {
        let amount_b_optimal = checked_mul_div(
            amount_a_desired,
            pool.token_b_reserve,
            pool.token_a_reserve,
        )?;
        if amount_b_optimal <= amount_b_desired {
            if amount_b_optimal < amount_b_min {
                return Err(AmmError::InsufficientAmount);
            }
            let lp = checked_mul_div(amount_a_desired, pool.lp_token_supply, pool.token_a_reserve)?;
            Deposit { amount_a: amount_a_desired, amount_b: amount_b_optimal, lp_tokens: lp }
        } else {
            let amount_a_optimal = checked_mul_div(
                amount_b_desired,
                pool.token_a_reserve,
                pool.token_b_reserve,
            )?;
            if amount_a_optimal > amount_a_desired || amount_a_optimal < amount_a_min {
                return Err(AmmError::InsufficientAmount);
            }
            let lp = checked_mul_div(amount_b_desired, pool.lp_token_supply, pool.token_b_reserve)?;
            Deposit { amount_a: amount_a_optimal, amount_b: amount_b_desired, lp_tokens: lp }
        }
    };
    if pool.token_a_reserve > u64::MAX - d.amount_a || pool.token_b_reserve > u64::MAX - d.amount_b
        || pool.lp_token_supply > u64::MAX - d.lp_tokens {
        return Err(AmmError::ArithmeticError);
    }
    Ok(d)
}

/// Adds liquidity to the pool. The caller moves `amount_a` and `amount_b`
/// of the quoted deposit into the vaults and issues `lp_tokens` first, and
/// reports in `transfers_ok` whether all of that succeeded. The pool changes
/// only on success, and then by exactly the deposit.
pub fn add_liquidity(
    pool: &mut Pool,
    amount_a_desired: u64,
    amount_b_desired: u64,
    amount_a_min: u64,
    amount_b_min: u64,
    transfers_ok: bool,
) -> (r: Result<Deposit, AmmError>)
    ensures
        match deposit_result(
            *old(pool),
            amount_a_desired,
            amount_b_desired,
            amount_a_min,
            amount_b_min,
        ) {
            Err(e) => r == Err::<Deposit, AmmError>(e) && *final(pool) == *old(pool),
            Ok(d) => if transfers_ok {
                r == Ok::<Deposit, AmmError>(d) && *final(pool) == deposit_post(*old(pool), d)
            } else {
                r == Err::<Deposit, AmmError>(AmmError::TransferFailed) && *final(pool) == *old(
                    pool,
                )
            },
        },
        old(pool).wf() ==> final(pool).wf(),
{
    proof {
        if old(pool).wf() {
            if let Ok(d) = deposit_result(
                *old(pool),
                amount_a_desired,
                amount_b_desired,
                amount_a_min,
                amount_b_min,
            ) {
                lemma_deposit_preserves_wf(
                    *old(pool),
                    amount_a_desired,
                    amount_b_desired,
                    amount_a_min,
                    amount_b_min,
                );
            }
        }
    }
    let d = quote_add_liquidity(pool, amount_a_desired, amount_b_desired, amount_a_min, amount_b_min)?;
    if !transfers_ok {
        return Err(AmmError::TransferFailed);
    }
    pool.token_a_reserve = pool.token_a_reserve + d.amount_a;
    pool.token_b_reserve = pool.token_b_reserve + d.amount_b;
    pool.lp_token_supply = pool.lp_token_supply + d.lp_tokens;
    Ok(d)
}

} // verus!
