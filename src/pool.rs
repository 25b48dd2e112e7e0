//! The pool record, its error kinds and its well-formedness.

use vstd::prelude::*;

verus! {

/// Largest fee rate a pool may be created with, in basis points (10%).
pub const MAX_FEE_RATE: u64 = 1000;

/// Basis points in one whole.
pub const BPS_DENOMINATOR: u64 = 10000;

/// Claim units withheld from the first depositor of an empty pool.
pub const MINIMUM_LIQUIDITY: u64 = 1000;

/// Errors of the pool's operations.
#[derive(Clone, Copy, Debug, PartialEq, Eq, Structural)]
pub enum AmmError {
    /// The fee rate exceeds the cap at creation.
    InvalidFeeRate,
    /// A caller-given minimum or maximum was violated.
    InsufficientAmount,
    /// The reserves are too small for the request.
    InsufficientLiquidity,
    /// A swap's output falls below the caller's floor.
    InsufficientOutputAmount,
    /// Overflow, underflow or division by zero.
    ArithmeticError,
    /// The asset transfer, or the issuer's validation of it, was refused.
    TransferFailed,
}

/// A 32-byte account address.
#[derive(Clone, Copy, Debug)]
pub struct AccountKey {
    pub bytes: [u8; 32],
}

/// The accounting record of one two-asset pool.
#[derive(Clone, Copy, Debug)]
pub struct Pool {
    pub authority: AccountKey,
    pub token_a_mint: AccountKey,
    pub token_b_mint: AccountKey,
    pub token_a_vault: AccountKey,
    pub token_b_vault: AccountKey,
    pub lp_token_mint: AccountKey,
    /// Swap fee in basis points.
    pub fee_rate: u64,
    pub token_a_reserve: u64,
    pub token_b_reserve: u64,
    /// Claim units outstanding.
    pub lp_token_supply: u64,
    pub bump: u8,
}

impl Pool {
    /// The fee is within its cap, and the pool is either empty (both reserves
    /// and the claim supply are zero) or fully seeded (none of them is).
    pub open spec fn wf(&self) -> bool {
        &&& self.fee_rate <= MAX_FEE_RATE
        &&& (self.token_a_reserve == 0 <==> self.token_b_reserve == 0)
        &&& (self.token_b_reserve == 0 <==> self.lp_token_supply == 0)
    }

    /// The pool is empty.
    pub open spec fn is_empty(&self) -> bool {
        self.token_a_reserve == 0 && self.token_b_reserve == 0
    }

    /// The same pool with other reserves and claim supply.
    pub open spec fn with_balances(self, reserve_a: int, reserve_b: int, supply: int) -> Pool {
        Pool {
            token_a_reserve: reserve_a as u64,
            token_b_reserve: reserve_b as u64,
            lp_token_supply: supply as u64,
            ..self
        }
    }
}

/// Creates an empty pool bound to its asset pair, vaults and claim asset.
/// Fails with `InvalidFeeRate` when the fee exceeds the cap.
pub fn initialize_pool(
    authority: AccountKey,
    token_a_mint: AccountKey,
    token_b_mint: AccountKey,
    token_a_vault: AccountKey,
    token_b_vault: AccountKey,
    lp_token_mint: AccountKey,
    fee_rate: u64,
    bump: u8,
) -> (r: Result<Pool, AmmError>)
    ensures
        fee_rate > MAX_FEE_RATE ==> r == Err::<Pool, AmmError>(AmmError::InvalidFeeRate),
        fee_rate <= MAX_FEE_RATE ==> r == Ok::<Pool, AmmError>(
            (Pool {
                authority,
                token_a_mint,
                token_b_mint,
                token_a_vault,
                token_b_vault,
                lp_token_mint,
                fee_rate,
                token_a_reserve: 0,
                token_b_reserve: 0,
                lp_token_supply: 0,
                bump,
            }),
        ),
        r matches Ok(p) ==> p.wf() && p.is_empty(),
{
    if fee_rate > MAX_FEE_RATE {
        return Err(AmmError::InvalidFeeRate);
    }
    Ok(
        Pool {
            authority,
            token_a_mint,
            token_b_mint,
            token_a_vault,
            token_b_vault,
            lp_token_mint,
            fee_rate,
            token_a_reserve: 0,
            token_b_reserve: 0,
            lp_token_supply: 0,
            bump,
        },
    )
}

} // verus!
