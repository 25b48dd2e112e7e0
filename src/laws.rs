//! Properties that relate the pool's operations to one another.

use vstd::prelude::*;

use crate::deposit::{deposit_amounts, deposit_fits, deposit_post, deposit_result, lemma_deposit_preserves_wf, Deposit};
use crate::math::lemma_floor_sqrt_of_product;
use crate::pool::{AmmError, Pool};
use crate::swap::{
    lemma_swap_preserves_wf, net_input, reserve_in, reserve_out, swap_post, swap_result,
    SwapOutcome,
};
use crate::withdraw::{lemma_withdraw_preserves_wf, withdraw_post, withdraw_result, Withdrawal};

verus! {

/// One operation on a pool, with its arguments.
#[derive(Clone, Copy, Debug, PartialEq, Eq, Structural)]
pub enum Operation {
    Deposit { amount_a_desired: u64, amount_b_desired: u64, amount_a_min: u64, amount_b_min: u64 },
    Withdraw { lp_token_amount: u64, amount_a_min: u64, amount_b_min: u64 },
    Swap { amount_in: u64, amount_out_min: u64, a_to_b: bool },
}

/// The pool after one operation: changed as the operation says when it
/// succeeds, unchanged when it fails.
pub open spec fn step(p: Pool, op: Operation) -> Pool {
    match op {
        Operation::Deposit { amount_a_desired, amount_b_desired, amount_a_min, amount_b_min } => {
            match deposit_result(p, amount_a_desired, amount_b_desired, amount_a_min, amount_b_min) {
                Ok(d) => deposit_post(p, d),
                Err(_) => p,
            }
        },
        Operation::Withdraw { lp_token_amount, amount_a_min, amount_b_min } => {
            match withdraw_result(p, lp_token_amount, amount_a_min, amount_b_min) {
                Ok(w) => withdraw_post(p, lp_token_amount, w),
                Err(_) => p,
            }
        },
        Operation::Swap { amount_in, amount_out_min, a_to_b } => {
            match swap_result(p, amount_in, amount_out_min, a_to_b) {
                Ok(s) => swap_post(p, amount_in, a_to_b, s.amount_out),
                Err(_) => p,
            }
        },
    }
}

/// The pool after a sequence of operations, applied in order.
pub open spec fn run(p: Pool, ops: Seq<Operation>) -> Pool
    decreases ops.len(),
{
    if ops.len() == 0 {
        p
    } else {
        run(step(p, ops[0]), ops.drop_first())
    }
}

/// Any sequence of deposits, withdrawals and swaps on a well-formed pool
/// (such as a new one) leaves it well-formed: its two reserves and its claim
/// supply are either all zero or all non-zero.
pub proof fn lemma_invariant_preserved(p: Pool, ops: Seq<Operation>)
    requires
        p.wf(),
    ensures
        run(p, ops).wf(),
        run(p, ops).token_a_reserve == 0 <==> run(p, ops).token_b_reserve == 0,
        run(p, ops).token_b_reserve == 0 <==> run(p, ops).lp_token_supply == 0,
    decreases ops.len(),
{
    if ops.len() > 0 {
        match ops[0] {
            Operation::Deposit { amount_a_desired, amount_b_desired, amount_a_min, amount_b_min } => {
                lemma_deposit_preserves_wf(
                    p,
                    amount_a_desired,
                    amount_b_desired,
                    amount_a_min,
                    amount_b_min,
                );
            },
            Operation::Withdraw { lp_token_amount, amount_a_min, amount_b_min } => {
                lemma_withdraw_preserves_wf(p, lp_token_amount, amount_a_min, amount_b_min);
            },
            Operation::Swap { amount_in, amount_out_min, a_to_b } => {
                lemma_swap_preserves_wf(p, amount_in, amount_out_min, a_to_b);
            },
        }
        lemma_invariant_preserved(step(p, ops[0]), ops.drop_first());
    }
}

/// A swap that succeeds never lowers the product of the two reserves: the
/// output is rounded down and the whole input, fee included, is credited.
pub proof fn lemma_swap_product_non_decreasing(
    p: Pool,
    amount_in: u64,
    amount_out_min: u64,
    a_to_b: bool,
)
    ensures
        swap_result(p, amount_in, amount_out_min, a_to_b) matches Ok(s) ==> {
            let q = swap_post(p, amount_in, a_to_b, s.amount_out);
            q.token_a_reserve * q.token_b_reserve >= p.token_a_reserve * p.token_b_reserve
        },
{
    if let Ok(s) = swap_result(p, amount_in, amount_out_min, a_to_b) {
        let x = reserve_in(p, a_to_b) as int;
        let y = reserve_out(p, a_to_b) as int;
        let i = amount_in as int;
        let n = net_input(p, amount_in).unwrap() as int;
        let o = s.amount_out as int;
        assert(n <= i) by (nonlinear_arith)
            requires
                n == i * (10000 - p.fee_rate) / 10000,
                0 <= p.fee_rate <= 10000,
                0 <= i,
        ;
        assert(o * (x + n) <= y * n) by (nonlinear_arith)
            requires
                o == y * n / (x + n),
                x + n > 0,
                0 <= y * n,
        ;
        assert((x + i) * (y - o) >= x * y) by (nonlinear_arith)
            requires
                o * (x + n) <= y * n,
                0 <= x,
                0 <= n <= i,
                0 <= o < y,
        ;
        if a_to_b {
            assert((x + i) * (y - o) == (y - o) * (x + i)) by (nonlinear_arith);
        } else {
            assert((x + i) * (y - o) == (y - o) * (x + i)) by (nonlinear_arith);
            assert(x * y == y * x) by (nonlinear_arith);
        }
    }
}

/// Redeeming the whole claim supply of a seeded pool pays out both reserves
/// in full and leaves the pool empty, whenever the supply times each reserve
/// stays within 64 bits (beyond that the withdrawal fails with
/// `ArithmeticError`).
pub proof fn lemma_full_withdrawal(p: Pool)
    requires
        p.wf(),
        p.lp_token_supply > 0,
        p.lp_token_supply * p.token_a_reserve <= u64::MAX,
        p.lp_token_supply * p.token_b_reserve <= u64::MAX,
    ensures
        withdraw_result(p, p.lp_token_supply, 0, 0) == Ok::<Withdrawal, AmmError>(
            Withdrawal { amount_a: p.token_a_reserve, amount_b: p.token_b_reserve },
        ),
        withdraw_post(
            p,
            p.lp_token_supply,
            Withdrawal { amount_a: p.token_a_reserve, amount_b: p.token_b_reserve },
        ).lp_token_supply == 0,
        withdraw_post(
            p,
            p.lp_token_supply,
            Withdrawal { amount_a: p.token_a_reserve, amount_b: p.token_b_reserve },
        ).token_a_reserve == 0,
        withdraw_post(
            p,
            p.lp_token_supply,
            Withdrawal { amount_a: p.token_a_reserve, amount_b: p.token_b_reserve },
        ).token_b_reserve == 0,
{
    let s = p.lp_token_supply as int;
    assert(s * (p.token_a_reserve as int) / s == p.token_a_reserve) by (nonlinear_arith)
        requires
            s > 0,
    ;
    assert(s * (p.token_b_reserve as int) / s == p.token_b_reserve) by (nonlinear_arith)
        requires
            s > 0,
    ;
}

/// With `m == d * s / r` rounded down, redeeming `m` of the `s + m` claim
/// units against a reserve of `r + d` pays out no more than `d`.
proof fn lemma_redeem_own_share(d: int, s: int, r: int, m: int)
    requires
        0 <= d,
        0 <= s,
        0 < r,
        m * r <= d * s,
        0 <= m,
        s + m > 0,
    ensures
        m * (r + d) / (s + m) <= d,
{
    assert(m * (r + d) <= d * (s + m)) by (nonlinear_arith)
        requires
            m * r <= d * s,
            0 <= d,
    ;
    assert(m * (r + d) / (s + m) <= d) by (nonlinear_arith)
        requires
            m * (r + d) <= d * (s + m),
            s + m > 0,
            0 <= m * (r + d),
    ;
}

/// With `m <= a * s / ra` and `e == a * rb / ra` both rounded down,
/// redeeming `m` of the `s + m` claim units against a reserve of `rb + e`
/// pays out no more than `e`.
proof fn lemma_redeem_other_side(a: int, s: int, ra: int, rb: int, m: int, e: int)
    requires
        0 <= a,
        0 < s,
        0 < ra,
        0 <= rb,
        0 <= m,
        m * ra <= a * s,
        a * rb < (e + 1) * ra,
        0 <= e,
    ensures
        m * (rb + e) / (s + m) <= e,
{
    assert(m * ra * rb <= a * s * rb) by (nonlinear_arith)
        requires
            m * ra <= a * s,
            0 <= rb,
    ;
    assert(a * rb * s < (e + 1) * ra * s) by (nonlinear_arith)
        requires
            a * rb < (e + 1) * ra,
            0 < s,
    ;
    assert(m * rb * ra < (e + 1) * s * ra) by (nonlinear_arith)
        requires
            m * ra * rb <= a * s * rb,
            a * rb * s < (e + 1) * ra * s,
    ;
    assert(m * rb < (e + 1) * s) by (nonlinear_arith)
        requires
            m * rb * ra < (e + 1) * s * ra,
            0 < ra,
    ;
    assert(m * (rb + e) < (e + 1) * (s + m)) by (nonlinear_arith)
        requires
            m * rb < (e + 1) * s,
            0 <= m,
    ;
    assert(m * (rb + e) / (s + m) <= e) by (nonlinear_arith)
        requires
            m * (rb + e) < (e + 1) * (s + m),
            s + m > 0,
            0 <= m * (rb + e),
    ;
}

/// Depositing and at once redeeming the claim units that the deposit issued
/// never pays out more of either asset than was deposited.
pub proof fn lemma_round_trip(
    p: Pool,
    amount_a_desired: u64,
    amount_b_desired: u64,
    amount_a_min: u64,
    amount_b_min: u64,
)
    requires
        p.wf(),
    ensures
        deposit_result(p, amount_a_desired, amount_b_desired, amount_a_min, amount_b_min) matches Ok(
            d,
        ) ==> (withdraw_result(deposit_post(p, d), d.lp_tokens, 0, 0) matches Ok(w)
            ==> w.amount_a <= d.amount_a && w.amount_b <= d.amount_b),
{
    if let Ok(d) = deposit_result(
        p,
        amount_a_desired,
        amount_b_desired,
        amount_a_min,
        amount_b_min,
    ) {
        let q = deposit_post(p, d);
        if let Ok(w) = withdraw_result(q, d.lp_tokens, 0, 0) {
            let m = d.lp_tokens as int;
            let s = p.lp_token_supply as int;
            let ra = p.token_a_reserve as int;
            let rb = p.token_b_reserve as int;
            let da = d.amount_a as int;
            let db = d.amount_b as int;
            if p.is_empty() {
                lemma_floor_sqrt_of_product(amount_a_desired, amount_b_desired);
                assert(m * da / m == da) by (nonlinear_arith)
                    requires
                        m > 0,
                ;
                assert(m * db / m == db) by (nonlinear_arith)
                    requires
                        m > 0,
                ;
            } else {
                let b_opt = amount_a_desired * rb / ra;
                if b_opt <= amount_b_desired {
                    assert(m * ra <= da * s) by (nonlinear_arith)
                        requires
                            m == da * s / ra,
                            ra > 0,
                            da * s >= 0,
                    ;
                    assert(da * rb < (db + 1) * ra) by (nonlinear_arith)
                        requires
                            db == da * rb / ra,
                            ra > 0,
                            da * rb >= 0,
                    ;
                    lemma_redeem_own_share(da, s, ra, m);
                    lemma_redeem_other_side(da, s, ra, rb, m, db);
                } else {
                    assert(m * rb <= db * s) by (nonlinear_arith)
                        requires
                            m == db * s / rb,
                            rb > 0,
                            db * s >= 0,
                    ;
                    assert(db * ra < (da + 1) * rb) by (nonlinear_arith)
                        requires
                            da == db * ra / rb,
                            rb > 0,
                            db * ra >= 0,
                    ;
                    lemma_redeem_own_share(db, s, rb, m);
                    lemma_redeem_other_side(db, s, rb, ra, m, da);
                }
            }
        }
    }
}

/// A withdrawal whose claim amount times either reserve exceeds 64 bits
/// fails with `ArithmeticError` (and so leaves the pool as it was).
pub proof fn lemma_withdraw_overflow_rejected(
    p: Pool,
    lp_token_amount: u64,
    amount_a_min: u64,
    amount_b_min: u64,
)
    ensures
        lp_token_amount * p.token_a_reserve > u64::MAX || lp_token_amount * p.token_b_reserve
            > u64::MAX ==> withdraw_result(p, lp_token_amount, amount_a_min, amount_b_min) == Err::<
            Withdrawal,
            AmmError,
        >(AmmError::ArithmeticError),
{
}

/// A swap whose input times the fee complement, or whose output reserve
/// times the net input, exceeds 64 bits fails with `ArithmeticError`.
pub proof fn lemma_swap_overflow_rejected(
    p: Pool,
    amount_in: u64,
    amount_out_min: u64,
    a_to_b: bool,
)
    requires
        p.wf(),
    ensures
        amount_in * (10000 - p.fee_rate) > u64::MAX ==> swap_result(
            p,
            amount_in,
            amount_out_min,
            a_to_b,
        ) == Err::<SwapOutcome, AmmError>(AmmError::ArithmeticError),
        net_input(p, amount_in) matches Ok(n) && reserve_out(p, a_to_b) * n > u64::MAX
            ==> swap_result(p, amount_in, amount_out_min, a_to_b) == Err::<SwapOutcome, AmmError>(
            AmmError::ArithmeticError,
        ),
{
}

/// A deposit into a seeded pool fails with `ArithmeticError` when a product
/// that it reaches exceeds 64 bits: the desired A amount times reserve B;
/// on the A-led path (the optimal B amount within the desired one and the
/// minimum) the desired A amount times the claim supply; on the B-led path
/// the desired B amount times reserve A. It fails so too when the deposit
/// would carry a reserve or the claim supply past 64 bits.
pub proof fn lemma_deposit_overflow_rejected(
    p: Pool,
    amount_a_desired: u64,
    amount_b_desired: u64,
    amount_a_min: u64,
    amount_b_min: u64,
)
    requires
        p.wf(),
    ensures
        !p.is_empty() && amount_a_desired * p.token_b_reserve > u64::MAX ==> deposit_result(
            p,
            amount_a_desired,
            amount_b_desired,
            amount_a_min,
            amount_b_min,
        ) == Err::<Deposit, AmmError>(AmmError::ArithmeticError),
        !p.is_empty() && amount_a_desired * p.token_b_reserve <= u64::MAX && amount_b_min
            <= amount_a_desired * p.token_b_reserve / (p.token_a_reserve as int) <= amount_b_desired
            && amount_a_desired * p.lp_token_supply > u64::MAX ==> deposit_result(
            p,
            amount_a_desired,
            amount_b_desired,
            amount_a_min,
            amount_b_min,
        ) == Err::<Deposit, AmmError>(AmmError::ArithmeticError),
        !p.is_empty() && amount_a_desired * p.token_b_reserve <= u64::MAX && amount_a_desired
            * p.token_b_reserve / (p.token_a_reserve as int) > amount_b_desired && amount_b_desired
            * p.token_a_reserve > u64::MAX ==> deposit_result(
            p,
            amount_a_desired,
            amount_b_desired,
            amount_a_min,
            amount_b_min,
        ) == Err::<Deposit, AmmError>(AmmError::ArithmeticError),
        deposit_amounts(p, amount_a_desired, amount_b_desired, amount_a_min, amount_b_min) matches Ok(d)
            && !deposit_fits(p, d) ==> deposit_result(
            p,
            amount_a_desired,
            amount_b_desired,
            amount_a_min,
            amount_b_min,
        ) == Err::<Deposit, AmmError>(AmmError::ArithmeticError),
{
}

} // verus!
