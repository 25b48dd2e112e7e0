use token2022_amm::deposit::{add_liquidity, quote_add_liquidity, Deposit};
use token2022_amm::pool::{initialize_pool, AccountKey, AmmError, Pool};
use token2022_amm::swap::{quote_swap, swap, SwapOutcome};
use token2022_amm::withdraw::{quote_remove_liquidity, remove_liquidity, Withdrawal};

fn key(b: u8) -> AccountKey {
    AccountKey { bytes: [b; 32] }
}

fn new_pool(fee_rate: u64) -> Pool {
    initialize_pool(key(1), key(2), key(3), key(4), key(5), key(6), fee_rate, 254).unwrap()
}

fn pool_with(reserve_a: u64, reserve_b: u64, supply: u64, fee_rate: u64) -> Pool {
    let mut p = new_pool(fee_rate);
    p.token_a_reserve = reserve_a;
    p.token_b_reserve = reserve_b;
    p.lp_token_supply = supply;
    p
}

fn balances(p: &Pool) -> (u64, u64, u64) {
    (p.token_a_reserve, p.token_b_reserve, p.lp_token_supply)
}

fn is_consistent(p: &Pool) -> bool {
    (p.token_a_reserve == 0) == (p.token_b_reserve == 0)
        && (p.token_b_reserve == 0) == (p.lp_token_supply == 0)
}

#[test]
fn initialize_pool_starts_empty() {
    let p = new_pool(30);
    assert_eq!(balances(&p), (0, 0, 0));
    assert_eq!(p.fee_rate, 30);
    assert_eq!(p.bump, 254);
    assert_eq!(p.token_a_mint.bytes, [2u8; 32]);
    assert_eq!(p.lp_token_mint.bytes, [6u8; 32]);
}

#[test]
fn initialize_pool_accepts_fee_cap() {
    assert!(initialize_pool(key(1), key(2), key(3), key(4), key(5), key(6), 1000, 1).is_ok());
}

#[test]
fn initialize_pool_rejects_fee_above_cap() {
    let r = initialize_pool(key(1), key(2), key(3), key(4), key(5), key(6), 1001, 1);
    assert_eq!(r.err(), Some(AmmError::InvalidFeeRate));
}

#[test]
fn seeding_below_floor_fails() {
    let mut p = new_pool(30);
    let r = add_liquidity(&mut p, 1000, 1000, 0, 0, true);
    assert_eq!(r, Err(AmmError::InsufficientLiquidity));
    assert_eq!(balances(&p), (0, 0, 0));
}

#[test]
fn seeding_succeeds() {
    let mut p = new_pool(30);
    let r = add_liquidity(&mut p, 10000, 10000, 0, 0, true);
    assert_eq!(r, Ok(Deposit { amount_a: 10000, amount_b: 10000, lp_tokens: 9000 }));
    assert_eq!(balances(&p), (10000, 10000, 9000));
}

#[test]
fn seeding_rounds_square_root_down() {
    let mut p = new_pool(30);
    // 2000 * 3000 = 6_000_000, whose square root is 2449.48...
    let r = add_liquidity(&mut p, 2000, 3000, 0, 0, true);
    assert_eq!(r, Ok(Deposit { amount_a: 2000, amount_b: 3000, lp_tokens: 1449 }));
}

#[test]
fn seeding_with_largest_amounts() {
    let mut p = new_pool(0);
    let r = add_liquidity(&mut p, u64::MAX, u64::MAX, 0, 0, true);
    assert_eq!(r, Ok(Deposit { amount_a: u64::MAX, amount_b: u64::MAX, lp_tokens: u64::MAX - 1000 }));
}

#[test]
fn seeding_requires_both_amounts() {
    let mut p = new_pool(30);
    assert_eq!(add_liquidity(&mut p, 0, 5000, 0, 0, true), Err(AmmError::InsufficientAmount));
    assert_eq!(add_liquidity(&mut p, 5000, 0, 0, 0, true), Err(AmmError::InsufficientAmount));
    assert_eq!(balances(&p), (0, 0, 0));
}

#[test]
fn proportional_deposit_led_by_a() {
    let mut p = pool_with(10000, 20000, 9000, 30);
    let r = add_liquidity(&mut p, 5000, 20000, 0, 0, true);
    assert_eq!(r, Ok(Deposit { amount_a: 5000, amount_b: 10000, lp_tokens: 4500 }));
    assert_eq!(balances(&p), (15000, 30000, 13500));
}

#[test]
fn proportional_deposit_led_by_b() {
    let mut p = pool_with(10000, 20000, 9000, 30);
    let r = add_liquidity(&mut p, 10000, 5000, 0, 0, true);
    assert_eq!(r, Ok(Deposit { amount_a: 2500, amount_b: 5000, lp_tokens: 2250 }));
    assert_eq!(balances(&p), (12500, 25000, 11250));
}

#[test]
fn proportional_deposit_below_b_minimum() {
    let mut p = pool_with(10000, 20000, 9000, 30);
    let r = add_liquidity(&mut p, 5000, 20000, 0, 10001, true);
    assert_eq!(r, Err(AmmError::InsufficientAmount));
    assert_eq!(balances(&p), (10000, 20000, 9000));
}

#[test]
fn proportional_deposit_below_a_minimum() {
    let mut p = pool_with(10000, 20000, 9000, 30);
    let r = add_liquidity(&mut p, 10000, 5000, 2501, 0, true);
    assert_eq!(r, Err(AmmError::InsufficientAmount));
    assert_eq!(balances(&p), (10000, 20000, 9000));
}

#[test]
fn deposit_overflow_is_rejected() {
    let mut p = pool_with(1, u64::MAX, 1, 30);
    let r = add_liquidity(&mut p, 2, 0, 0, 0, true);
    assert_eq!(r, Err(AmmError::ArithmeticError));
    assert_eq!(balances(&p), (1, u64::MAX, 1));
}

#[test]
fn deposit_reserve_overflow_is_rejected() {
    let mut p = pool_with(u64::MAX - 10, 1, 1, 30);
    assert_eq!(quote_add_liquidity(&p, 5, 1, 0, 0), Ok(Deposit { amount_a: 5, amount_b: 0, lp_tokens: 0 }));
    let r = add_liquidity(&mut p, 20, 1, 0, 0, true);
    assert_eq!(r, Err(AmmError::ArithmeticError));
    assert_eq!(balances(&p), (u64::MAX - 10, 1, 1));
}

#[test]
fn deposit_transfer_failure_leaves_pool() {
    let mut p = pool_with(10000, 20000, 9000, 30);
    let r = add_liquidity(&mut p, 5000, 20000, 0, 0, false);
    assert_eq!(r, Err(AmmError::TransferFailed));
    assert_eq!(balances(&p), (10000, 20000, 9000));
}

#[test]
fn quote_deposit_leaves_pool() {
    let p = pool_with(10000, 20000, 9000, 30);
    let r = quote_add_liquidity(&p, 5000, 20000, 0, 0);
    assert_eq!(r, Ok(Deposit { amount_a: 5000, amount_b: 10000, lp_tokens: 4500 }));
    assert_eq!(balances(&p), (10000, 20000, 9000));
}

#[test]
fn withdraw_share() {
    let mut p = pool_with(15000, 30000, 13500, 30);
    let r = remove_liquidity(&mut p, 4500, 0, 0, true);
    assert_eq!(r, Ok(Withdrawal { amount_a: 5000, amount_b: 10000 }));
    assert_eq!(balances(&p), (10000, 20000, 9000));
}

#[test]
fn full_withdrawal_empties_pool() {
    let mut p = new_pool(30);
    add_liquidity(&mut p, 10000, 10000, 0, 0, true).unwrap();
    let supply = p.lp_token_supply;
    let r = remove_liquidity(&mut p, supply, 0, 0, true);
    assert_eq!(r, Ok(Withdrawal { amount_a: 10000, amount_b: 10000 }));
    assert_eq!(balances(&p), (0, 0, 0));
}

#[test]
fn withdraw_from_empty_pool_fails() {
    let mut p = new_pool(30);
    assert_eq!(remove_liquidity(&mut p, 1, 0, 0, true), Err(AmmError::ArithmeticError));
}

#[test]
fn withdraw_more_than_supply_fails() {
    let mut p = pool_with(10000, 10000, 9000, 30);
    assert_eq!(remove_liquidity(&mut p, 9001, 0, 0, true), Err(AmmError::ArithmeticError));
    assert_eq!(balances(&p), (10000, 10000, 9000));
}

#[test]
fn withdraw_below_minimum_fails() {
    let mut p = pool_with(10000, 10000, 9000, 30);
    assert_eq!(remove_liquidity(&mut p, 4500, 5001, 0, true), Err(AmmError::InsufficientAmount));
    assert_eq!(remove_liquidity(&mut p, 4500, 0, 5001, true), Err(AmmError::InsufficientAmount));
    assert_eq!(balances(&p), (10000, 10000, 9000));
}

#[test]
fn withdraw_overflow_is_rejected() {
    let mut p = pool_with(u64::MAX, u64::MAX, 10, 30);
    assert_eq!(remove_liquidity(&mut p, 2, 0, 0, true), Err(AmmError::ArithmeticError));
    assert_eq!(balances(&p), (u64::MAX, u64::MAX, 10));
}

#[test]
fn withdraw_transfer_failure_leaves_pool() {
    let mut p = pool_with(15000, 30000, 13500, 30);
    assert_eq!(remove_liquidity(&mut p, 4500, 0, 0, false), Err(AmmError::TransferFailed));
    assert_eq!(balances(&p), (15000, 30000, 13500));
}

#[test]
fn quote_withdraw_leaves_pool() {
    let p = pool_with(15000, 30000, 13500, 30);
    assert_eq!(quote_remove_liquidity(&p, 4500, 0, 0), Ok(Withdrawal { amount_a: 5000, amount_b: 10000 }));
    assert_eq!(balances(&p), (15000, 30000, 13500));
}

#[test]
fn round_trip_never_favours_depositor() {
    let mut p = pool_with(10000, 20000, 9000, 30);
    let d = add_liquidity(&mut p, 3333, 7777, 0, 0, true).unwrap();
    assert_eq!(d, Deposit { amount_a: 3333, amount_b: 6666, lp_tokens: 2999 });
    let w = remove_liquidity(&mut p, d.lp_tokens, 0, 0, true).unwrap();
    assert_eq!(w, Withdrawal { amount_a: 3332, amount_b: 6664 });
    assert!(w.amount_a <= d.amount_a && w.amount_b <= d.amount_b);
}

#[test]
fn round_trip_on_seeding() {
    let mut p = new_pool(30);
    let d = add_liquidity(&mut p, 12345, 67890, 0, 0, true).unwrap();
    let w = remove_liquidity(&mut p, d.lp_tokens, 0, 0, true).unwrap();
    assert_eq!(w, Withdrawal { amount_a: 12345, amount_b: 67890 });
}

#[test]
fn swap_a_to_b() {
    let mut p = pool_with(10000, 10000, 9000, 30);
    let r = swap(&mut p, 1000, 0, true, true);
    assert_eq!(r, Ok(SwapOutcome { amount_out: 906, fee: 3 }));
    assert_eq!(balances(&p), (11000, 9094, 9000));
}

#[test]
fn swap_b_to_a() {
    let mut p = pool_with(10000, 10000, 9000, 30);
    let r = swap(&mut p, 1000, 0, false, true);
    assert_eq!(r, Ok(SwapOutcome { amount_out: 906, fee: 3 }));
    assert_eq!(balances(&p), (9094, 11000, 9000));
}

#[test]
fn swap_product_does_not_decrease() {
    let cases: [(u64, u64, u64, u64, bool); 4] = [
        (10000, 10000, 30, 1000, true),
        (12345, 999, 1000, 777, false),
        (5, 7, 1, 3, true),
        (1_000_000, 3, 250, 50_000, true),
    ];
    for (ra, rb, fee, amount_in, a_to_b) in cases {
        let mut p = pool_with(ra, rb, 100, fee);
        let before = (ra as u128) * (rb as u128);
        if swap(&mut p, amount_in, 0, a_to_b, true).is_ok() {
            let after = (p.token_a_reserve as u128) * (p.token_b_reserve as u128);
            assert!(after >= before);
        }
    }
}

#[test]
fn swap_below_minimum_output_fails() {
    let mut p = pool_with(10000, 10000, 9000, 30);
    assert_eq!(swap(&mut p, 1000, 907, true, true), Err(AmmError::InsufficientOutputAmount));
    assert_eq!(balances(&p), (10000, 10000, 9000));
}

#[test]
fn swap_on_empty_pool_fails() {
    let mut p = new_pool(30);
    assert_eq!(swap(&mut p, 1000, 0, true, true), Err(AmmError::InsufficientLiquidity));
    assert_eq!(balances(&p), (0, 0, 0));
}

#[test]
fn swap_of_nothing_on_empty_pool_fails() {
    let mut p = new_pool(30);
    assert_eq!(swap(&mut p, 0, 0, true, true), Err(AmmError::ArithmeticError));
}

#[test]
fn swap_overflow_is_rejected() {
    let mut p = pool_with(10000, 10000, 9000, 30);
    assert_eq!(swap(&mut p, u64::MAX / 100, 0, true, true), Err(AmmError::ArithmeticError));
    let mut q = pool_with(10000, u64::MAX / 2, 9000, 30);
    assert_eq!(swap(&mut q, 1000, 0, true, true), Err(AmmError::ArithmeticError));
    assert_eq!(balances(&q), (10000, u64::MAX / 2, 9000));
}

#[test]
fn swap_transfer_failure_leaves_pool() {
    let mut p = pool_with(10000, 10000, 9000, 30);
    assert_eq!(swap(&mut p, 1000, 0, true, false), Err(AmmError::TransferFailed));
    assert_eq!(balances(&p), (10000, 10000, 9000));
}

#[test]
fn quote_swap_leaves_pool() {
    let p = pool_with(10000, 10000, 9000, 30);
    assert_eq!(quote_swap(&p, 1000, 0, true), Ok(SwapOutcome { amount_out: 906, fee: 3 }));
    assert_eq!(balances(&p), (10000, 10000, 9000));
}

#[test]
fn invariant_holds_through_a_sequence() {
    let mut p = new_pool(30);
    assert!(is_consistent(&p));
    let _ = add_liquidity(&mut p, 1000, 1000, 0, 0, true);
    assert!(is_consistent(&p));
    add_liquidity(&mut p, 50000, 80000, 0, 0, true).unwrap();
    assert!(is_consistent(&p));
    add_liquidity(&mut p, 1234, 99999, 0, 0, true).unwrap();
    assert!(is_consistent(&p));
    swap(&mut p, 7000, 0, true, true).unwrap();
    assert!(is_consistent(&p));
    swap(&mut p, 9000, 0, false, true).unwrap();
    assert!(is_consistent(&p));
    let half = p.lp_token_supply / 2;
    remove_liquidity(&mut p, half, 0, 0, true).unwrap();
    assert!(is_consistent(&p));
    let rest = p.lp_token_supply;
    remove_liquidity(&mut p, rest, 0, 0, true).unwrap();
    assert!(is_consistent(&p));
    assert_eq!(balances(&p), (0, 0, 0));
}
