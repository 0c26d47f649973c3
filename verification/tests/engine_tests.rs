use token_swap::engine::{add_liquidity, initialize_pool, remove_liquidity, swap, SwapOutcome};
use token_swap::errors::SwapError;
use token_swap::pool::{
    AccountId, AddLiquidity, InitializePool, LiquidityPool, RemoveLiquidity, Swap,
};

fn id(value: u64) -> AccountId {
    AccountId { value }
}

fn fresh_pool(total_liquidity: u64, last_deposit_time: i64) -> LiquidityPool {
    LiquidityPool {
        pool_authority: id(1),
        token_a: id(2),
        token_b: id(3),
        mint_a: id(4),
        mint_b: id(5),
        fee_percentage: 30,
        total_liquidity,
        admin_fee_account: None,
        last_deposit_time,
    }
}

fn deposit_request(reserve_a: u64, reserve_b: u64) -> AddLiquidity {
    AddLiquidity {
        token_a: id(2),
        token_b: id(3),
        pool_token_a_amount: reserve_a,
        pool_token_b_amount: reserve_b,
    }
}

fn withdraw_request(reserve_a: u64, reserve_b: u64) -> RemoveLiquidity {
    RemoveLiquidity {
        pool_token_a_amount: reserve_a,
        pool_token_b_amount: reserve_b,
    }
}

#[test]
fn initialize_pool_sets_fields() {
    let ctx = InitializePool {
        pool_authority: id(11),
        token_a: id(12),
        token_b: id(13),
        mint_a: id(14),
        mint_b: id(15),
    };
    let pool = initialize_pool(&ctx, 25, Some(id(16)), 7_000);
    assert_eq!(pool.pool_authority, id(11));
    assert_eq!(pool.token_a, id(12));
    assert_eq!(pool.token_b, id(13));
    assert_eq!(pool.mint_a, id(14));
    assert_eq!(pool.mint_b, id(15));
    assert_eq!(pool.fee_percentage, 25);
    assert_eq!(pool.admin_fee_account, Some(id(16)));
    assert_eq!(pool.total_liquidity, 0);
    assert_eq!(pool.last_deposit_time, 7_000);
}

#[test]
fn first_deposit_issues_sum_of_amounts() {
    let mut pool = fresh_pool(0, 0);
    let result = add_liquidity(&mut pool, &deposit_request(0, 0), 1000, 500, 10);
    assert_eq!(result, Ok(1500));
    assert_eq!(pool.total_liquidity, 1500);
    assert_eq!(pool.last_deposit_time, 10);
}

#[test]
fn first_deposit_of_nothing_issues_nothing() {
    let mut pool = fresh_pool(0, 0);
    let result = add_liquidity(&mut pool, &deposit_request(0, 0), 0, 0, 10);
    assert_eq!(result, Ok(0));
    assert_eq!(pool.total_liquidity, 0);
    assert_eq!(pool.last_deposit_time, 10);
}

#[test]
fn subsequent_deposit_issues_min_of_quotes() {
    let mut pool = fresh_pool(1500, 10);
    let result = add_liquidity(&mut pool, &deposit_request(1000, 500), 500, 500, 20);
    // share_a = 500 * 1500 / 1000 = 750, share_b = 500 * 1500 / 500 = 1500
    assert_eq!(result, Ok(750));
    assert_eq!(pool.total_liquidity, 2250);
    assert_eq!(pool.last_deposit_time, 20);
}

#[test]
fn mismatched_token_pair_fails() {
    let mut pool = fresh_pool(1500, 10);
    let before = pool;
    let request = AddLiquidity {
        token_a: id(99),
        token_b: id(3),
        pool_token_a_amount: 1000,
        pool_token_b_amount: 500,
    };
    let result = add_liquidity(&mut pool, &request, 500, 500, 20);
    assert_eq!(result, Err(SwapError::InvalidTokenPair));
    assert_eq!(pool, before);
}

#[test]
fn zero_reserve_on_subsequent_deposit_fails() {
    let mut pool = fresh_pool(1500, 10);
    let before = pool;
    let result = add_liquidity(&mut pool, &deposit_request(0, 500), 500, 500, 20);
    assert_eq!(result, Err(SwapError::InvalidPoolState));
    assert_eq!(pool, before);

    let result = add_liquidity(&mut pool, &deposit_request(1000, 0), 500, 500, 20);
    assert_eq!(result, Err(SwapError::InvalidPoolState));
    assert_eq!(pool, before);
}

#[test]
fn first_deposit_overflow_fails() {
    let mut pool = fresh_pool(0, 0);
    let before = pool;
    let result = add_liquidity(&mut pool, &deposit_request(0, 0), u64::MAX, 1, 10);
    assert_eq!(result, Err(SwapError::ArithmeticOverflow));
    assert_eq!(pool, before);
}

#[test]
fn share_quote_overflow_fails() {
    // 2 * (u64::MAX - 1) / 1 exceeds u64::MAX.
    let mut pool = fresh_pool(u64::MAX - 1, 0);
    let before = pool;
    let result = add_liquidity(&mut pool, &deposit_request(1, 1), 2, 2, 10);
    assert_eq!(result, Err(SwapError::ArithmeticOverflow));
    assert_eq!(pool, before);
}

#[test]
fn share_supply_overflow_fails() {
    // Quotes are 2 each, but u64::MAX - 1 + 2 exceeds u64::MAX.
    let reserve = u64::MAX - 1;
    let mut pool = fresh_pool(u64::MAX - 1, 0);
    let before = pool;
    let result = add_liquidity(&mut pool, &deposit_request(reserve, reserve), 2, 2, 10);
    assert_eq!(result, Err(SwapError::ArithmeticOverflow));
    assert_eq!(pool, before);
}

#[test]
fn withdrawal_during_cooldown_fails() {
    let mut pool = fresh_pool(1500, 100);
    let before = pool;
    // 399 is one unit short of 100 + 300, whatever the amount burnt.
    for shares in [0, 1, 750, 1500] {
        let result = remove_liquidity(&mut pool, &withdraw_request(1000, 500), shares, 399);
        assert_eq!(result, Err(SwapError::WithdrawalTooSoon));
        assert_eq!(pool, before);
    }
}

#[test]
fn withdrawal_at_cooldown_boundary_succeeds() {
    let mut pool = fresh_pool(1500, 100);
    let result = remove_liquidity(&mut pool, &withdraw_request(1000, 500), 1500, 400);
    // proportion = 1_000_000; the whole reserve is paid out.
    assert_eq!(result, Ok((1000, 500)));
    assert_eq!(pool.total_liquidity, 0);
}

#[test]
fn withdrawal_pays_floor_proportions() {
    let mut pool = fresh_pool(2250, 20);
    let result = remove_liquidity(&mut pool, &withdraw_request(1500, 1000), 750, 320);
    // proportion = 750 * 1_000_000 / 2250 = 333_333
    // withdraw_a = 333_333 * 1500 / 1_000_000 = 499
    // withdraw_b = 333_333 * 1000 / 1_000_000 = 333
    assert_eq!(result, Ok((499, 333)));
    assert_eq!(pool.total_liquidity, 1500);
    assert_eq!(pool.last_deposit_time, 20);
}

#[test]
fn withdrawing_more_than_outstanding_fails() {
    let mut pool = fresh_pool(1500, 100);
    let before = pool;
    let result = remove_liquidity(&mut pool, &withdraw_request(1000, 500), 1501, 400);
    assert_eq!(result, Err(SwapError::InsufficientShares));
    assert_eq!(pool, before);
}

#[test]
fn withdrawing_from_empty_pool_fails() {
    let mut pool = fresh_pool(0, 100);
    let before = pool;
    let result = remove_liquidity(&mut pool, &withdraw_request(1000, 500), 0, 400);
    assert_eq!(result, Err(SwapError::InvalidPoolState));
    assert_eq!(pool, before);
}

#[test]
fn withdrawing_zero_shares_pays_nothing() {
    let mut pool = fresh_pool(1500, 100);
    let result = remove_liquidity(&mut pool, &withdraw_request(1000, 500), 0, 400);
    assert_eq!(result, Ok((0, 0)));
    assert_eq!(pool.total_liquidity, 1500);
}

#[test]
fn round_trip_never_exceeds_contribution() {
    let mut pool = fresh_pool(1000, 0);
    let issued = add_liquidity(&mut pool, &deposit_request(4000, 9000), 400, 900, 50).unwrap();
    assert_eq!(issued, 100);
    assert_eq!(pool.total_liquidity, 1100);
    // Reserves after the transfers: (4400, 9900); withdraw the fresh shares.
    let (back_a, back_b) =
        remove_liquidity(&mut pool, &withdraw_request(4400, 9900), issued, 350).unwrap();
    assert!(back_a <= 400);
    assert!(back_b <= 900);
    // proportion = 100 * 1_000_000 / 1100 = 90_909
    assert_eq!((back_a, back_b), (399, 899));
    assert_eq!(pool.total_liquidity, 1000);
}

#[test]
fn identical_state_and_inputs_give_identical_outputs() {
    let mut first_pool = fresh_pool(1500, 10);
    let mut second_pool = fresh_pool(1500, 10);
    let first = add_liquidity(&mut first_pool, &deposit_request(1000, 500), 333, 111, 20);
    let second = add_liquidity(&mut second_pool, &deposit_request(1000, 500), 333, 111, 20);
    assert_eq!(first, second);
    assert_eq!(first_pool, second_pool);

    let mut first_pool = fresh_pool(2250, 20);
    let mut second_pool = fresh_pool(2250, 20);
    let first = remove_liquidity(&mut first_pool, &withdraw_request(1500, 1000), 750, 320);
    let second = remove_liquidity(&mut second_pool, &withdraw_request(1500, 1000), 750, 320);
    assert_eq!(first, second);
    assert_eq!(first_pool, second_pool);
}

#[test]
fn empty_pool_deposit_deposit_withdraw_scenario() {
    // Empty pool: reserves (0, 0), no shares outstanding.
    let ctx = InitializePool {
        pool_authority: id(1),
        token_a: id(2),
        token_b: id(3),
        mint_a: id(4),
        mint_b: id(5),
    };
    let mut pool = initialize_pool(&ctx, 30, None, 0);

    // Deposit (1000, 500): first deposit issues the sum.
    let issued = add_liquidity(&mut pool, &deposit_request(0, 0), 1000, 500, 10).unwrap();
    assert_eq!(issued, 1500);
    assert_eq!(pool.total_liquidity, 1500);

    // Reserves become (1000, 500). Second deposit (500, 500):
    // share_a = 500 * 1500 / 1000 = 750, share_b = 500 * 1500 / 500 = 1500.
    let issued = add_liquidity(&mut pool, &deposit_request(1000, 500), 500, 500, 20).unwrap();
    assert_eq!(issued, 750);
    assert_eq!(pool.total_liquidity, 2250);

    // After the cooldown, remove 750 of 2250 shares against reserves
    // (1500, 1000): proportion = 333_333, pays (499, 333).
    let (back_a, back_b) =
        remove_liquidity(&mut pool, &withdraw_request(1500, 1000), 750, 320).unwrap();
    assert_eq!(back_a, 499);
    assert_eq!(back_b, 333);
    assert_eq!(pool.total_liquidity, 1500);
}

#[test]
fn swap_is_a_reserved_extension_point() {
    let pool = fresh_pool(1500, 10);
    let request = Swap {
        input_token: id(2),
        output_token: id(3),
    };
    let outcome = swap(&pool, &request, 100, 90);
    assert_eq!(outcome, SwapOutcome::NotImplemented);
}
