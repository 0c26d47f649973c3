//! The accounting engine: share issuance for deposits, proportional
//! redemption for withdrawals, pool creation, and the reserved exchange
//! extension point.
//!
//! Every operation is synchronous pure arithmetic over values supplied by
//! the caller and the external collaborators (ledger balances, the clock's
//! timestamp). Each operation's exact outcome — result and successor pool
//! state — is given by a spec-level transition function, and the executable
//! function is proved to return precisely that outcome. Errors are detected
//! before any mutation, so a failing call leaves the pool unchanged.

use vstd::prelude::*;

use vstd::arithmetic::div_mod::{lemma_div_by_multiple, lemma_div_is_ordered, lemma_div_pos_is_pos};
use vstd::arithmetic::mul::{
    lemma_mul_inequality, lemma_mul_is_commutative, lemma_mul_nonnegative, lemma_mul_upper_bound,
};

use crate::errors::SwapError;
use crate::pool::{AccountId, AddLiquidity, InitializePool, LiquidityPool, RemoveLiquidity, Swap};

verus! {

/// Time units that must elapse after the most recent deposit (by anyone)
/// before any withdrawal from the pool is allowed.
pub const WITHDRAWAL_COOLDOWN: i64 = 300;

/// Fixed-point scale used to compute the proportion of the pool a share
/// burn redeems.
pub const PROPORTION_SCALE: u64 = 1_000_000;

/// Do the asset accounts supplied with a deposit match the pair the pool
/// was configured with?
pub open spec fn token_pair_matches(pool: LiquidityPool, req: AddLiquidity) -> bool {
    pool.token_a == req.token_a && pool.token_b == req.token_b
}

/// Has the global deposit cooldown elapsed at time `now`?
pub open spec fn cooldown_elapsed(pool: LiquidityPool, now: i64) -> bool {
    now >= pool.last_deposit_time + WITHDRAWAL_COOLDOWN
}

/// Shares issued by the first deposit into a pool with no shares
/// outstanding: the raw sum of the two amounts. The first depositor sets
/// the pool's price ratio entirely; this formula does not price the two
/// assets against each other, and is deliberately kept as the single place
/// a different bootstrap pricing rule would be substituted.
pub open spec fn spec_first_deposit_shares(amount_a: u64, amount_b: u64) -> int {
    amount_a + amount_b
}

/// Shares supported by one side of a deposit: `floor(amount * total / reserve)`.
/// Meaningful only for a nonzero reserve.
pub open spec fn spec_share_quote(amount: u64, total: u64, reserve: u64) -> int
    recommends
        reserve > 0,
{
    (amount * total) / (reserve as int)
}

/// Shares issued for a deposit into a pool that already has shares
/// outstanding: the minimum of the two per-side quotes, so a depositor
/// cannot mint shares beyond what either side of the contributed ratio
/// supports.
pub open spec fn spec_subsequent_shares(
    amount_a: u64,
    amount_b: u64,
    total: u64,
    reserve_a: u64,
    reserve_b: u64,
) -> int
    recommends
        reserve_a > 0,
        reserve_b > 0,
{
    vstd::math::min(
        spec_share_quote(amount_a, total, reserve_a),
        spec_share_quote(amount_b, total, reserve_b),
    )
}

/// The exact outcome of a deposit: the returned result and the successor
/// pool state. On any error the pool is unchanged.
pub open spec fn spec_add_liquidity(
    pool: LiquidityPool,
    req: AddLiquidity,
    amount_a: u64,
    amount_b: u64,
    now: i64,
) -> (Result<u64, SwapError>, LiquidityPool) {
    if !token_pair_matches(pool, req) {
        (Err(SwapError::InvalidTokenPair), pool)
    } else if pool.total_liquidity == 0 {
        if spec_first_deposit_shares(amount_a, amount_b) > u64::MAX {
            (Err(SwapError::ArithmeticOverflow), pool)
        } else {
            (
                Ok(spec_first_deposit_shares(amount_a, amount_b) as u64),
                (LiquidityPool {
                    total_liquidity: spec_first_deposit_shares(amount_a, amount_b) as u64,
                    last_deposit_time: now,
                    ..pool
                }),
            )
        }
    } else if req.pool_token_a_amount == 0 || req.pool_token_b_amount == 0 {
        (Err(SwapError::InvalidPoolState), pool)
    } else {
        let issued = spec_subsequent_shares(
            amount_a,
            amount_b,
            pool.total_liquidity,
            req.pool_token_a_amount,
            req.pool_token_b_amount,
        );
        if pool.total_liquidity as int + issued > u64::MAX {
            (Err(SwapError::ArithmeticOverflow), pool)
        } else {
            (
                Ok(issued as u64),
                (LiquidityPool {
                    total_liquidity: (pool.total_liquidity as int + issued) as u64,
                    last_deposit_time: now,
                    ..pool
                }),
            )
        }
    }
}

/// The proportion of the pool a burn of `shares` redeems, in units of
/// `PROPORTION_SCALE`: `floor(shares * 1_000_000 / total)`.
pub open spec fn spec_withdraw_proportion(shares: u64, total: u64) -> int
    recommends
        total > 0,
{
    (shares * PROPORTION_SCALE) / (total as int)
}

/// The amount one reserve pays out for a given proportion:
/// `floor(proportion * reserve / 1_000_000)`.
pub open spec fn spec_withdraw_amount(proportion: int, reserve: u64) -> int {
    (proportion * (reserve as int)) / (PROPORTION_SCALE as int)
}

/// The exact outcome of a withdrawal: the returned result and the successor
/// pool state. On any error the pool is unchanged.
pub open spec fn spec_remove_liquidity(
    pool: LiquidityPool,
    req: RemoveLiquidity,
    shares: u64,
    now: i64,
) -> (Result<(u64, u64), SwapError>, LiquidityPool) {
    if !cooldown_elapsed(pool, now) {
        (Err(SwapError::WithdrawalTooSoon), pool)
    } else if shares > pool.total_liquidity {
        (Err(SwapError::InsufficientShares), pool)
    } else if pool.total_liquidity == 0 {
        (Err(SwapError::InvalidPoolState), pool)
    } else {
        let proportion = spec_withdraw_proportion(shares, pool.total_liquidity);
        let withdraw_a = spec_withdraw_amount(proportion, req.pool_token_a_amount);
        let withdraw_b = spec_withdraw_amount(proportion, req.pool_token_b_amount);
        (
            Ok(((withdraw_a as u64), (withdraw_b as u64))),
            (LiquidityPool {
                total_liquidity: (pool.total_liquidity - shares) as u64,
                ..pool
            }),
        )
    }
}

/// A quotient of nonnegative values scaled by `scale` and divided by a
/// bound `total` of the numerator's other factor never exceeds `scale`.
pub(crate) proof fn lemma_proportion_le_scale(shares: int, total: int, scale: int)
    requires
        0 <= shares <= total,
        0 < total,
        0 < scale,
    ensures
        0 <= (shares * scale) / total <= scale,
{
    lemma_mul_nonnegative(shares, scale);
    lemma_div_pos_is_pos(shares * scale, total);
    lemma_mul_inequality(shares, total, scale);
    lemma_div_is_ordered(shares * scale, total * scale, total);
    lemma_mul_is_commutative(total, scale);
    lemma_div_by_multiple(scale, total);
}

/// Paying out a proportion of at most `scale`, in units of `scale`, never
/// exceeds the reserve itself.
pub(crate) proof fn lemma_withdraw_le_reserve(proportion: int, reserve: int, scale: int)
    requires
        0 <= proportion <= scale,
        0 < scale,
        0 <= reserve,
    ensures
        0 <= (proportion * reserve) / scale <= reserve,
{
    lemma_mul_nonnegative(proportion, reserve);
    lemma_div_pos_is_pos(proportion * reserve, scale);
    lemma_mul_inequality(proportion, scale, reserve);
    lemma_div_is_ordered(proportion * reserve, scale * reserve, scale);
    lemma_mul_is_commutative(scale, reserve);
    lemma_div_by_multiple(reserve, scale);
}

/// Computes the shares a deposit of `amount_a` and `amount_b` earns,
/// updates the pool's share supply and deposit timestamp, and returns the
/// issued share count. The caller owes the pool the two amounts in full and
/// the external ledger mints the issued shares; both transfers are
/// authorized only when the call returns `Ok`.
///
/// The result and the successor state are exactly
/// `spec_add_liquidity(*old(pool), *req, amount_a, amount_b, now)`:
/// - a mismatched token pair fails with `InvalidTokenPair`;
/// - the first deposit (no shares outstanding) issues `amount_a + amount_b`
///   shares, or fails with `ArithmeticOverflow` if that sum does not fit;
/// - a subsequent deposit against a zero reserve fails with
///   `InvalidPoolState`, never with a divide fault;
/// - otherwise the minimum of the two proportional quotes is issued, or the
///   call fails with `ArithmeticOverflow` if the new supply would not fit;
/// - every failure leaves the pool unchanged.
pub fn add_liquidity(
    pool: &mut LiquidityPool,
    req: &AddLiquidity,
    amount_a: u64,
    amount_b: u64,
    now: i64,
) -> (result: Result<u64, SwapError>)
    ensures
        result == spec_add_liquidity(*old(pool), *req, amount_a, amount_b, now).0,
        *final(pool) == spec_add_liquidity(*old(pool), *req, amount_a, amount_b, now).1,
        result is Err ==> *final(pool) == *old(pool),
        !token_pair_matches(*old(pool), *req) ==> result == Err::<u64, SwapError>(
            SwapError::InvalidTokenPair,
        ),
        (token_pair_matches(*old(pool), *req) && old(pool).total_liquidity == 0 && amount_a
            + amount_b <= u64::MAX) ==> {
            &&& result == Ok::<u64, SwapError>((amount_a + amount_b) as u64)
            &&& final(pool).total_liquidity == amount_a + amount_b
            &&& final(pool).last_deposit_time == now
        },
        (token_pair_matches(*old(pool), *req) && old(pool).total_liquidity > 0
            && req.pool_token_a_amount > 0 && req.pool_token_b_amount > 0 && old(
            pool,
        ).total_liquidity + spec_subsequent_shares(
            amount_a,
            amount_b,
            old(pool).total_liquidity,
            req.pool_token_a_amount,
            req.pool_token_b_amount,
        ) <= u64::MAX) ==> {
            &&& result == Ok::<u64, SwapError>(
                spec_subsequent_shares(
                    amount_a,
                    amount_b,
                    old(pool).total_liquidity,
                    req.pool_token_a_amount,
                    req.pool_token_b_amount,
                ) as u64,
            )
            &&& final(pool).total_liquidity == old(pool).total_liquidity
                + spec_subsequent_shares(
                amount_a,
                amount_b,
                old(pool).total_liquidity,
                req.pool_token_a_amount,
                req.pool_token_b_amount,
            )
            &&& final(pool).last_deposit_time == now
        },
        (token_pair_matches(*old(pool), *req) && old(pool).total_liquidity > 0 && (
        req.pool_token_a_amount == 0 || req.pool_token_b_amount == 0)) ==> result == Err::<
            u64,
            SwapError,
        >(SwapError::InvalidPoolState),
{
    if !(pool.token_a == req.token_a && pool.token_b == req.token_b) {
        return Err(SwapError::InvalidTokenPair);
    }
    if pool.total_liquidity == 0 {
        if amount_a > u64::MAX - amount_b {
            return Err(SwapError::ArithmeticOverflow);
        }
        let shares: u64 = amount_a + amount_b;
        pool.total_liquidity = shares;
        pool.last_deposit_time = now;
        Ok(shares)
    } else {
        let reserve_a: u64 = req.pool_token_a_amount;
        let reserve_b: u64 = req.pool_token_b_amount;
        if reserve_a == 0 || reserve_b == 0 {
            return Err(SwapError::InvalidPoolState);
        }
        proof {
            lemma_mul_upper_bound(
                amount_a as int,
                u64::MAX as int,
                pool.total_liquidity as int,
                u64::MAX as int,
            );
            lemma_mul_upper_bound(
                amount_b as int,
                u64::MAX as int,
                pool.total_liquidity as int,
                u64::MAX as int,
            );
        }
        let share_a: u128 = (amount_a as u128) * (pool.total_liquidity as u128) / (
        reserve_a as u128);
        let share_b: u128 = (amount_b as u128) * (pool.total_liquidity as u128) / (
        reserve_b as u128);
        let issued128: u128 = if share_a <= share_b {
            share_a
        } else {
            share_b
        };
        if issued128 > (u64::MAX as u128) || (pool.total_liquidity as u128) > (u64::MAX as u128)
            - issued128 {
            return Err(SwapError::ArithmeticOverflow);
        }
        let issued: u64 = issued128 as u64;
        pool.total_liquidity = pool.total_liquidity + issued;
        pool.last_deposit_time = now;
        Ok(issued)
    }
}

/// Computes the proportional redemption for burning `shares`, updates the
/// pool's share supply, and returns the two amounts the pool's reserves pay
/// out. The external ledger transfers the two amounts to the caller under
/// the pool's custody authority and burns the shares; the transfers are
/// authorized only when the call returns `Ok`.
///
/// The result and the successor state are exactly
/// `spec_remove_liquidity(*old(pool), *req, shares, now)`:
/// - before `last_deposit_time + 300` the call fails with
///   `WithdrawalTooSoon`, whatever the amounts;
/// - burning more shares than are outstanding fails with
///   `InsufficientShares`;
/// - a withdrawal from a pool with no shares outstanding fails with
///   `InvalidPoolState`, never with a divide fault;
/// - otherwise each reserve pays `floor(floor(shares * 1_000_000 / total) *
///   reserve / 1_000_000)` — floor rounding throughout, so the pool may
///   retain rounding dust — and the supply shrinks by exactly `shares`;
/// - every failure leaves the pool unchanged.
pub fn remove_liquidity(
    pool: &mut LiquidityPool,
    req: &RemoveLiquidity,
    shares: u64,
    now: i64,
) -> (result: Result<(u64, u64), SwapError>)
    ensures
        result == spec_remove_liquidity(*old(pool), *req, shares, now).0,
        *final(pool) == spec_remove_liquidity(*old(pool), *req, shares, now).1,
        result is Err ==> *final(pool) == *old(pool),
        !cooldown_elapsed(*old(pool), now) ==> result == Err::<(u64, u64), SwapError>(
            SwapError::WithdrawalTooSoon,
        ),
        (cooldown_elapsed(*old(pool), now) && shares <= old(pool).total_liquidity && old(
            pool,
        ).total_liquidity > 0) ==> {
            let proportion = spec_withdraw_proportion(shares, old(pool).total_liquidity);
            &&& result == Ok::<(u64, u64), SwapError>(
                (
                    spec_withdraw_amount(proportion, req.pool_token_a_amount) as u64,
                    spec_withdraw_amount(proportion, req.pool_token_b_amount) as u64,
                ),
            )
            &&& final(pool).total_liquidity == old(pool).total_liquidity - shares
            &&& final(pool).last_deposit_time == old(pool).last_deposit_time
        },
        result matches Ok(w) ==> w.0 <= req.pool_token_a_amount && w.1
            <= req.pool_token_b_amount,
{
    if (now as i128) < (pool.last_deposit_time as i128) + (WITHDRAWAL_COOLDOWN as i128) {
        return Err(SwapError::WithdrawalTooSoon);
    }
    if shares > pool.total_liquidity {
        return Err(SwapError::InsufficientShares);
    }
    if pool.total_liquidity == 0 {
        return Err(SwapError::InvalidPoolState);
    }
    let total: u64 = pool.total_liquidity;
    proof {
        lemma_proportion_le_scale(shares as int, total as int, PROPORTION_SCALE as int);
    }
    let proportion: u128 = (shares as u128) * (PROPORTION_SCALE as u128) / (total as u128);
    proof {
        lemma_withdraw_le_reserve(
            proportion as int,
            req.pool_token_a_amount as int,
            PROPORTION_SCALE as int,
        );
        lemma_withdraw_le_reserve(
            proportion as int,
            req.pool_token_b_amount as int,
            PROPORTION_SCALE as int,
        );
        lemma_mul_upper_bound(
            proportion as int,
            PROPORTION_SCALE as int,
            req.pool_token_a_amount as int,
            u64::MAX as int,
        );
        lemma_mul_upper_bound(
            proportion as int,
            PROPORTION_SCALE as int,
            req.pool_token_b_amount as int,
            u64::MAX as int,
        );
    }
    let withdraw_a: u128 = proportion * (req.pool_token_a_amount as u128) / (PROPORTION_SCALE
        as u128);
    let withdraw_b: u128 = proportion * (req.pool_token_b_amount as u128) / (PROPORTION_SCALE
        as u128);
    pool.total_liquidity = total - shares;
    Ok((withdraw_a as u64, withdraw_b as u64))
}

/// Creates the durable record of a new pool, bound to the supplied accounts
/// and fee policy, with no shares outstanding. `now` is the creation
/// timestamp reported by the clock collaborator; the cooldown gate starts
/// from it.
pub fn initialize_pool(
    ctx: &InitializePool,
    fee_percentage: u16,
    admin_fee_account: Option<AccountId>,
    now: i64,
) -> (pool: LiquidityPool)
    ensures
        pool.pool_authority == ctx.pool_authority,
        pool.token_a == ctx.token_a,
        pool.token_b == ctx.token_b,
        pool.mint_a == ctx.mint_a,
        pool.mint_b == ctx.mint_b,
        pool.fee_percentage == fee_percentage,
        pool.admin_fee_account == admin_fee_account,
        pool.total_liquidity == 0,
        pool.last_deposit_time == now,
{
    LiquidityPool {
        pool_authority: ctx.pool_authority,
        token_a: ctx.token_a,
        token_b: ctx.token_b,
        mint_a: ctx.mint_a,
        mint_b: ctx.mint_b,
        fee_percentage,
        total_liquidity: 0,
        admin_fee_account,
        last_deposit_time: now,
    }
}

/// Outcome of the exchange operation. The pricing curve is a reserved
/// extension point: the only outcome this engine produces is
/// `NotImplemented`, and a future curve would add an executed variant
/// beside it without touching deposit or withdrawal logic.
#[derive(Clone, Copy, Debug, PartialEq, Eq, Structural)]
pub enum SwapOutcome {
    NotImplemented,
}

/// The exchange operation, reserved and unimplemented: it reads nothing,
/// changes nothing, and reports `NotImplemented` for every request.
#[allow(unused_variables)]
pub fn swap(pool: &LiquidityPool, req: &Swap, amount_in: u64, min_out: u64) -> (outcome: SwapOutcome)
    ensures
        outcome == SwapOutcome::NotImplemented,
{
    SwapOutcome::NotImplemented
}

} // verus!
