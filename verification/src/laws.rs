//! Pool-level laws that relate several operations, proved against the
//! engine's transition functions.

use vstd::prelude::*;

use vstd::arithmetic::div_mod::{
    lemma_div_is_ordered, lemma_div_multiples_vanish, lemma_div_pos_is_pos,
    lemma_fundamental_div_mod, lemma_mod_bound,
};
use vstd::arithmetic::mul::{
    lemma_mul_inequality, lemma_mul_inequality_converse, lemma_mul_is_commutative,
    lemma_mul_nonnegative,
};

use crate::engine::{
    spec_add_liquidity, spec_remove_liquidity, spec_share_quote, PROPORTION_SCALE,
    WITHDRAWAL_COOLDOWN,
};
use crate::errors::SwapError;
use crate::pool::{AddLiquidity, LiquidityPool, RemoveLiquidity};

verus! {

/// A deposit refreshes the cooldown gate: after any successful deposit at
/// time `t_dep`, every withdrawal attempted before `t_dep + 300` fails with
/// `WithdrawalTooSoon`, regardless of the amounts or reserves involved.
pub proof fn lemma_cooldown_blocks_withdrawal(
    pool: LiquidityPool,
    dep_req: AddLiquidity,
    amount_a: u64,
    amount_b: u64,
    t_dep: i64,
    wd_req: RemoveLiquidity,
    shares: u64,
    t_wd: i64,
)
    requires
        spec_add_liquidity(pool, dep_req, amount_a, amount_b, t_dep).0 is Ok,
        t_wd < t_dep + WITHDRAWAL_COOLDOWN,
    ensures
        spec_remove_liquidity(
            spec_add_liquidity(pool, dep_req, amount_a, amount_b, t_dep).1,
            wd_req,
            shares,
            t_wd,
        ).0 == Err::<(u64, u64), SwapError>(SwapError::WithdrawalTooSoon),
{
}

/// Chained floor divisions never round up: if `s` of `t` outstanding units
/// claim at most the fraction `a / r` of a reserve `r` (that is,
/// `s * r <= a * t`), then scaling `s / t` to fixed point by `scale` and
/// paying the reserve out by that fixed-point fraction stays within `a`.
proof fn lemma_chained_floor_le(s: int, t: int, r: int, a: int, scale: int)
    requires
        0 < t,
        0 < scale,
        0 <= s,
        0 <= r,
        0 <= a,
        s * r <= a * t,
    ensures
        ((s * scale) / t * r) / scale <= a,
{
    let p: int = (s * scale) / t;
    lemma_mul_nonnegative(s, scale);
    lemma_div_pos_is_pos(s * scale, t);
    lemma_fundamental_div_mod(s * scale, t);
    lemma_mod_bound(s * scale, t);
    assert(t * p <= s * scale);
    assert((p * r) * t <= (a * scale) * t) by (nonlinear_arith)
        requires
            t * p <= s * scale,
            s * r <= a * t,
            0 <= r,
            0 <= s,
            0 < scale,
            0 < t,
    ;
    lemma_mul_inequality_converse(p * r, a * scale, t);
    lemma_div_is_ordered(p * r, a * scale, scale);
    lemma_mul_is_commutative(a, scale);
    lemma_div_multiples_vanish(a, scale);
}

/// Round-trip bound: depositing `(amount_a, amount_b)` and then — once the
/// cooldown has elapsed — withdrawing exactly the freshly issued shares,
/// against reserves grown by exactly that deposit, returns at most
/// `amount_a` of asset A and at most `amount_b` of asset B. Floor rounding
/// never pays out more than was contributed.
///
/// The pool must have shares outstanding after the deposit (an empty first
/// deposit leaves nothing to withdraw), and a pool with no shares
/// outstanding must hold no reserves: shares issued by the first-deposit
/// formula also redeem balances donated beforehand, so amounts donated
/// while `total_liquidity` was zero are not covered by the bound.
pub proof fn lemma_round_trip_bound(
    pool: LiquidityPool,
    dep_req: AddLiquidity,
    amount_a: u64,
    amount_b: u64,
    t_dep: i64,
    issued: u64,
    wd_req: RemoveLiquidity,
    t_wd: i64,
)
    requires
        pool.total_liquidity == 0 ==> dep_req.pool_token_a_amount == 0
            && dep_req.pool_token_b_amount == 0,
        spec_add_liquidity(pool, dep_req, amount_a, amount_b, t_dep).0 == Ok::<u64, SwapError>(
            issued,
        ),
        pool.total_liquidity + issued > 0,
        wd_req.pool_token_a_amount == dep_req.pool_token_a_amount + amount_a,
        wd_req.pool_token_b_amount == dep_req.pool_token_b_amount + amount_b,
        t_wd >= t_dep + WITHDRAWAL_COOLDOWN,
    ensures
        ({
            let out = spec_remove_liquidity(
                spec_add_liquidity(pool, dep_req, amount_a, amount_b, t_dep).1,
                wd_req,
                issued,
                t_wd,
            ).0;
            &&& out is Ok
            &&& out->Ok_0.0 <= amount_a
            &&& out->Ok_0.1 <= amount_b
        }),
{
    let pool1 = spec_add_liquidity(pool, dep_req, amount_a, amount_b, t_dep).1;
    let t: int = pool1.total_liquidity as int;
    let ra_after: int = wd_req.pool_token_a_amount as int;
    let rb_after: int = wd_req.pool_token_b_amount as int;
    if pool.total_liquidity == 0 {
        assert(issued as int * ra_after <= amount_a as int * t) by (nonlinear_arith)
            requires
                ra_after == amount_a as int,
                t == issued as int,
        ;
        assert(issued as int * rb_after <= amount_b as int * t) by (nonlinear_arith)
            requires
                rb_after == amount_b as int,
                t == issued as int,
        ;
    } else {
        let supply: u64 = pool.total_liquidity;
        let ra: u64 = dep_req.pool_token_a_amount;
        let rb: u64 = dep_req.pool_token_b_amount;
        let qa: int = spec_share_quote(amount_a, supply, ra);
        let qb: int = spec_share_quote(amount_b, supply, rb);
        lemma_mul_nonnegative(amount_a as int, supply as int);
        lemma_mul_nonnegative(amount_b as int, supply as int);
        lemma_div_pos_is_pos(amount_a as int * supply as int, ra as int);
        lemma_div_pos_is_pos(amount_b as int * supply as int, rb as int);
        lemma_fundamental_div_mod(amount_a as int * supply as int, ra as int);
        lemma_mod_bound(amount_a as int * supply as int, ra as int);
        lemma_fundamental_div_mod(amount_b as int * supply as int, rb as int);
        lemma_mod_bound(amount_b as int * supply as int, rb as int);
        assert(ra as int * qa <= amount_a as int * supply as int);
        assert(rb as int * qb <= amount_b as int * supply as int);
        lemma_mul_inequality(issued as int, qa, ra as int);
        lemma_mul_inequality(issued as int, qb, rb as int);
        lemma_mul_is_commutative(qa, ra as int);
        lemma_mul_is_commutative(qb, rb as int);
        assert(issued as int * ra_after <= amount_a as int * t) by (nonlinear_arith)
            requires
                issued as int * ra as int <= amount_a as int * supply as int,
                ra_after == ra as int + amount_a as int,
                t == supply as int + issued as int,
                0 <= issued as int,
                0 <= amount_a as int,
        ;
        assert(issued as int * rb_after <= amount_b as int * t) by (nonlinear_arith)
            requires
                issued as int * rb as int <= amount_b as int * supply as int,
                rb_after == rb as int + amount_b as int,
                t == supply as int + issued as int,
                0 <= issued as int,
                0 <= amount_b as int,
        ;
    }
    lemma_chained_floor_le(issued as int, t, ra_after, amount_a as int, PROPORTION_SCALE as int);
    lemma_chained_floor_le(issued as int, t, rb_after, amount_b as int, PROPORTION_SCALE as int);
    crate::engine::lemma_proportion_le_scale(issued as int, t, PROPORTION_SCALE as int);
    crate::engine::lemma_withdraw_le_reserve(
        (issued as int * PROPORTION_SCALE as int) / t,
        ra_after,
        PROPORTION_SCALE as int,
    );
    crate::engine::lemma_withdraw_le_reserve(
        (issued as int * PROPORTION_SCALE as int) / t,
        rb_after,
        PROPORTION_SCALE as int,
    );
}

/// Reading the engine is idempotent for deposits: the outcome is a
/// function of the pool state and the inputs alone, so two calls on
/// identical state with identical inputs produce identical results and
/// identical successor states.
pub proof fn lemma_add_liquidity_deterministic(
    pool: LiquidityPool,
    req: AddLiquidity,
    amount_a: u64,
    amount_b: u64,
    now: i64,
    first: (Result<u64, SwapError>, LiquidityPool),
    second: (Result<u64, SwapError>, LiquidityPool),
)
    requires
        first == spec_add_liquidity(pool, req, amount_a, amount_b, now),
        second == spec_add_liquidity(pool, req, amount_a, amount_b, now),
    ensures
        first == second,
{
}

/// Reading the engine is idempotent for withdrawals, exactly as for
/// deposits: identical state and identical inputs give identical outcomes.
pub proof fn lemma_remove_liquidity_deterministic(
    pool: LiquidityPool,
    req: RemoveLiquidity,
    shares: u64,
    now: i64,
    first: (Result<(u64, u64), SwapError>, LiquidityPool),
    second: (Result<(u64, u64), SwapError>, LiquidityPool),
)
    requires
        first == spec_remove_liquidity(pool, req, shares, now),
        second == spec_remove_liquidity(pool, req, shares, now),
    ensures
        first == second,
{
}

} // verus!
