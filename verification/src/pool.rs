//! The pool record and the plain-value views of the external accounts each
//! operation reads.
//!
//! Account, mint and authority identifiers belong to an external ledger; the
//! engine only ever compares them for identity, so they are modeled here as
//! opaque numeric identifiers. Reserve balances are owned by the ledger too:
//! each request struct carries the balances as reported at the moment of the
//! call, and they are the authoritative basis for the proportional math.

use vstd::prelude::*;

verus! {

/// Identifier of an account, mint or authority held by the external ledger.
/// The engine never looks inside an identifier; it only compares them.
#[derive(Clone, Copy, Debug, PartialEq, Eq, Hash, Structural)]
pub struct AccountId {
    pub value: u64,
}

/// The durable record of one liquidity pool: the single source of truth for
/// the pool's configuration, its outstanding share supply, and the timestamp
/// gating withdrawals.
#[derive(Clone, Copy, Debug, PartialEq, Eq)]
pub struct LiquidityPool {
    /// Custody authority that owns outbound transfers on withdrawal,
    /// derived for the pool by an external collaborator.
    pub pool_authority: AccountId,
    /// The pool's reserve holding account for asset A.
    pub token_a: AccountId,
    /// The pool's reserve holding account for asset B.
    pub token_b: AccountId,
    /// Mint of asset A accepted by this pool.
    pub mint_a: AccountId,
    /// Mint of asset B accepted by this pool.
    pub mint_b: AccountId,
    /// Fee parameter fixed at creation. No operation currently deducts a
    /// fee; the field is reserved configuration, not used by the logic.
    pub fee_percentage: u16,
    /// Total ownership shares outstanding across all holders.
    pub total_liquidity: u64,
    /// Recipient for fee distribution, if one was configured at creation.
    /// Reserved alongside `fee_percentage`; no distribution logic exists.
    pub admin_fee_account: Option<AccountId>,
    /// Timestamp of the most recent deposit into this pool by anyone; the
    /// global cooldown gate for withdrawals is measured from it.
    pub last_deposit_time: i64,
}

/// What pool creation reads from its collaborators: the derived custody
/// authority and the identifiers of the accounts and mints the pool will be
/// bound to.
#[derive(Clone, Copy, Debug, PartialEq, Eq)]
pub struct InitializePool {
    pub pool_authority: AccountId,
    pub token_a: AccountId,
    pub token_b: AccountId,
    pub mint_a: AccountId,
    pub mint_b: AccountId,
}

/// What a deposit reads: the asset account identifiers the caller supplied,
/// which must match the pool's configured pair, and the two reserve balances
/// as reported by the ledger at the moment of the call.
#[derive(Clone, Copy, Debug, PartialEq, Eq)]
pub struct AddLiquidity {
    pub token_a: AccountId,
    pub token_b: AccountId,
    pub pool_token_a_amount: u64,
    pub pool_token_b_amount: u64,
}

/// What a withdrawal reads: the two reserve balances as reported by the
/// ledger at the moment of the call.
#[derive(Clone, Copy, Debug, PartialEq, Eq)]
pub struct RemoveLiquidity {
    pub pool_token_a_amount: u64,
    pub pool_token_b_amount: u64,
}

/// What an exchange would read: the caller's input and output asset
/// accounts. The exchange operation is a reserved extension point.
#[derive(Clone, Copy, Debug, PartialEq, Eq)]
pub struct Swap {
    pub input_token: AccountId,
    pub output_token: AccountId,
}

} // verus!
