//! Share accounting for a two-asset liquidity pool.
//!
//! The library tracks a pool's outstanding ownership shares and the time of
//! the most recent deposit, computes how many shares a deposit of two asset
//! amounts earns, and computes the proportional withdrawal amounts a share
//! burn redeems, under a global deposit cooldown. Reserve balances live in an
//! external asset ledger; callers report them and execute the transfers this
//! engine authorizes.

pub mod engine;
pub mod errors;
pub mod laws;
pub mod pool;
