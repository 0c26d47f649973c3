//! Error taxonomy of the pool engine.

use vstd::prelude::*;

verus! {

/// Every way a pool operation can fail. All failures are detected before any
/// state is mutated, so an error always leaves the pool record unchanged.
#[derive(Clone, Copy, Debug, PartialEq, Eq, Structural)]
pub enum SwapError {
    /// The asset account identifiers supplied with a deposit do not match the
    /// pair the pool was configured with.
    InvalidTokenPair,
    /// Reserved for the exchange operation: the computed output would fall
    /// short of the caller's minimum.
    InsufficientOutput,
    /// The global deposit cooldown has not yet elapsed at the time of a
    /// withdrawal.
    WithdrawalTooSoon,
    /// A withdrawal asks to burn more shares than are outstanding.
    InsufficientShares,
    /// The pool is in a state the arithmetic cannot serve: a reserve balance
    /// is zero while shares are outstanding, or a withdrawal is attempted
    /// with no shares outstanding.
    InvalidPoolState,
    /// An intermediate computation would exceed the representable range.
    ArithmeticOverflow,
}

} // verus!
