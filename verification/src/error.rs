//! Error kinds reported by the pool's state transitions.
//!
//! Every error aborts the whole transition: no partial state is retained,
//! and the caller must resubmit with adjusted parameters.

use vstd::prelude::*;

verus! {

/// Why a requested state transition was rejected.
#[derive(Clone, Copy, Debug, PartialEq, Eq, Structural)]
pub enum AmmError {
    /// A mutation was attempted while the pool is locked.
    PoolLocked,
    /// A zero or otherwise nonsensical amount: a zero input, or a computed
    /// output that floors to zero.
    InvalidAmount,
    /// A computed amount violates the caller-specified slippage bound.
    SlippageExceeded,
    /// The caller's balance of a source asset is below the required amount.
    InsufficientFunds,
    /// A vault lacks the reserves to source or fulfill a trade.
    InsufficientLiquidity,
    /// A withdrawal was attempted against zero LP supply.
    NoLiquidityInPool,
    /// A widened computation produced a value that does not fit the ledger's
    /// 64-bit magnitudes; the transition aborts rather than wrap or truncate.
    Overflow,
}

} // verus!
