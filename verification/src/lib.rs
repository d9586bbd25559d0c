//! A verified constant-product automated market maker.
//!
//! The crate models one two-asset liquidity pool as an explicit state value
//! and proves the numeric rules that govern it: proportional deposit and
//! withdrawal splits, constant-product swap pricing with a basis-point fee,
//! slippage bounds, and the pool-lock safety check.  The surrounding ledger
//! (asset transfers, minting, burning, account creation) is a collaborator
//! that executes the amounts these functions compute.

pub mod error;
pub mod math;
pub mod pool;
pub mod escrow;
