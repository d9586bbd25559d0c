//! The pool record and its state transitions.
//!
//! A [`Pool`] value carries the durable configuration of one pool together
//! with the balances the ledger holds on its behalf: the two vault reserves
//! and the LP-asset supply.  Deposit, swap and withdraw are modeled as
//! all-or-nothing transitions on this value; on success they return the
//! amounts the ledger collaborator must move, and on failure they leave the
//! pool untouched.

use vstd::prelude::*;
use crate::error::AmmError;
use crate::math;

verus! {

/// One liquidity pool: configuration plus the ledger-held balances.
///
/// Asset and key identities are opaque to the math engine and are modeled as
/// plain numeric identifiers.
#[derive(Clone, Copy, Debug, PartialEq, Eq)]
pub struct Pool {
    /// Creator-chosen identity discriminator.
    pub seed: u64,
    /// Optional key reserved for a future privileged action.
    pub authority: Option<u64>,
    /// Identity of the first tradable asset; immutable after creation.
    pub asset_x_id: u64,
    /// Identity of the second tradable asset; immutable after creation.
    pub asset_y_id: u64,
    /// Swap fee in basis points.  The swap engine assumes `fee_bps < 10_000`;
    /// creation does not reject a larger value, so callers must validate it
    /// before trading (see [`Pool::initialize`]).
    pub fee_bps: u16,
    /// When true, deposit, swap and withdraw are rejected.
    pub locked: bool,
    /// Reserve of asset X held in the pool's vault.
    pub reserve_x: u64,
    /// Reserve of asset Y held in the pool's vault.
    pub reserve_y: u64,
    /// Total supply of the pool-share (LP) asset.
    pub supply: u64,
}

/// The observable record a successful swap emits for off-chain observers:
/// the caller, what was paid and received, the direction, and the post-trade
/// reserves.
#[derive(Clone, Copy, Debug, PartialEq, Eq)]
pub struct SwapEvent {
    /// Identity of the caller.
    pub user: u64,
    /// Amount of the source asset the caller paid in.
    pub amount_in: u64,
    /// Amount of the destination asset the caller received.
    pub amount_out: u64,
    /// True when asset X was swapped for asset Y.
    pub x_to_y: bool,
    /// Reserve of asset X after the trade.
    pub reserve_x: u64,
    /// Reserve of asset Y after the trade.
    pub reserve_y: u64,
}

impl Pool {
    /// Well-formedness: the fee is a valid basis-point fraction, and the pool
    /// is either untouched or has outstanding LP units backed by reserves.
    pub open spec fn wf(self) -> bool {
        &&& self.fee_bps < math::BPS_DENOMINATOR
        &&& self.supply == 0 <==> (self.reserve_x == 0 && self.reserve_y == 0)
    }

    /// The exact outcome a deposit request must have against this pool state:
    /// the transfer amounts on success, or the error owed to the request.
    pub open spec fn deposit_spec(self, lp_amount: u64, max_x: u64, max_y: u64) -> Result<
        (u64, u64),
        AmmError,
    > {
        if self.locked {
            Err(AmmError::PoolLocked)
        } else {
            match math::deposit_amounts_spec(
                self.reserve_x,
                self.reserve_y,
                self.supply,
                lp_amount,
                max_x,
                max_y,
            ) {
                Err(e) => Err(e),
                Ok((x, y)) => if x > max_x || y > max_y {
                    Err(AmmError::SlippageExceeded)
                } else if self.reserve_x + x > u64::MAX || self.reserve_y + y > u64::MAX
                    || self.supply + lp_amount > u64::MAX {
                    Err(AmmError::Overflow)
                } else {
                    Ok((x, y))
                },
            }
        }
    }

    /// The pool state after a successful deposit of `(x, y)` minting
    /// `lp_amount` LP units.
    pub open spec fn deposit_applied(self, lp_amount: u64, x: u64, y: u64) -> Pool {
        Pool {
            reserve_x: (self.reserve_x + x) as u64,
            reserve_y: (self.reserve_y + y) as u64,
            supply: (self.supply + lp_amount) as u64,
            ..self
        }
    }

    /// Creates the record for a new pool: unlocked, with empty vaults and no
    /// LP units outstanding.
    ///
    /// Creation deliberately does not range-check `fee_bps`: the result is
    /// well formed exactly when `fee_bps < 10_000`, and the trading
    /// transitions require well-formedness, so a caller that admits larger
    /// fees must validate before trading.
    pub fn initialize(
        seed: u64,
        fee_bps: u16,
        authority: Option<u64>,
        asset_x_id: u64,
        asset_y_id: u64,
    ) -> (p: Pool)
        ensures
            p == (Pool {
                seed,
                authority,
                asset_x_id,
                asset_y_id,
                fee_bps,
                locked: false,
                reserve_x: 0,
                reserve_y: 0,
                supply: 0,
            }),
            p.wf() <==> fee_bps < math::BPS_DENOMINATOR,
    {
        Pool {
            seed,
            authority,
            asset_x_id,
            asset_y_id,
            fee_bps,
            locked: false,
            reserve_x: 0,
            reserve_y: 0,
            supply: 0,
        }
    }

    /// Deposits liquidity: computes the fair contributions `(x, y)` for
    /// minting `lp_amount` LP units, enforces the caller's slippage ceilings
    /// `max_x`/`max_y` and the pool lock, and applies the transition.  On
    /// success the ledger collaborator owes the pool `x` of asset X and `y`
    /// of asset Y from the caller, and the caller `lp_amount` LP units.
    ///
    /// On the first deposit the caller's ceilings are taken verbatim and set
    /// the initial price ratio.  Every error leaves the pool untouched.
    pub fn deposit(&mut self, lp_amount: u64, max_x: u64, max_y: u64) -> (r: Result<
        (u64, u64),
        AmmError,
    >)
        requires
            old(self).wf(),
        ensures
            r == old(self).deposit_spec(lp_amount, max_x, max_y),
            r matches Err(_) ==> *final(self) == *old(self),
            r matches Ok(v) ==> *final(self) == old(self).deposit_applied(lp_amount, v.0, v.1),
            r matches Ok(v) ==> v.0 <= max_x && v.1 <= max_y,
            old(self).supply == 0 ==> (r matches Ok(v) ==> v == (max_x, max_y)
                && final(self).reserve_x == max_x && final(self).reserve_y == max_y
                && final(self).supply == lp_amount),
            old(self).supply > 0 || max_x > 0 || max_y > 0 ==> (r matches Ok(_)
                ==> final(self).wf()),
    {
        if self.locked {
            return Err(AmmError::PoolLocked);
        }
        let split = math::deposit_amounts(
            self.reserve_x,
            self.reserve_y,
            self.supply,
            lp_amount,
            max_x,
            max_y,
        );
        let (x, y) = match split {
            Ok(v) => v,
            Err(e) => {
                return Err(e);
            },
        };
        if x > max_x || y > max_y {
            return Err(AmmError::SlippageExceeded);
        }
        if x > u64::MAX - self.reserve_x || y > u64::MAX - self.reserve_y || lp_amount > u64::MAX
            - self.supply {
            return Err(AmmError::Overflow);
        }
        self.reserve_x = self.reserve_x + x;
        self.reserve_y = self.reserve_y + y;
        self.supply = self.supply + lp_amount;
        Ok((x, y))
    }

    /// The pool state after a successful swap: the input lands in the source
    /// vault (fee included), the output leaves the destination vault.
    pub open spec fn swap_applied(self, amount_in: u64, amount_out: u64, x_to_y: bool) -> Pool {
        if x_to_y {
            Pool {
                reserve_x: (self.reserve_x + amount_in) as u64,
                reserve_y: (self.reserve_y - amount_out) as u64,
                ..self
            }
        } else {
            Pool {
                reserve_x: (self.reserve_x - amount_out) as u64,
                reserve_y: (self.reserve_y + amount_in) as u64,
                ..self
            }
        }
    }

    /// The exact outcome a swap request must have against this pool state:
    /// the emitted event on success, or the error owed to the request.
    pub open spec fn swap_spec(
        self,
        user: u64,
        user_balance_in: u64,
        amount_in: u64,
        min_amount_out: u64,
        x_to_y: bool,
    ) -> Result<SwapEvent, AmmError> {
        let reserve_in = if x_to_y {
            self.reserve_x
        } else {
            self.reserve_y
        };
        let reserve_out = if x_to_y {
            self.reserve_y
        } else {
            self.reserve_x
        };
        if self.locked {
            Err(AmmError::PoolLocked)
        } else if amount_in == 0 {
            Err(AmmError::InvalidAmount)
        } else if user_balance_in < amount_in {
            Err(AmmError::InsufficientFunds)
        } else if reserve_in == 0 || reserve_out == 0 {
            Err(AmmError::InsufficientLiquidity)
        } else {
            let out = math::swap_out_floor(reserve_in, reserve_out, amount_in, self.fee_bps);
            if out < min_amount_out {
                Err(AmmError::SlippageExceeded)
            } else if out == 0 {
                Err(AmmError::InvalidAmount)
            } else if reserve_in + amount_in > u64::MAX {
                Err(AmmError::Overflow)
            } else {
                let applied = self.swap_applied(amount_in, out as u64, x_to_y);
                Ok(
                    SwapEvent {
                        user,
                        amount_in,
                        amount_out: out as u64,
                        x_to_y,
                        reserve_x: applied.reserve_x,
                        reserve_y: applied.reserve_y,
                    },
                )
            }
        }
    }

    /// Swaps `amount_in` of the source asset for the destination asset at
    /// the constant-product price, enforcing the pool lock, the caller's
    /// balance, and the `min_amount_out` slippage floor.  On success the
    /// ledger collaborator owes the source vault `amount_in` from the caller
    /// and the caller `amount_out` from the destination vault, and the
    /// returned event is emitted.
    ///
    /// The fee stays in the source vault, so the reserve product never
    /// decreases across a swap and strictly increases when `fee_bps > 0`.
    /// Every error leaves the pool untouched.
    pub fn swap(
        &mut self,
        user: u64,
        user_balance_in: u64,
        amount_in: u64,
        min_amount_out: u64,
        x_to_y: bool,
    ) -> (r: Result<SwapEvent, AmmError>)
        requires
            old(self).wf(),
        ensures
            r == old(self).swap_spec(user, user_balance_in, amount_in, min_amount_out, x_to_y),
            r matches Err(_) ==> *final(self) == *old(self),
            r matches Ok(ev) ==> *final(self) == old(self).swap_applied(
                amount_in,
                ev.amount_out,
                x_to_y,
            ) && ev.user == user && ev.amount_in == amount_in && ev.x_to_y == x_to_y
                && ev.reserve_x == final(self).reserve_x && ev.reserve_y == final(self).reserve_y
                && min_amount_out <= ev.amount_out && 0 < ev.amount_out,
            r matches Ok(_) ==> final(self).wf(),
            r matches Ok(_) ==> final(self).reserve_x * final(self).reserve_y
                >= old(self).reserve_x * old(self).reserve_y,
            old(self).fee_bps > 0 ==> (r matches Ok(_)
                ==> final(self).reserve_x * final(self).reserve_y
                > old(self).reserve_x * old(self).reserve_y),
    {
        if self.locked {
            return Err(AmmError::PoolLocked);
        }
        if amount_in == 0 {
            return Err(AmmError::InvalidAmount);
        }
        if user_balance_in < amount_in {
            return Err(AmmError::InsufficientFunds);
        }
        let (reserve_in, reserve_out) = if x_to_y {
            (self.reserve_x, self.reserve_y)
        } else {
            (self.reserve_y, self.reserve_x)
        };
        let amount_out = match math::swap_out(reserve_in, reserve_out, amount_in, self.fee_bps) {
            Ok(v) => v,
            Err(AmmError::InvalidAmount) => {
                // The computed output floors to zero; the slippage bound is
                // checked before the zero-output rejection.
                if min_amount_out > 0 {
                    return Err(AmmError::SlippageExceeded);
                }
                return Err(AmmError::InvalidAmount);
            },
            Err(e) => {
                return Err(e);
            },
        };
        proof {
            math::lemma_swap_product_nondecreasing(
                reserve_in,
                reserve_out,
                amount_in,
                self.fee_bps,
            );
        }
        if amount_out < min_amount_out {
            return Err(AmmError::SlippageExceeded);
        }
        // Defensive vault check; the output is proven strictly below the
        // destination reserve, so this guard can never fire.
        if reserve_out < amount_out {
            return Err(AmmError::InsufficientLiquidity);
        }
        if amount_in > u64::MAX - reserve_in {
            return Err(AmmError::Overflow);
        }
        proof {
            assert((reserve_in + amount_in) * (reserve_out - amount_out) == (reserve_out
                - amount_out) * (reserve_in + amount_in)) by (nonlinear_arith);
        }
        let new_in = reserve_in + amount_in;
        let new_out = reserve_out - amount_out;
        if x_to_y {
            self.reserve_x = new_in;
            self.reserve_y = new_out;
        } else {
            self.reserve_x = new_out;
            self.reserve_y = new_in;
        }
        Ok(
            SwapEvent {
                user,
                amount_in,
                amount_out,
                x_to_y,
                reserve_x: self.reserve_x,
                reserve_y: self.reserve_y,
            },
        )
    }

    /// The pool state after a successful withdrawal of `(x, y)` burning
    /// `lp_amount` LP units.
    pub open spec fn withdraw_applied(self, lp_amount: u64, x: u64, y: u64) -> Pool {
        Pool {
            reserve_x: (self.reserve_x - x) as u64,
            reserve_y: (self.reserve_y - y) as u64,
            supply: (self.supply - lp_amount) as u64,
            ..self
        }
    }

    /// The exact outcome a withdrawal request must have against this pool
    /// state: the payout amounts on success, or the error owed to the
    /// request.
    pub open spec fn withdraw_spec(
        self,
        user_lp_balance: u64,
        lp_amount: u64,
        min_x: u64,
        min_y: u64,
    ) -> Result<(u64, u64), AmmError> {
        if self.locked {
            Err(AmmError::PoolLocked)
        } else if lp_amount == 0 {
            Err(AmmError::InvalidAmount)
        } else if user_lp_balance < lp_amount {
            Err(AmmError::InsufficientFunds)
        } else if self.supply == 0 {
            Err(AmmError::NoLiquidityInPool)
        } else {
            match math::withdraw_amounts_spec(
                self.reserve_x,
                self.reserve_y,
                self.supply,
                lp_amount,
            ) {
                Err(e) => Err(e),
                Ok((x, y)) => if x < min_x || y < min_y {
                    Err(AmmError::SlippageExceeded)
                } else if x == 0 || y == 0 {
                    Err(AmmError::InvalidAmount)
                } else if self.reserve_x < x || self.reserve_y < y {
                    Err(AmmError::InsufficientLiquidity)
                } else if self.supply < lp_amount {
                    Err(AmmError::Overflow)
                } else {
                    Ok((x, y))
                },
            }
        }
    }

    /// Withdraws liquidity: burns `lp_amount` LP units out of the caller's
    /// balance and pays out the proportional share of both reserves,
    /// enforcing the pool lock and the caller's slippage floors
    /// `min_x`/`min_y`.  On success the ledger collaborator owes the caller
    /// `x` of asset X and `y` of asset Y from the vaults, and burns
    /// `lp_amount` of the caller's LP units.  Every error leaves the pool
    /// untouched.
    pub fn withdraw(
        &mut self,
        user_lp_balance: u64,
        lp_amount: u64,
        min_x: u64,
        min_y: u64,
    ) -> (r: Result<(u64, u64), AmmError>)
        requires
            old(self).wf(),
        ensures
            r == old(self).withdraw_spec(user_lp_balance, lp_amount, min_x, min_y),
            r matches Err(_) ==> *final(self) == *old(self),
            r matches Ok(v) ==> *final(self) == old(self).withdraw_applied(lp_amount, v.0, v.1)
                && min_x <= v.0 && min_y <= v.1 && 0 < v.0 && 0 < v.1,
            r matches Ok(_) ==> final(self).wf(),
    {
        if self.locked {
            return Err(AmmError::PoolLocked);
        }
        if lp_amount == 0 {
            return Err(AmmError::InvalidAmount);
        }
        if user_lp_balance < lp_amount {
            return Err(AmmError::InsufficientFunds);
        }
        if self.supply == 0 {
            return Err(AmmError::NoLiquidityInPool);
        }
        let (x, y) = match math::withdraw_amounts(
            self.reserve_x,
            self.reserve_y,
            self.supply,
            lp_amount,
        ) {
            Ok(v) => v,
            Err(e) => {
                return Err(e);
            },
        };
        if x < min_x || y < min_y {
            return Err(AmmError::SlippageExceeded);
        }
        if x == 0 || y == 0 {
            return Err(AmmError::InvalidAmount);
        }
        if self.reserve_x < x || self.reserve_y < y {
            return Err(AmmError::InsufficientLiquidity);
        }
        if self.supply < lp_amount {
            return Err(AmmError::Overflow);
        }
        proof {
            math::lemma_share_floor_proportional(self.reserve_x, lp_amount, self.supply);
            math::lemma_share_floor_proportional(self.reserve_y, lp_amount, self.supply);
        }
        self.reserve_x = self.reserve_x - x;
        self.reserve_y = self.reserve_y - y;
        self.supply = self.supply - lp_amount;
        Ok((x, y))
    }
}

/// Law: a locked pool rejects every deposit, swap and withdrawal with
/// `PoolLocked`, whatever the request carries.
pub proof fn lemma_lock_enforcement(
    p: Pool,
    user: u64,
    user_balance: u64,
    amount: u64,
    bound_x: u64,
    bound_y: u64,
    x_to_y: bool,
)
    requires
        p.locked,
    ensures
        p.deposit_spec(amount, bound_x, bound_y) == Err::<(u64, u64), AmmError>(
            AmmError::PoolLocked,
        ),
        p.swap_spec(user, user_balance, amount, bound_x, x_to_y) == Err::<SwapEvent, AmmError>(
            AmmError::PoolLocked,
        ),
        p.withdraw_spec(user_balance, amount, bound_x, bound_y) == Err::<(u64, u64), AmmError>(
            AmmError::PoolLocked,
        ),
{
}

/// Law: a swap whose `min_amount_out` exceeds the true computable output is
/// rejected with `SlippageExceeded` (and, by [`Pool::swap`]'s contract,
/// mutates nothing).
pub proof fn lemma_slippage_enforcement(
    p: Pool,
    user: u64,
    user_balance_in: u64,
    amount_in: u64,
    min_amount_out: u64,
    x_to_y: bool,
)
    requires
        !p.locked,
        0 < amount_in <= user_balance_in,
        (if x_to_y {
            p.reserve_x
        } else {
            p.reserve_y
        }) > 0,
        (if x_to_y {
            p.reserve_y
        } else {
            p.reserve_x
        }) > 0,
        min_amount_out > math::swap_out_floor(
            if x_to_y {
                p.reserve_x
            } else {
                p.reserve_y
            },
            if x_to_y {
                p.reserve_y
            } else {
                p.reserve_x
            },
            amount_in,
            p.fee_bps,
        ),
    ensures
        p.swap_spec(user, user_balance_in, amount_in, min_amount_out, x_to_y) == Err::<
            SwapEvent,
            AmmError,
        >(AmmError::SlippageExceeded),
{
}

} // verus!
