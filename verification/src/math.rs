//! The liquidity math engine: pure, deterministic, integer-only functions
//! over unsigned 64/128-bit magnitudes.
//!
//! All divisions floor.  Deposit and withdrawal splits floor toward the pool
//! (a participant never receives more than their floored share justifies),
//! and the swap output floors so the pool never pays out more than the curve
//! allows.  Intermediate products are computed in 128 bits; a result that
//! does not fit back into 64 bits aborts with [`AmmError::Overflow`] rather
//! than wrap or truncate.

use vstd::prelude::*;
use crate::error::AmmError;

verus! {

/// Fees are quoted in basis points: parts per ten thousand.
pub const BPS_DENOMINATOR: u64 = 10_000;

/// The proportional share of one reserve that `lp_amount` LP units represent
/// out of `supply`: `floor(reserve * lp_amount / supply)`.
pub open spec fn share_floor(reserve: u64, lp_amount: u64, supply: u64) -> int
    recommends
        supply > 0,
{
    (reserve * lp_amount) as int / supply as int
}

/// The portion of a swap input that reaches the curve once the proportional
/// fee is retained: `floor(amount_in * (10_000 - fee_bps) / 10_000)`.
pub open spec fn effective_in(amount_in: u64, fee_bps: u16) -> int
    recommends
        fee_bps < BPS_DENOMINATOR,
{
    amount_in * (BPS_DENOMINATOR - fee_bps as u64) as int / BPS_DENOMINATOR as int
}

/// The constant-product swap output:
/// `floor(effective_in * reserve_out / (reserve_in + effective_in))`.
pub open spec fn swap_out_floor(reserve_in: u64, reserve_out: u64, amount_in: u64, fee_bps: u16) -> int
    recommends
        reserve_in > 0,
        fee_bps < BPS_DENOMINATOR,
{
    effective_in(amount_in, fee_bps) * reserve_out as int
        / (reserve_in as int + effective_in(amount_in, fee_bps))
}

/// The exact result of [`withdraw_amounts`]: the floored proportional share
/// of each reserve, or `Overflow` when a share does not fit in 64 bits.
pub open spec fn withdraw_amounts_spec(
    reserve_x: u64,
    reserve_y: u64,
    supply: u64,
    lp_amount: u64,
) -> Result<(u64, u64), AmmError>
    recommends
        supply > 0,
{
    if share_floor(reserve_x, lp_amount, supply) <= u64::MAX as int && share_floor(
        reserve_y,
        lp_amount,
        supply,
    ) <= u64::MAX as int {
        Ok(
            (
                share_floor(reserve_x, lp_amount, supply) as u64,
                share_floor(reserve_y, lp_amount, supply) as u64,
            ),
        )
    } else {
        Err(AmmError::Overflow)
    }
}

/// The exact result of [`deposit_amounts`]: the caller's ceilings verbatim on
/// a bootstrap deposit, the floored proportional contributions afterwards.
pub open spec fn deposit_amounts_spec(
    reserve_x: u64,
    reserve_y: u64,
    supply: u64,
    lp_amount: u64,
    max_x: u64,
    max_y: u64,
) -> Result<(u64, u64), AmmError> {
    if lp_amount == 0 {
        Err(AmmError::InvalidAmount)
    } else if supply == 0 {
        Ok((max_x, max_y))
    } else {
        withdraw_amounts_spec(reserve_x, reserve_y, supply, lp_amount)
    }
}

/// The exact result of [`swap_out`]: the floored constant-product output, or
/// the error owed to a zero input, an empty reserve, or an output that
/// floors to zero.
pub open spec fn swap_out_spec(
    reserve_in: u64,
    reserve_out: u64,
    amount_in: u64,
    fee_bps: u16,
) -> Result<u64, AmmError>
    recommends
        fee_bps < BPS_DENOMINATOR,
{
    if amount_in == 0 {
        Err(AmmError::InvalidAmount)
    } else if reserve_in == 0 || reserve_out == 0 {
        Err(AmmError::InsufficientLiquidity)
    } else if swap_out_floor(reserve_in, reserve_out, amount_in, fee_bps) == 0 {
        Err(AmmError::InvalidAmount)
    } else {
        Ok(swap_out_floor(reserve_in, reserve_out, amount_in, fee_bps) as u64)
    }
}

/// Floor division of a non-negative integer by a positive one is
/// characterized by the two-sided bound `d * (n / d) <= n < d * (n / d) + d`.
proof fn lemma_div_bounds(n: int, d: int)
    requires
        0 <= n,
        0 < d,
    ensures
        0 <= n / d,
        d * (n / d) <= n,
        n < d * (n / d) + d,
{
    vstd::arithmetic::div_mod::lemma_fundamental_div_mod(n, d);
    vstd::arithmetic::div_mod::lemma_div_pos_is_pos(n, d);
}

/// `n < c * d` forces the quotient `n / d` below `c`.
proof fn lemma_div_below(n: int, d: int, c: int)
    requires
        0 < d,
        n < c * d,
    ensures
        n / d < c,
{
    assert(d * c == c * d) by (nonlinear_arith);
    vstd::arithmetic::div_mod::lemma_multiply_divide_lt(n, d, c);
}

/// `c * d <= n` forces the quotient `n / d` to reach `c`.
proof fn lemma_div_at_least(n: int, d: int, c: int)
    requires
        0 < d,
        c * d <= n,
    ensures
        c <= n / d,
{
    vstd::arithmetic::div_mod::lemma_fundamental_div_mod(n, d);
    assert(c <= n / d) by (nonlinear_arith)
        requires
            0 < d,
            c * d <= n,
            n == d * (n / d) + n % d,
            0 <= n % d < d,
    ;
}

/// The fee-reduced input is non-negative, never exceeds `amount_in`, and is
/// strictly below `amount_in` when a positive fee is charged on a positive
/// input.
pub proof fn lemma_effective_in_bounds(amount_in: u64, fee_bps: u16)
    requires
        fee_bps < BPS_DENOMINATOR,
    ensures
        0 <= effective_in(amount_in, fee_bps) <= amount_in,
        fee_bps > 0 && amount_in > 0 ==> effective_in(amount_in, fee_bps) < amount_in,
{
    let n = amount_in * (BPS_DENOMINATOR - fee_bps as u64) as int;
    let d = BPS_DENOMINATOR as int;
    assert(0 <= n && n <= amount_in * d) by (nonlinear_arith)
        requires
            n == amount_in * (BPS_DENOMINATOR - fee_bps as u64) as int,
            d == BPS_DENOMINATOR as int,
            fee_bps < BPS_DENOMINATOR,
    ;
    lemma_div_bounds(n, d);
    lemma_div_below(n, d, amount_in as int + 1);
    if fee_bps > 0 && amount_in > 0 {
        assert(n < amount_in * d) by (nonlinear_arith)
            requires
                n == amount_in * (BPS_DENOMINATOR - fee_bps as u64) as int,
                d == BPS_DENOMINATOR as int,
                0 < fee_bps < BPS_DENOMINATOR,
                amount_in > 0,
        ;
        lemma_div_below(n, d, amount_in as int);
    }
}

/// Law: a swap never decreases the reserve product.  With the whole fee
/// retained in the input vault, the post-trade product
/// `(reserve_in + amount_in) * (reserve_out - out)` is at least the
/// pre-trade product `reserve_in * reserve_out`, and strictly exceeds it
/// when `fee_bps > 0`.  The output also always leaves the destination
/// reserve positive.
pub proof fn lemma_swap_product_nondecreasing(
    reserve_in: u64,
    reserve_out: u64,
    amount_in: u64,
    fee_bps: u16,
)
    requires
        reserve_in > 0,
        reserve_out > 0,
        amount_in > 0,
        fee_bps < BPS_DENOMINATOR,
    ensures
        0 <= swap_out_floor(reserve_in, reserve_out, amount_in, fee_bps) < reserve_out,
        (reserve_in + amount_in) * (reserve_out - swap_out_floor(
            reserve_in,
            reserve_out,
            amount_in,
            fee_bps,
        )) >= reserve_in * reserve_out,
        fee_bps > 0 ==> (reserve_in + amount_in) * (reserve_out - swap_out_floor(
            reserve_in,
            reserve_out,
            amount_in,
            fee_bps,
        )) > reserve_in * reserve_out,
{
    let rx = reserve_in as int;
    let ry = reserve_out as int;
    let a = amount_in as int;
    let eff = effective_in(amount_in, fee_bps);
    let num = eff * ry;
    let den = rx + eff;
    let out = swap_out_floor(reserve_in, reserve_out, amount_in, fee_bps);
    lemma_effective_in_bounds(amount_in, fee_bps);
    assert(0 <= num && num < den * ry) by (nonlinear_arith)
        requires
            num == eff * ry,
            den == rx + eff,
            0 <= eff,
            rx >= 1,
            ry >= 1,
    ;
    lemma_div_bounds(num, den);
    lemma_div_below(num, den, ry);
    assert(out == num / den);
    assert((rx + a) * out <= a * ry) by (nonlinear_arith)
        requires
            den * out <= num,
            num == eff * ry,
            den == rx + eff,
            0 <= out <= ry,
            0 <= eff <= a,
            rx >= 1,
            ry >= 1,
    ;
    assert((rx + a) * (ry - out) >= rx * ry) by (nonlinear_arith)
        requires
            (rx + a) * out <= a * ry,
            0 <= out <= ry,
            rx >= 1,
            ry >= 1,
            a >= 1,
    ;
    if fee_bps > 0 {
        assert((rx + a) * out < a * ry) by (nonlinear_arith)
            requires
                den * out <= num,
                num == eff * ry,
                den == rx + eff,
                0 <= out <= ry - 1,
                0 <= eff <= a - 1,
                rx >= 1,
                ry >= 1,
        ;
        assert((rx + a) * (ry - out) > rx * ry) by (nonlinear_arith)
            requires
                (rx + a) * out < a * ry,
                0 <= out <= ry,
                rx >= 1,
                ry >= 1,
                a >= 1,
        ;
    }
}

/// Prices a swap under the constant-product curve with a proportional fee.
///
/// The fee is deducted from the input before the curve is applied, so it is
/// retained in the input vault and accrues to the liquidity providers.  The
/// final division floors, so the pool never pays out more than the curve
/// allows; a successful output is always positive and strictly below
/// `reserve_out`.
pub fn swap_out(reserve_in: u64, reserve_out: u64, amount_in: u64, fee_bps: u16) -> (r: Result<
    u64,
    AmmError,
>)
    requires
        fee_bps < BPS_DENOMINATOR,
    ensures
        r == swap_out_spec(reserve_in, reserve_out, amount_in, fee_bps),
        r matches Ok(v) ==> 0 < v < reserve_out,
{
    if amount_in == 0 {
        return Err(AmmError::InvalidAmount);
    }
    if reserve_in == 0 || reserve_out == 0 {
        return Err(AmmError::InsufficientLiquidity);
    }
    proof {
        lemma_swap_product_nondecreasing(reserve_in, reserve_out, amount_in, fee_bps);
        lemma_effective_in_bounds(amount_in, fee_bps);
        assert(amount_in * (BPS_DENOMINATOR - fee_bps as u64) <= u64::MAX * BPS_DENOMINATOR)
            by (nonlinear_arith)
            requires
                amount_in <= u64::MAX,
                fee_bps < BPS_DENOMINATOR,
        ;
    }
    let fee_factor: u64 = BPS_DENOMINATOR - (fee_bps as u64);
    let eff: u128 = (amount_in as u128) * (fee_factor as u128) / (BPS_DENOMINATOR as u128);
    proof {
        assert(eff == effective_in(amount_in, fee_bps));
        assert(eff * reserve_out <= u64::MAX * u64::MAX) by (nonlinear_arith)
            requires
                0 <= eff <= u64::MAX,
                reserve_out <= u64::MAX,
        ;
    }
    let num: u128 = eff * (reserve_out as u128);
    let den: u128 = (reserve_in as u128) + eff;
    let out: u128 = num / den;
    if out == 0 {
        Err(AmmError::InvalidAmount)
    } else {
        Ok(out as u64)
    }
}

/// Computes the deposit split: the reserve contributions owed for minting
/// `lp_amount` new LP units.
///
/// On the first deposit (`supply == 0`) the caller's ceilings `(max_x,
/// max_y)` are taken verbatim: the first depositor sets the initial price
/// ratio.  Afterwards the contributions preserve the ratio
/// `reserve_x : reserve_y : supply` by flooring, so a depositor never
/// receives more pool share than the floored contribution justifies.
///
/// Fails with `InvalidAmount` when `lp_amount == 0`, and with `Overflow`
/// exactly when a floored contribution does not fit in 64 bits.
pub fn deposit_amounts(
    reserve_x: u64,
    reserve_y: u64,
    supply: u64,
    lp_amount: u64,
    max_x: u64,
    max_y: u64,
) -> (r: Result<(u64, u64), AmmError>)
    ensures
        r == deposit_amounts_spec(reserve_x, reserve_y, supply, lp_amount, max_x, max_y),
{
    if lp_amount == 0 {
        Err(AmmError::InvalidAmount)
    } else if supply == 0 {
        Ok((max_x, max_y))
    } else {
        withdraw_amounts(reserve_x, reserve_y, supply, lp_amount)
    }
}

/// Computes the proportional withdrawal split: `lp_amount` LP units redeem
/// `floor(reserve * lp_amount / supply)` of each reserve.
///
/// Fails with `Overflow` exactly when a floored share does not fit in 64
/// bits, which can only happen when `lp_amount` exceeds `supply`.
pub fn withdraw_amounts(reserve_x: u64, reserve_y: u64, supply: u64, lp_amount: u64) -> (r: Result<
    (u64, u64),
    AmmError,
>)
    requires
        supply > 0,
    ensures
        r == withdraw_amounts_spec(reserve_x, reserve_y, supply, lp_amount),
{
    proof {
        assert(reserve_x * lp_amount <= u64::MAX * u64::MAX) by (nonlinear_arith)
            requires
                reserve_x <= u64::MAX,
                lp_amount <= u64::MAX,
        ;
        assert(reserve_y * lp_amount <= u64::MAX * u64::MAX) by (nonlinear_arith)
            requires
                reserve_y <= u64::MAX,
                lp_amount <= u64::MAX,
        ;
    }
    let x_wide: u128 = (reserve_x as u128) * (lp_amount as u128) / (supply as u128);
    let y_wide: u128 = (reserve_y as u128) * (lp_amount as u128) / (supply as u128);
    if x_wide > u64::MAX as u128 || y_wide > u64::MAX as u128 {
        Err(AmmError::Overflow)
    } else {
        Ok((x_wide as u64, y_wide as u64))
    }
}

/// Law: the floored share is proportional within floor-rounding tolerance.
/// The share `q` satisfies `q * supply <= reserve * lp_amount < (q + 1) *
/// supply`, i.e. `q / reserve` approximates `lp_amount / supply` from below
/// with error under one part in `supply`.  In particular the share never
/// exceeds the reserve while `lp_amount <= supply`, falls strictly below a
/// positive reserve while `lp_amount < supply`, and redeeming the whole
/// supply redeems the whole reserve.
pub proof fn lemma_share_floor_proportional(reserve: u64, lp_amount: u64, supply: u64)
    requires
        supply > 0,
    ensures
        0 <= share_floor(reserve, lp_amount, supply),
        share_floor(reserve, lp_amount, supply) * supply <= reserve * lp_amount,
        reserve * lp_amount < (share_floor(reserve, lp_amount, supply) + 1) * supply,
        lp_amount <= supply ==> share_floor(reserve, lp_amount, supply) <= reserve,
        lp_amount < supply && reserve > 0 ==> share_floor(reserve, lp_amount, supply) < reserve,
        lp_amount >= supply ==> share_floor(reserve, lp_amount, supply) >= reserve,
        lp_amount == supply ==> share_floor(reserve, lp_amount, supply) == reserve,
{
    let n = reserve * lp_amount;
    let d = supply as int;
    let q = share_floor(reserve, lp_amount, supply);
    assert(0 <= n) by (nonlinear_arith)
        requires
            n == reserve * lp_amount,
    ;
    lemma_div_bounds(n, d);
    assert(q * d <= n && n < (q + 1) * d) by (nonlinear_arith)
        requires
            q == n / d,
            0 < d,
            d * (n / d) <= n,
            n < d * (n / d) + d,
    ;
    if lp_amount <= supply {
        assert(n <= (reserve + 1) * d - 1) by (nonlinear_arith)
            requires
                n == reserve * lp_amount,
                d == supply as int,
                0 < supply,
                lp_amount <= supply,
        ;
        lemma_div_below(n, d, reserve as int + 1);
    }
    if lp_amount < supply && reserve > 0 {
        assert(n < reserve * d) by (nonlinear_arith)
            requires
                n == reserve * lp_amount,
                d == supply as int,
                lp_amount < supply,
                reserve > 0,
        ;
        lemma_div_below(n, d, reserve as int);
    }
    if lp_amount >= supply {
        assert(reserve * d <= n) by (nonlinear_arith)
            requires
                n == reserve * lp_amount,
                d == supply as int,
                supply <= lp_amount,
        ;
        lemma_div_at_least(n, d, reserve as int);
    }
}

/// Law: a withdrawal followed immediately by a deposit of the identical
/// `lp_amount` against unchanged reserves and supply asks for at most the
/// amounts the withdrawal paid out — floor rounding can move value toward
/// the pool, never away from it.  (Both splits floor the same proportion,
/// so the amounts agree exactly.)
pub proof fn lemma_withdraw_then_deposit_conserves(
    reserve_x: u64,
    reserve_y: u64,
    supply: u64,
    lp_amount: u64,
    max_x: u64,
    max_y: u64,
)
    requires
        supply > 0,
        lp_amount > 0,
    ensures
        withdraw_amounts_spec(reserve_x, reserve_y, supply, lp_amount) matches Ok(w)
            ==> (deposit_amounts_spec(reserve_x, reserve_y, supply, lp_amount, max_x, max_y)
            matches Ok(d) && d.0 <= w.0 && d.1 <= w.1),
{
}

} // verus!
