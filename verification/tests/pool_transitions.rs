use amm::error::AmmError;
use amm::escrow::can_refund;
use amm::pool::Pool;

fn fresh_pool(fee_bps: u16) -> Pool {
    Pool::initialize(42, fee_bps, Some(7), 22, 33)
}

fn funded_pool(reserve_x: u64, reserve_y: u64, supply: u64, fee_bps: u16) -> Pool {
    Pool {
        reserve_x,
        reserve_y,
        supply,
        ..fresh_pool(fee_bps)
    }
}

#[test]
fn initialize_sets_record() {
    let p = fresh_pool(30);
    assert_eq!(p.seed, 42);
    assert_eq!(p.authority, Some(7));
    assert_eq!(p.asset_x_id, 22);
    assert_eq!(p.asset_y_id, 33);
    assert_eq!(p.fee_bps, 30);
    assert!(!p.locked);
    assert_eq!((p.reserve_x, p.reserve_y, p.supply), (0, 0, 0));
}

#[test]
fn bootstrap_deposit_sets_reserves_and_mints_exactly() {
    let mut p = fresh_pool(30);
    assert_eq!(p.deposit(1_000, 500, 700), Ok((500, 700)));
    assert_eq!((p.reserve_x, p.reserve_y, p.supply), (500, 700, 1_000));
}

#[test]
fn steady_deposit_is_proportional_and_within_ceilings() {
    let mut p = funded_pool(1_000, 2_000, 100, 30);
    // floor(1000 * 10 / 100) = 100, floor(2000 * 10 / 100) = 200.
    let (x, y) = p.deposit(10, 150, 250).unwrap();
    assert_eq!((x, y), (100, 200));
    assert!(x <= 150 && y <= 250);
    assert_eq!((p.reserve_x, p.reserve_y, p.supply), (1_100, 2_200, 110));
}

#[test]
fn bootstrap_with_zero_ceilings_mints_unbacked_supply() {
    // A first deposit takes the ceilings verbatim, even when both are zero:
    // the pool then carries LP supply against empty vaults, and hosts that
    // want to avoid that state must reject such a request themselves.
    let mut p = fresh_pool(30);
    assert_eq!(p.deposit(1_000, 0, 0), Ok((0, 0)));
    assert_eq!((p.reserve_x, p.reserve_y, p.supply), (0, 0, 1_000));
}

#[test]
fn deposit_zero_lp_is_invalid() {
    let mut p = funded_pool(1_000, 2_000, 100, 30);
    let before = p;
    assert_eq!(p.deposit(0, 10, 10), Err(AmmError::InvalidAmount));
    assert_eq!(p, before);
}

#[test]
fn deposit_above_ceiling_is_slippage() {
    let mut p = funded_pool(1_000, 2_000, 100, 30);
    let before = p;
    assert_eq!(p.deposit(10, 99, 250), Err(AmmError::SlippageExceeded));
    assert_eq!(p, before);
}

#[test]
fn deposit_share_overflow_aborts() {
    let mut p = funded_pool(u64::MAX, u64::MAX, 1, 30);
    let before = p;
    assert_eq!(p.deposit(2, u64::MAX, u64::MAX), Err(AmmError::Overflow));
    assert_eq!(p, before);
}

#[test]
fn swap_fee_scenario_exact() {
    let mut p = funded_pool(1_000_000, 1_000_000, 1_000_000, 30);
    let ev = p.swap(5, 10_000, 1_000, 0, true).unwrap();
    assert_eq!(ev.user, 5);
    assert_eq!(ev.amount_in, 1_000);
    assert_eq!(ev.amount_out, 996);
    assert!(ev.x_to_y);
    assert_eq!(ev.reserve_x, 1_001_000);
    assert_eq!(ev.reserve_y, 999_004);
    assert_eq!((p.reserve_x, p.reserve_y), (1_001_000, 999_004));
    assert_eq!(p.supply, 1_000_000);
}

#[test]
fn swap_product_never_decreases() {
    let mut p = funded_pool(1_000_000, 1_000_000, 1_000_000, 30);
    let mut product = p.reserve_x as u128 * p.reserve_y as u128;
    for (amount, direction) in [(1_000u64, true), (50_000, false), (3, true), (999, false)] {
        if p.swap(5, u64::MAX, amount, 0, direction).is_ok() {
            let after = p.reserve_x as u128 * p.reserve_y as u128;
            // fee_bps > 0, so the growth is strict.
            assert!(after > product);
            product = after;
        }
    }
}

#[test]
fn swap_slippage_fails_and_mutates_nothing() {
    let mut p = funded_pool(1_000_000, 1_000_000, 1_000_000, 30);
    let before = p;
    // The true computable output is 996.
    assert_eq!(p.swap(5, 10_000, 1_000, 997, true), Err(AmmError::SlippageExceeded));
    assert_eq!(p, before);
}

#[test]
fn swap_zero_output_checks_slippage_first() {
    // 10 effective in against a million-to-one pool floors to zero out.
    let mut p = funded_pool(1_000_000, 1, 1_000, 0);
    assert_eq!(p.swap(5, 100, 10, 1, true), Err(AmmError::SlippageExceeded));
    assert_eq!(p.swap(5, 100, 10, 0, true), Err(AmmError::InvalidAmount));
}

#[test]
fn swap_zero_input_is_invalid() {
    let mut p = funded_pool(1_000_000, 1_000_000, 1_000_000, 30);
    assert_eq!(p.swap(5, 10_000, 0, 0, true), Err(AmmError::InvalidAmount));
}

#[test]
fn swap_insufficient_funds() {
    let mut p = funded_pool(1_000_000, 1_000_000, 1_000_000, 30);
    assert_eq!(p.swap(5, 999, 1_000, 0, true), Err(AmmError::InsufficientFunds));
}

#[test]
fn swap_empty_reserve_is_insufficient_liquidity() {
    let mut p = funded_pool(0, 1_000, 500, 30);
    assert_eq!(p.swap(5, 10_000, 1_000, 0, true), Err(AmmError::InsufficientLiquidity));
    assert_eq!(p.swap(5, 10_000, 1_000, 0, false), Err(AmmError::InsufficientLiquidity));
}

#[test]
fn swap_reserve_overflow_aborts() {
    let mut p = funded_pool(u64::MAX, u64::MAX, 1_000, 0);
    let before = p;
    assert_eq!(p.swap(5, u64::MAX, u64::MAX, 0, true), Err(AmmError::Overflow));
    assert_eq!(p, before);
}

#[test]
fn withdraw_proportional_exact() {
    let mut p = funded_pool(1_000, 2_000, 100, 30);
    assert_eq!(p.withdraw(50, 10, 0, 0), Ok((100, 200)));
    assert_eq!((p.reserve_x, p.reserve_y, p.supply), (900, 1_800, 90));
}

#[test]
fn withdraw_whole_supply_drains_pool() {
    let mut p = funded_pool(1_000, 2_000, 100, 30);
    assert_eq!(p.withdraw(100, 100, 0, 0), Ok((1_000, 2_000)));
    assert_eq!((p.reserve_x, p.reserve_y, p.supply), (0, 0, 0));
}

#[test]
fn withdraw_zero_lp_is_invalid() {
    let mut p = funded_pool(1_000, 2_000, 100, 30);
    assert_eq!(p.withdraw(50, 0, 0, 0), Err(AmmError::InvalidAmount));
}

#[test]
fn withdraw_insufficient_lp_balance() {
    let mut p = funded_pool(1_000, 2_000, 100, 30);
    assert_eq!(p.withdraw(9, 10, 0, 0), Err(AmmError::InsufficientFunds));
}

#[test]
fn withdraw_against_empty_supply() {
    let mut p = fresh_pool(30);
    assert_eq!(p.withdraw(10, 10, 0, 0), Err(AmmError::NoLiquidityInPool));
}

#[test]
fn withdraw_below_floor_is_slippage() {
    let mut p = funded_pool(1_000, 2_000, 100, 30);
    let before = p;
    assert_eq!(p.withdraw(50, 10, 101, 0), Err(AmmError::SlippageExceeded));
    assert_eq!(p, before);
}

#[test]
fn withdraw_zero_payout_is_invalid() {
    // floor(5 * 10 / 1000) = 0 of asset X.
    let mut p = funded_pool(5, 2_000, 1_000, 30);
    assert_eq!(p.withdraw(50, 10, 0, 0), Err(AmmError::InvalidAmount));
}

#[test]
fn withdraw_beyond_vault_is_insufficient_liquidity() {
    // lp_amount far above supply asks for more than the vaults hold.
    let mut p = funded_pool(1, 1, 2, 30);
    assert_eq!(p.withdraw(4, 4, 0, 0), Err(AmmError::InsufficientLiquidity));
}

#[test]
fn withdraw_supply_underflow_aborts() {
    // lp_amount just above supply still floors to the whole reserves, but
    // burning it would underflow the supply.
    let mut p = funded_pool(1, 1, 2, 30);
    assert_eq!(p.withdraw(3, 3, 0, 0), Err(AmmError::Overflow));
}

#[test]
fn locked_pool_rejects_all_mutations() {
    let mut p = Pool {
        locked: true,
        ..funded_pool(1_000, 2_000, 100, 30)
    };
    let before = p;
    assert_eq!(p.deposit(10, 100, 200), Err(AmmError::PoolLocked));
    assert_eq!(p.swap(5, 10_000, 10, 0, true), Err(AmmError::PoolLocked));
    assert_eq!(p.withdraw(50, 10, 0, 0), Err(AmmError::PoolLocked));
    assert_eq!(p, before);
}

#[test]
fn escrow_refund_only_with_funds() {
    assert!(can_refund(1));
    assert!(!can_refund(0));
}
