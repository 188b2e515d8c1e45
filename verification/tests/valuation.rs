//! Tests of the vault share valuator, the fee schedule, and the ceiling
//! division primitive.

use dex_meteora_cpmm::fees::PoolFees;
use dex_meteora_cpmm::math::checked_ceil_div;
use dex_meteora_cpmm::vault::{LockedProfitTracker, Vault};

use dex_meteora_cpmm::accounts::Pubkey;

fn pk(tag: u8) -> Pubkey {
    Pubkey { bytes: [tag; 32] }
}

fn idle_tracker() -> LockedProfitTracker {
    LockedProfitTracker {
        last_updated_locked_profit: 0,
        last_report: 0,
        locked_profit_degradation: 0,
    }
}

fn simple_vault(total: u64) -> Vault {
    Vault {
        total_amount: total,
        locked_profit_tracker: idle_tracker(),
        token_vault: pk(1),
        lp_mint: pk(2),
    }
}

#[test]
fn ceil_div_rounds_up() {
    assert_eq!(checked_ceil_div(10, 5), Some(2));
    assert_eq!(checked_ceil_div(11, 5), Some(3));
    assert_eq!(checked_ceil_div(14, 5), Some(3));
    assert_eq!(checked_ceil_div(15, 5), Some(3));
}

#[test]
fn ceil_div_manual_fixture() {
    // 2e12 / 1_010_000 = 1_980_198.01..., so the ceiling is 1_980_199.
    assert_eq!(checked_ceil_div(2_000_000_000_000, 1_010_000), Some(1_980_199));
}

#[test]
fn ceil_div_fails_on_zero_divisor() {
    assert_eq!(checked_ceil_div(7, 0), None);
}

#[test]
fn ceil_div_fails_on_zero_floor_quotient() {
    assert_eq!(checked_ceil_div(3, 5), None);
    assert_eq!(checked_ceil_div(0, 5), None);
}

#[test]
fn locked_profit_unlocks_linearly() {
    let vault = Vault {
        total_amount: 10_000,
        locked_profit_tracker: LockedProfitTracker {
            last_updated_locked_profit: 1_000,
            last_report: 100,
            locked_profit_degradation: 10_000_000_000,
        },
        token_vault: pk(1),
        lp_mint: pk(2),
    };
    // Halfway through the unlock window half of the profit is still locked.
    assert_eq!(
        vault.locked_profit_tracker.calculate_locked_profit(150),
        Some(500)
    );
    assert_eq!(vault.get_unlocked_amount(150), Some(9_500));
    // At the end of the window everything is unlocked.
    assert_eq!(
        vault.locked_profit_tracker.calculate_locked_profit(200),
        Some(0)
    );
    assert_eq!(vault.get_unlocked_amount(200), Some(10_000));
    // Far past the window the ratio saturates and nothing stays locked.
    assert_eq!(vault.get_unlocked_amount(300), Some(10_000));
}

#[test]
fn locked_profit_fails_before_last_report() {
    let vault = Vault {
        total_amount: 10_000,
        locked_profit_tracker: LockedProfitTracker {
            last_updated_locked_profit: 1_000,
            last_report: 100,
            locked_profit_degradation: 10_000_000_000,
        },
        token_vault: pk(1),
        lp_mint: pk(2),
    };
    assert_eq!(vault.get_unlocked_amount(99), None);
}

#[test]
fn amount_by_share_prorates() {
    let vault = Vault {
        total_amount: 10_000,
        locked_profit_tracker: LockedProfitTracker {
            last_updated_locked_profit: 1_000,
            last_report: 100,
            locked_profit_degradation: 10_000_000_000,
        },
        token_vault: pk(1),
        lp_mint: pk(2),
    };
    // 100 of 1000 shares over 9500 unlocked tokens.
    assert_eq!(vault.get_amount_by_share(150, 100, 1_000), Some(950));
}

#[test]
fn amount_by_share_fails_on_zero_supply() {
    assert_eq!(simple_vault(10_000).get_amount_by_share(0, 100, 0), None);
}

#[test]
fn amount_by_share_fails_on_overflow() {
    let vault = simple_vault(u64::MAX);
    assert_eq!(vault.get_amount_by_share(0, u64::MAX, 1), None);
}

#[test]
fn unmint_amount_prorates() {
    let vault = simple_vault(2_000);
    assert_eq!(vault.get_unmint_amount(0, 1_000, 3_000), Some(1_500));
}

#[test]
fn unmint_amount_fails_on_empty_vault() {
    let vault = simple_vault(0);
    assert_eq!(vault.get_unmint_amount(0, 1_000, 3_000), None);
}

#[test]
fn share_round_trip_returns_exactly_on_even_ratio() {
    let vault = simple_vault(2_000);
    let minted = vault.get_unmint_amount(0, 1_000, 3_000).unwrap();
    assert_eq!(minted, 1_500);
    let credited = Vault { total_amount: 3_000, ..vault };
    let value = credited
        .get_amount_by_share(0, minted, 3_000 + minted)
        .unwrap();
    assert_eq!(value, 1_000);
}

#[test]
fn share_round_trip_never_profits() {
    let vault = simple_vault(3_000);
    let minted = vault.get_unmint_amount(0, 1_000, 1_000).unwrap();
    assert_eq!(minted, 333);
    let credited = Vault { total_amount: 4_000, ..vault };
    let value = credited
        .get_amount_by_share(0, minted, 1_000 + minted)
        .unwrap();
    assert_eq!(value, 999);
    assert!(value <= 1_000);
}

#[test]
fn trading_fee_rounds_down() {
    let fees = PoolFees {
        trade_fee_numerator: 25,
        trade_fee_denominator: 10_000,
        owner_trade_fee_numerator: 5,
        owner_trade_fee_denominator: 10_000,
    };
    assert_eq!(fees.trading_fee(10_000), Some(25));
    assert_eq!(fees.trading_fee(10_399), Some(25));
    assert_eq!(fees.owner_trading_fee(10_000), Some(5));
}

#[test]
fn trading_fee_floors_at_one_unit() {
    let fees = PoolFees {
        trade_fee_numerator: 1,
        trade_fee_denominator: 10_000,
        owner_trade_fee_numerator: 1,
        owner_trade_fee_denominator: 10_000,
    };
    assert_eq!(fees.trading_fee(100), Some(1));
}

#[test]
fn trading_fee_is_zero_for_zero_rate_or_amount() {
    let fees = PoolFees {
        trade_fee_numerator: 0,
        trade_fee_denominator: 10_000,
        owner_trade_fee_numerator: 25,
        owner_trade_fee_denominator: 10_000,
    };
    assert_eq!(fees.trading_fee(1_000_000), Some(0));
    assert_eq!(fees.owner_trading_fee(0), Some(0));
}

#[test]
fn trading_fee_fails_on_zero_denominator() {
    let fees = PoolFees {
        trade_fee_numerator: 25,
        trade_fee_denominator: 0,
        owner_trade_fee_numerator: 0,
        owner_trade_fee_denominator: 0,
    };
    assert_eq!(fees.trading_fee(10_000), None);
    // A zero rate short-circuits before the denominator matters.
    assert_eq!(fees.owner_trading_fee(10_000), Some(0));
}
