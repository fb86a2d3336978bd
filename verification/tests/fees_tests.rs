//! Fee model behaviour on concrete values.

use token_swap::errors::SwapError;
use token_swap::fees::{calculate_fee, Fees};

fn flat_fees(numerator: u64, denominator: u64) -> Fees {
    Fees {
        trade_fee_numerator: numerator,
        trade_fee_denominator: denominator,
        owner_trade_fee_numerator: numerator,
        owner_trade_fee_denominator: denominator,
        owner_withdraw_fee_numerator: numerator,
        owner_withdraw_fee_denominator: denominator,
        host_fee_numerator: numerator,
        host_fee_denominator: denominator,
    }
}

#[test]
fn hundred_percent_fee_fails_validation() {
    let fees = flat_fees(5, 5);
    assert_eq!(fees.validate(), Err(SwapError::InvalidFee));
}

#[test]
fn disabled_fees_pass_validation() {
    let fees = flat_fees(0, 0);
    assert_eq!(fees.validate(), Ok(()));
}

#[test]
fn over_one_fee_fails_validation() {
    let fees = flat_fees(7, 5);
    assert_eq!(fees.validate(), Err(SwapError::InvalidFee));
}

#[test]
fn ordinary_fee_passes_validation() {
    let fees = flat_fees(1, 100);
    assert_eq!(fees.validate(), Ok(()));
}

#[test]
fn fee_floor_bumps_zero_to_one() {
    // 10 * 1 / 100 floors to zero, so the fee becomes one.
    assert_eq!(calculate_fee(10, 1, 100), Some(1));
    assert_eq!(calculate_fee(1, 1, 1_000_000), Some(1));
}

#[test]
fn fee_is_floored_product() {
    assert_eq!(calculate_fee(1000, 3, 100), Some(30));
    assert_eq!(calculate_fee(1234, 1, 100), Some(12));
}

#[test]
fn disabled_fraction_charges_nothing() {
    assert_eq!(calculate_fee(1000, 0, 100), Some(0));
    assert_eq!(calculate_fee(1000, 3, 0), Some(0));
}

#[test]
fn trading_fee_uses_trade_fraction() {
    let mut fees = flat_fees(0, 0);
    fees.trade_fee_numerator = 1;
    fees.trade_fee_denominator = 100;
    assert_eq!(fees.trading_fee(500), Some(5));
    assert_eq!(fees.owner_trading_fee(500), Some(0));
}

#[test]
fn pre_trading_fee_inverts_the_fee() {
    // With a 1% trade fee, getting 99 through requires 100 in.
    let mut fees = flat_fees(0, 0);
    fees.trade_fee_numerator = 1;
    fees.trade_fee_denominator = 100;
    let pre = fees.pre_trading_fee_amount(99).unwrap();
    assert_eq!(pre, 100);
    let fee = fees.trading_fee(pre).unwrap();
    assert_eq!(pre - fee, 99);
}

#[test]
fn pre_trading_fee_merges_both_fractions() {
    let mut fees = flat_fees(0, 0);
    fees.trade_fee_numerator = 1;
    fees.trade_fee_denominator = 10;
    fees.owner_trade_fee_numerator = 1;
    fees.owner_trade_fee_denominator = 10;
    // Combined fee is 2/10; getting 80 through requires 100 in.
    assert_eq!(fees.pre_trading_fee_amount(80), Some(100));
}

#[test]
fn host_fee_comes_from_owner_fee() {
    let mut fees = flat_fees(0, 0);
    fees.host_fee_numerator = 2;
    fees.host_fee_denominator = 10;
    assert_eq!(fees.host_fee(50), Some(10));
}
