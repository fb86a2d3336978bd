//! The instruction decision cores on concrete values, one test per
//! outcome kind.

use token_swap::curves::base::CurveType;
use token_swap::curves::calculator::TradeDirection;
use token_swap::errors::SwapError;
use token_swap::fees::Fees;
use token_swap::helper::to_u64;
use token_swap::instructions::{
    deposit_all_token_types_handler, deposit_single_token_type_exact_amount_in_handler,
    initialize_handler, swap_handler, withdraw_all_token_types_handler,
    withdraw_single_token_type_exact_amount_out_handler,
};
use token_swap::swap_constraints::{validate_swap_constraints, SwapConstraints};

fn no_fees() -> Fees {
    Fees {
        trade_fee_numerator: 0,
        trade_fee_denominator: 0,
        owner_trade_fee_numerator: 0,
        owner_trade_fee_denominator: 0,
        owner_withdraw_fee_numerator: 0,
        owner_withdraw_fee_denominator: 0,
        host_fee_numerator: 0,
        host_fee_denominator: 0,
    }
}

#[test]
fn initialize_accepts_a_funded_constant_product_pool() {
    let r = initialize_handler(&CurveType::ConstantProduct, &no_fees(), 1000, 1000, None);
    assert_eq!(r, Ok(1_000_000_000));
}

#[test]
fn initialize_rejects_empty_reserves() {
    let r = initialize_handler(&CurveType::ConstantProduct, &no_fees(), 1000, 0, None);
    assert_eq!(r, Err(SwapError::EmptySupply));
}

#[test]
fn initialize_rejects_bad_fees() {
    let mut fees = no_fees();
    fees.trade_fee_numerator = 5;
    fees.trade_fee_denominator = 5;
    let r = initialize_handler(&CurveType::ConstantProduct, &fees, 1000, 1000, None);
    assert_eq!(r, Err(SwapError::InvalidFee));
}

#[test]
fn initialize_rejects_zero_curve_parameters() {
    let r = initialize_handler(
        &CurveType::ConstantPrice { token_b_price: 0 },
        &no_fees(),
        1000,
        0,
        None,
    );
    assert_eq!(r, Err(SwapError::InvalidCurve));
}

#[test]
fn constraints_restrict_curve_types_and_fee_floors() {
    let mut floor = no_fees();
    floor.trade_fee_numerator = 1;
    floor.trade_fee_denominator = 100;
    let constraints = SwapConstraints {
        valid_curve_types: vec![CurveType::ConstantProduct],
        fees: floor,
    };

    // A curve outside the whitelist is refused.
    let r = validate_swap_constraints(
        &CurveType::Offset { token_b_offset: 5 },
        &floor,
        Some(&constraints),
    );
    assert_eq!(r, Err(SwapError::UnsupportedCurveType));

    // Fees below the floor are refused.
    let mut low = floor;
    low.trade_fee_numerator = 0;
    let r = validate_swap_constraints(&CurveType::ConstantProduct, &low, Some(&constraints));
    assert_eq!(r, Err(SwapError::InvalidFee));

    // Fees at or above the floor pass.
    let mut high = floor;
    high.trade_fee_numerator = 2;
    let r = validate_swap_constraints(&CurveType::ConstantProduct, &high, Some(&constraints));
    assert_eq!(r, Ok(()));

    // No policy, nothing to check.
    assert_eq!(validate_swap_constraints(&CurveType::ConstantProduct, &low, None), Ok(()));
}

#[test]
fn swap_moves_the_quoted_amounts() {
    let mut fees = no_fees();
    fees.trade_fee_numerator = 1;
    fees.trade_fee_denominator = 100;
    let r = swap_handler(
        CurveType::ConstantProduct,
        &fees,
        100,
        90,
        1000,
        1000,
        1_000_000,
        TradeDirection::AtoB,
        false,
        false,
    )
    .unwrap();
    assert_eq!(r.source_transfer_amount, 100);
    assert_eq!(r.destination_transfer_amount, 90);
    assert_eq!(r.new_swap_source_amount, 1100);
    assert_eq!(r.new_swap_destination_amount, 910);
    assert_eq!(r.trade_fee, 1);
    assert_eq!(r.owner_fee, 0);
    assert_eq!(r.host_fee_pool_tokens, 0);
    assert_eq!(r.owner_fee_pool_tokens, 0);
}

#[test]
fn swap_enforces_the_slippage_bound() {
    let r = swap_handler(
        CurveType::ConstantProduct,
        &no_fees(),
        100,
        91,
        1000,
        1000,
        1_000_000,
        TradeDirection::AtoB,
        false,
        false,
    );
    assert_eq!(r, Err(SwapError::ExceededSlippage));
}

#[test]
fn swap_rejects_zero_output() {
    let r = swap_handler(
        CurveType::ConstantProduct,
        &no_fees(),
        1,
        0,
        1_000_000_000,
        10,
        1_000_000,
        TradeDirection::AtoB,
        false,
        false,
    );
    assert_eq!(r, Err(SwapError::ZeroTradingTokens));
}

#[test]
fn swap_mints_owner_fee_pool_tokens() {
    // A 10% owner fee on 1000 in: 100 source tokens become pool tokens
    // for the owner's fee account.
    let mut fees = no_fees();
    fees.owner_trade_fee_numerator = 1;
    fees.owner_trade_fee_denominator = 10;
    let r = swap_handler(
        CurveType::ConstantProduct,
        &fees,
        1000,
        0,
        100_000,
        100_000,
        1_000_000,
        TradeDirection::AtoB,
        false,
        true,
    )
    .unwrap();
    assert_eq!(r.owner_fee, 100);
    assert!(r.owner_fee_pool_tokens > 0);
    assert_eq!(r.host_fee_pool_tokens, 0);
}

#[test]
fn swap_splits_the_host_fee_off_the_owner_fee() {
    let mut fees = no_fees();
    fees.owner_trade_fee_numerator = 1;
    fees.owner_trade_fee_denominator = 10;
    fees.host_fee_numerator = 2;
    fees.host_fee_denominator = 10;
    let without_host = swap_handler(
        CurveType::ConstantProduct,
        &fees,
        1000,
        0,
        100_000,
        100_000,
        1_000_000,
        TradeDirection::AtoB,
        false,
        true,
    )
    .unwrap();
    let with_host = swap_handler(
        CurveType::ConstantProduct,
        &fees,
        1000,
        0,
        100_000,
        100_000,
        1_000_000,
        TradeDirection::AtoB,
        true,
        true,
    )
    .unwrap();
    assert!(with_host.host_fee_pool_tokens > 0);
    assert_eq!(
        with_host.host_fee_pool_tokens + with_host.owner_fee_pool_tokens,
        without_host.owner_fee_pool_tokens
    );
}

#[test]
fn swap_reports_fee_calculation_failure() {
    // A tiny pool-token supply floors the owner fee's pool tokens to
    // zero; the host fee floor of one can then not be carved out.
    let mut fees = no_fees();
    fees.owner_trade_fee_numerator = 1;
    fees.owner_trade_fee_denominator = 2;
    fees.host_fee_numerator = 1;
    fees.host_fee_denominator = 2;
    let r = swap_handler(
        CurveType::ConstantProduct,
        &fees,
        100,
        0,
        1000,
        1000,
        2,
        TradeDirection::AtoB,
        true,
        true,
    );
    assert_eq!(r, Err(SwapError::FeeCalculationFailure));
}

#[test]
fn deposit_all_returns_both_amounts() {
    let r = deposit_all_token_types_handler(
        CurveType::ConstantProduct,
        100,
        100,
        500,
        1000,
        5000,
        1000,
    )
    .unwrap();
    assert_eq!(r.token_a_amount, 100);
    assert_eq!(r.token_b_amount, 500);
    assert_eq!(r.pool_tokens_to_mint, 100);
}

#[test]
fn deposit_all_bootstraps_an_empty_pool() {
    let r = deposit_all_token_types_handler(
        CurveType::ConstantProduct,
        7,
        0,
        0,
        1000,
        5000,
        0,
    )
    .unwrap();
    // With no supply yet, the fixed initial amount is minted and both
    // reserves are demanded in full.
    assert_eq!(r.pool_tokens_to_mint, 1_000_000_000);
    assert_eq!(r.token_a_amount, 1000);
    assert_eq!(r.token_b_amount, 5000);
}

#[test]
fn deposit_all_enforces_slippage() {
    let r = deposit_all_token_types_handler(
        CurveType::ConstantProduct,
        100,
        99,
        501,
        1000,
        5000,
        1000,
    );
    assert_eq!(r, Err(SwapError::ExceededSlippage));
}

#[test]
fn deposit_all_rejects_dust() {
    let r = deposit_all_token_types_handler(
        CurveType::ConstantProduct,
        1,
        0,
        0,
        100,
        100,
        1_000_000,
    );
    assert_eq!(r, Err(SwapError::ZeroTradingTokens));
}

#[test]
fn offset_pool_refuses_every_deposit() {
    let r = deposit_all_token_types_handler(
        CurveType::Offset { token_b_offset: 1000 },
        100,
        0,
        0,
        1000,
        5000,
        1000,
    );
    assert_eq!(r, Err(SwapError::UnsupportedCurveOperation));
    let r = deposit_single_token_type_exact_amount_in_handler(
        CurveType::Offset { token_b_offset: 1000 },
        &no_fees(),
        100,
        0,
        1000,
        5000,
        1000,
        TradeDirection::AtoB,
    );
    assert_eq!(r, Err(SwapError::UnsupportedCurveOperation));
}

#[test]
fn deposit_single_mints_the_formula_amount() {
    let r = deposit_single_token_type_exact_amount_in_handler(
        CurveType::ConstantProduct,
        &no_fees(),
        44,
        0,
        100,
        9999,
        100,
        TradeDirection::AtoB,
    );
    assert_eq!(r, Ok(20));
}

#[test]
fn deposit_single_enforces_slippage() {
    let r = deposit_single_token_type_exact_amount_in_handler(
        CurveType::ConstantProduct,
        &no_fees(),
        44,
        21,
        100,
        9999,
        100,
        TradeDirection::AtoB,
    );
    assert_eq!(r, Err(SwapError::ExceededSlippage));
}

#[test]
fn withdraw_all_pays_both_sides() {
    let r = withdraw_all_token_types_handler(
        CurveType::ConstantProduct,
        &no_fees(),
        100,
        100,
        500,
        1000,
        5000,
        1000,
        false,
    )
    .unwrap();
    assert_eq!(r.token_a_amount, 100);
    assert_eq!(r.token_b_amount, 500);
    assert_eq!(r.pool_tokens_to_burn, 100);
    assert_eq!(r.withdraw_fee, 0);
}

#[test]
fn withdraw_all_takes_the_owner_fee_off_the_top() {
    let mut fees = no_fees();
    fees.owner_withdraw_fee_numerator = 1;
    fees.owner_withdraw_fee_denominator = 10;
    let r = withdraw_all_token_types_handler(
        CurveType::ConstantProduct,
        &fees,
        100,
        0,
        0,
        1000,
        5000,
        1000,
        true,
    )
    .unwrap();
    assert_eq!(r.withdraw_fee, 10);
    assert_eq!(r.pool_tokens_to_burn, 90);
    assert_eq!(r.token_a_amount, 90);
    assert_eq!(r.token_b_amount, 450);
}

#[test]
fn withdraw_all_reports_unpayable_fee() {
    // The fee floor of one cannot be taken out of zero pool tokens.
    let mut fees = no_fees();
    fees.owner_withdraw_fee_numerator = 1;
    fees.owner_withdraw_fee_denominator = 10;
    let r = withdraw_all_token_types_handler(
        CurveType::ConstantProduct,
        &fees,
        0,
        0,
        0,
        1000,
        5000,
        1000,
        true,
    );
    assert_eq!(r, Err(SwapError::CalculationFailure));
}

#[test]
fn withdraw_single_burns_the_formula_amount() {
    let r = withdraw_single_token_type_exact_amount_out_handler(
        CurveType::ConstantProduct,
        &no_fees(),
        36,
        100,
        100,
        9999,
        100,
        TradeDirection::AtoB,
        false,
    )
    .unwrap();
    assert_eq!(r.pool_tokens_to_burn, 20);
    assert_eq!(r.withdraw_fee, 0);
}

#[test]
fn withdraw_single_caps_the_burn() {
    let r = withdraw_single_token_type_exact_amount_out_handler(
        CurveType::ConstantProduct,
        &no_fees(),
        36,
        19,
        100,
        9999,
        100,
        TradeDirection::AtoB,
        false,
    );
    assert_eq!(r, Err(SwapError::ExceededSlippage));
}

#[test]
fn withdraw_single_rejects_more_than_the_reserve() {
    let r = withdraw_single_token_type_exact_amount_out_handler(
        CurveType::ConstantProduct,
        &no_fees(),
        101,
        u64::MAX,
        100,
        9999,
        100,
        TradeDirection::AtoB,
        false,
    );
    assert_eq!(r, Err(SwapError::ZeroTradingTokens));
}

#[test]
fn narrowing_overflow_is_a_conversion_failure() {
    assert_eq!(to_u64(u128::from(u64::MAX)), Ok(u64::MAX));
    assert_eq!(to_u64(u128::from(u64::MAX) + 1), Err(SwapError::ConversionFailure));
}
