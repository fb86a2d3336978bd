//! Curve behaviour on concrete values: the swap invariant, rounding
//! directions, value monotonicity and the single-sided conversions.

use token_swap::curves::base::{CurveType, SwapCurve};
use token_swap::curves::calculator::{RoundDirection, TradeDirection};
use token_swap::curves::constant_price::ConstantPriceCurve;
use token_swap::curves::constant_product::{
    deposit_single_token_type, normalized_value, pool_tokens_to_trading_tokens, swap,
    withdraw_single_token_type_exact_out, ConstantProductCurve,
};
use token_swap::curves::offset::OffsetCurve;
use token_swap::errors::SwapError;
use token_swap::fees::Fees;

fn no_fees() -> Fees {
    Fees {
        trade_fee_numerator: 0,
        trade_fee_denominator: 0,
        owner_trade_fee_numerator: 0,
        owner_trade_fee_denominator: 0,
        owner_withdraw_fee_numerator: 0,
        owner_withdraw_fee_denominator: 0,
        host_fee_numerator: 0,
        host_fee_denominator: 0,
    }
}

#[test]
fn constant_product_swap_example() {
    // Selling 100 into (1000, 1000): the output must satisfy
    // (1000 + 100) * (1000 - out) >= 1000 * 1000, so out == 90.
    let result = swap(100, 1000, 1000).unwrap();
    assert_eq!(result.destination_amount_swapped, 90);
    assert!(
        (1000 + result.source_amount_swapped) * (1000 - result.destination_amount_swapped)
            >= 1000 * 1000
    );
    // The charged input is trimmed to the least amount that buys 90.
    assert_eq!(result.source_amount_swapped, 99);
}

#[test]
fn constant_product_swap_rejects_dust() {
    // A trade that would move zero destination tokens is refused.
    assert_eq!(swap(1, 1_000_000_000, 10), None);
    // So is a trade against empty reserves.
    assert_eq!(swap(100, 0, 1000), None);
}

#[test]
fn swap_never_lowers_pool_value() {
    // The normalized value may grow by at most one unit on a swap.
    for (src, x, y) in [
        (100u128, 1000u128, 1000u128),
        (1, 13, 7919),
        (500_000, 1_000_000, 3),
        (3, 17, 19),
    ] {
        let before = normalized_value(x, y).unwrap();
        if let Some(result) = swap(src, x, y) {
            let after = normalized_value(
                x + result.source_amount_swapped,
                y - result.destination_amount_swapped,
            )
            .unwrap();
            assert!(after >= before);
            assert!(after - before <= 1);
        }
    }
}

#[test]
fn proportional_deposit_stays_on_the_ratio_line() {
    // Reserves (1000, 5000), supply 1000: depositing 100 of token A
    // demands ceil(100 * 5000 / 1000) = 500 of token B.
    let result =
        pool_tokens_to_trading_tokens(100, 1000, 1000, 5000, RoundDirection::Ceiling).unwrap();
    assert_eq!(result.token_a_amount, 100);
    assert_eq!(result.token_b_amount, 500);
    // The grown reserves sit on the same line as the old ratio, and
    // the per-pool-token value of each side has not fallen.
    let (new_a, new_b, new_supply) = (1000 + 100u128, 5000 + 500u128, 1000 + 100u128);
    assert_eq!(new_b, 5 * new_a);
    assert!(new_a * 1000 >= 1000 * new_supply);
    assert!(new_b * 1000 >= 5000 * new_supply);
}

#[test]
fn proportional_withdraw_never_overpays() {
    // Floor rounding: each side's payout times the supply never exceeds
    // the proportional share.
    let (p, s, a, b) = (7u128, 100u128, 999u128, 1001u128);
    let result = pool_tokens_to_trading_tokens(p, s, a, b, RoundDirection::Floor).unwrap();
    assert_eq!(result.token_a_amount, p * a / s);
    assert_eq!(result.token_b_amount, p * b / s);
    assert!((a - result.token_a_amount) * s >= a * (s - p));
    assert!((b - result.token_b_amount) * s >= b * (s - p));
}

#[test]
fn ceiling_conversion_refuses_dust_shares() {
    // One pool token of a huge supply would round to zero on both
    // sides; rather than mint shares against nothing, the ceiling
    // conversion fails.
    assert_eq!(pool_tokens_to_trading_tokens(1, 1_000_000, 100, 100, RoundDirection::Ceiling), None);
    // The floor conversion keeps the zero shares: nothing is paid out.
    let floored =
        pool_tokens_to_trading_tokens(1, 1_000_000, 100, 100, RoundDirection::Floor).unwrap();
    assert_eq!(floored.token_a_amount, 0);
    assert_eq!(floored.token_b_amount, 0);
}

#[test]
fn single_sided_deposit_example() {
    // Reserve 100, deposit 44, supply 100: sqrt(100 * 144) = 120, so
    // 100 * (120 - 100) / 100 = 20 pool tokens.
    assert_eq!(
        deposit_single_token_type(44, 100, 9999, 100, TradeDirection::AtoB, RoundDirection::Floor),
        Some(20)
    );
}

#[test]
fn single_sided_withdraw_example() {
    // Reserve 100, exact output 36, supply 100: sqrt(100 * 64) = 80, so
    // 100 * (100 - 80) / 100 = 20 pool tokens must burn.
    assert_eq!(
        withdraw_single_token_type_exact_out(
            36,
            100,
            9999,
            100,
            TradeDirection::AtoB,
            RoundDirection::Ceiling
        ),
        Some(20)
    );
}

#[test]
fn single_sided_withdraw_of_everything_burns_the_supply() {
    assert_eq!(
        withdraw_single_token_type_exact_out(
            100,
            100,
            9999,
            77,
            TradeDirection::AtoB,
            RoundDirection::Ceiling
        ),
        Some(77)
    );
}

#[test]
fn single_sided_withdraw_beyond_reserve_fails() {
    assert_eq!(
        withdraw_single_token_type_exact_out(
            101,
            100,
            9999,
            77,
            TradeDirection::AtoB,
            RoundDirection::Ceiling
        ),
        None
    );
}

#[test]
fn normalized_value_is_geometric_mean() {
    assert_eq!(normalized_value(1000, 5000), Some(2236));
    assert_eq!(normalized_value(0, 5000), Some(0));
    // The product never overflows: even the largest reserves work.
    assert_eq!(normalized_value(u128::MAX, u128::MAX), Some(u128::MAX));
}

#[test]
fn deposit_matches_swap_then_deposit_within_half_percent() {
    // Depositing one-sided must be worth about as much as swapping half
    // and depositing both sides: within 50 basis points.
    let (source, x, y, supply) = (20_000u128, 1_000_000u128, 1_000_000u128, 1_000_000u128);
    let one_sided =
        deposit_single_token_type(source, x, y, supply, TradeDirection::AtoB, RoundDirection::Floor)
            .unwrap();

    let swapped = swap(source / 2, x, y).unwrap();
    let new_x = x + swapped.source_amount_swapped;
    let new_y = y - swapped.destination_amount_swapped;
    let from_source = deposit_single_token_type(
        source - swapped.source_amount_swapped,
        new_x,
        new_y,
        supply,
        TradeDirection::AtoB,
        RoundDirection::Floor,
    )
    .unwrap();
    let from_destination = deposit_single_token_type(
        swapped.destination_amount_swapped,
        new_x,
        new_y,
        supply + from_source,
        TradeDirection::BtoA,
        RoundDirection::Floor,
    )
    .unwrap();
    let separate = from_source + from_destination;

    let epsilon = std::cmp::max(1, separate * 50 / 10_000);
    let difference = if one_sided >= separate { one_sided - separate } else { separate - one_sided };
    assert!(difference <= epsilon, "difference {} above epsilon {}", difference, epsilon);
}

#[test]
fn feeless_swap_never_lowers_normalized_value_on_any_curve() {
    // On every curve and in both directions, a fee-less swap keeps the
    // normalized pool value within [before, before + 1].
    let fees = no_fees();
    let curves = [
        CurveType::ConstantProduct,
        CurveType::ConstantPrice { token_b_price: 5 },
        CurveType::Offset { token_b_offset: 500 },
    ];
    let (token_a, token_b) = (1000u128, 700u128);
    for curve_type in curves {
        let swap_curve = SwapCurve::new(curve_type);
        for direction in [TradeDirection::AtoB, TradeDirection::BtoA] {
            let (source_side, destination_side) = match direction {
                TradeDirection::AtoB => (token_a, token_b),
                TradeDirection::BtoA => (token_b, token_a),
            };
            let result = swap_curve
                .swap(90, source_side, destination_side, direction, &fees)
                .unwrap();
            let (new_a, new_b) = match direction {
                TradeDirection::AtoB => {
                    (result.new_swap_source_amount, result.new_swap_destination_amount)
                }
                TradeDirection::BtoA => {
                    (result.new_swap_destination_amount, result.new_swap_source_amount)
                }
            };
            let before = curve_type.normalized_value(token_a, token_b).unwrap();
            let after = curve_type.normalized_value(new_a, new_b).unwrap();
            assert!(after >= before, "value fell on {:?} {:?}", curve_type, direction);
            assert!(after <= before + 1, "value jumped on {:?} {:?}", curve_type, direction);
        }
    }
}

#[test]
fn single_sided_operations_stay_on_the_half_share() {
    // A one-sided deposit mints at most the half-proportional share,
    // and a one-sided exact-out withdrawal burns at least it.
    for (amount, reserve, supply) in
        [(44u128, 100u128, 100u128), (20_000, 1_000_000, 1_000_000), (1, 3, 1_000_000)]
    {
        let minted = deposit_single_token_type(
            amount,
            reserve,
            9999,
            supply,
            TradeDirection::AtoB,
            RoundDirection::Floor,
        )
        .unwrap();
        assert!(2 * reserve * minted <= supply * amount);
        let burned = withdraw_single_token_type_exact_out(
            amount,
            reserve,
            9999,
            supply,
            TradeDirection::AtoB,
            RoundDirection::Ceiling,
        )
        .unwrap();
        assert!(2 * reserve * burned >= supply * amount);
    }
}

#[test]
fn fee_layer_single_deposit_matches_swap_then_deposit() {
    // The same 50-basis-point equivalence holds through the fee layer:
    // with every fee disabled, a one-sided deposit through SwapCurve
    // mints within 0.5% of swapping half and depositing both sides.
    let fees = no_fees();
    let swap_curve = SwapCurve::new(CurveType::ConstantProduct);
    let (source, a, b, supply) = (20_000u128, 1_000_000u128, 1_000_000u128, 1_000_000u128);

    let quote =
        swap_curve.swap_without_fees(source / 2, a, b, TradeDirection::AtoB).unwrap();
    let one_sided = swap_curve
        .deposit_single_token_type(source, a, b, supply, TradeDirection::AtoB, &fees)
        .unwrap();

    let new_a = a + quote.source_amount_swapped;
    let new_b = b - quote.destination_amount_swapped;
    let from_source = swap_curve
        .deposit_single_token_type(
            source - quote.source_amount_swapped,
            new_a,
            new_b,
            supply,
            TradeDirection::AtoB,
            &fees,
        )
        .unwrap();
    let from_destination = swap_curve
        .deposit_single_token_type(
            quote.destination_amount_swapped,
            new_a,
            new_b,
            supply + from_source,
            TradeDirection::BtoA,
            &fees,
        )
        .unwrap();
    let separate = from_source + from_destination;

    let epsilon = std::cmp::max(1, separate * 50 / 10_000);
    let difference = if one_sided >= separate { one_sided - separate } else { separate - one_sided };
    assert!(difference <= epsilon, "difference {} above epsilon {}", difference, epsilon);
}

#[test]
fn withdraw_matches_withdraw_then_swap_within_half_percent() {
    // Burning pool tokens for one side must cost about as much as
    // withdrawing both sides and swapping one across.
    let (pool_tokens, supply, a, b) = (10_000u128, 1_000_000u128, 2_000_000u128, 3_000_000u128);
    let both = pool_tokens_to_trading_tokens(pool_tokens, supply, a, b, RoundDirection::Floor)
        .unwrap();
    let new_a = a - both.token_a_amount;
    let new_b = b - both.token_b_amount;
    let swapped = swap(both.token_a_amount, new_a, new_b).unwrap();
    let total_b = both.token_b_amount + swapped.destination_amount_swapped;

    let single = withdraw_single_token_type_exact_out(
        total_b,
        a,
        b,
        supply,
        TradeDirection::BtoA,
        RoundDirection::Ceiling,
    )
    .unwrap();

    let epsilon = std::cmp::max(1, pool_tokens * 50 / 10_000);
    let difference = if pool_tokens >= single { pool_tokens - single } else { single - pool_tokens };
    assert!(difference <= epsilon, "difference {} above epsilon {}", difference, epsilon);
}

#[test]
fn constant_price_swap_trims_the_remainder() {
    // Selling 105 A at a price of 10 buys 10 B; only 100 A is taken.
    let curve = ConstantPriceCurve { token_b_price: 10 };
    let result = curve.swap_without_fees(105, 0, 0, TradeDirection::AtoB).unwrap();
    assert_eq!(result.destination_amount_swapped, 10);
    assert_eq!(result.source_amount_swapped, 100);
}

#[test]
fn constant_price_swap_b_to_a_is_exact() {
    let curve = ConstantPriceCurve { token_b_price: 7 };
    let result = curve.swap_without_fees(5, 0, 0, TradeDirection::BtoA).unwrap();
    assert_eq!(result.source_amount_swapped, 5);
    assert_eq!(result.destination_amount_swapped, 35);
}

#[test]
fn constant_price_swap_keeps_additive_value() {
    let curve = ConstantPriceCurve { token_b_price: 10 };
    let (a, b) = (10_000u128, 500u128);
    let result = curve.swap_without_fees(105, a, b, TradeDirection::AtoB).unwrap();
    let new_a = a + result.source_amount_swapped;
    let new_b = b - result.destination_amount_swapped;
    assert_eq!(new_a + new_b * 10, a + b * 10);
}

#[test]
fn constant_price_rejects_dust() {
    let curve = ConstantPriceCurve { token_b_price: 10 };
    // Less than one B's worth of A buys nothing.
    assert_eq!(curve.swap_without_fees(9, 0, 0, TradeDirection::AtoB), None);
    assert_eq!(curve.swap_without_fees(0, 0, 0, TradeDirection::BtoA), None);
}

#[test]
fn constant_price_normalized_value_halves_the_worth() {
    let curve = ConstantPriceCurve { token_b_price: 10 };
    // (100 + 50 * 10) / 2 == 300
    assert_eq!(curve.normalized_value(100, 50), Some(300));
}

#[test]
fn constant_price_normalized_value_survives_the_ceiling() {
    // When the sum would overflow 128 bits, the two sides are halved
    // separately and the carried half-units added back: the result is
    // still the exact floored half-sum.
    let curve = ConstantPriceCurve { token_b_price: u64::MAX };
    let b_value = u128::from(u64::MAX);
    // Both addends are odd, so their dropped halves carry one unit.
    assert_eq!(curve.normalized_value(u128::MAX, 1), Some(u128::MAX / 2 + b_value / 2 + 1));
    // Only an overflowing B-side product is a failure.
    let curve = ConstantPriceCurve { token_b_price: 2 };
    assert_eq!(curve.normalized_value(0, u128::MAX), None);
}

#[test]
fn offset_swap_prices_against_virtual_liquidity() {
    // With reserves (1000, 0) and an offset of 1000, selling 100 A is
    // priced exactly like the constant product pool (1000, 1000).
    let offset_curve = OffsetCurve { token_b_offset: 1000 };
    let result = offset_curve.swap_without_fees(100, 1000, 0, TradeDirection::AtoB);
    let plain = swap(100, 1000, 1000);
    assert_eq!(result, plain);
}

#[test]
fn offset_curve_refuses_deposits() {
    let offset_curve = OffsetCurve { token_b_offset: 1000 };
    assert!(!offset_curve.allows_deposits());
    assert!((ConstantProductCurve {}).allows_deposits());
    assert!((ConstantPriceCurve { token_b_price: 3 }).allows_deposits());
}

#[test]
fn curve_parameters_are_validated() {
    assert_eq!((ConstantPriceCurve { token_b_price: 0 }).validate(), Err(SwapError::InvalidCurve));
    assert_eq!((ConstantPriceCurve { token_b_price: 1 }).validate(), Ok(()));
    assert_eq!((OffsetCurve { token_b_offset: 0 }).validate(), Err(SwapError::InvalidCurve));
    assert_eq!((OffsetCurve { token_b_offset: 1 }).validate(), Ok(()));
    assert_eq!((ConstantProductCurve {}).validate(), Ok(()));
}

#[test]
fn initial_supply_needs_both_sides_except_on_the_flat_curve() {
    assert_eq!((ConstantProductCurve {}).validate_supply(1, 0), Err(SwapError::EmptySupply));
    assert_eq!((ConstantProductCurve {}).validate_supply(0, 1), Err(SwapError::EmptySupply));
    assert_eq!((ConstantProductCurve {}).validate_supply(1, 1), Ok(()));
    // The flat curve's price pegs an empty B side.
    assert_eq!((ConstantPriceCurve { token_b_price: 2 }).validate_supply(1, 0), Ok(()));
    assert_eq!(
        (ConstantPriceCurve { token_b_price: 2 }).validate_supply(0, 1),
        Err(SwapError::EmptySupply)
    );
    // The offset curve needs real liquidity on both sides.
    assert_eq!(
        (OffsetCurve { token_b_offset: 2 }).validate_supply(1, 0),
        Err(SwapError::EmptySupply)
    );
    assert_eq!(
        (OffsetCurve { token_b_offset: 2 }).validate_supply(0, 1),
        Err(SwapError::EmptySupply)
    );
    assert_eq!((OffsetCurve { token_b_offset: 2 }).validate_supply(1, 1), Ok(()));
}

#[test]
fn swap_curve_charges_fees_into_the_pool() {
    // 1% trade fee on 100: one token stays in the pool, 99 are priced.
    let mut fees = no_fees();
    fees.trade_fee_numerator = 1;
    fees.trade_fee_denominator = 100;
    let swap_curve = SwapCurve::new(CurveType::ConstantProduct);
    let result = swap_curve.swap(100, 1000, 1000, TradeDirection::AtoB, &fees).unwrap();
    assert_eq!(result.trade_fee, 1);
    assert_eq!(result.owner_fee, 0);
    assert_eq!(result.source_amount_swapped, 100);
    assert_eq!(result.destination_amount_swapped, 90);
    assert_eq!(result.new_swap_source_amount, 1100);
    assert_eq!(result.new_swap_destination_amount, 910);
}

#[test]
fn swap_curve_fee_grows_pool_value() {
    let mut fees = no_fees();
    fees.trade_fee_numerator = 1;
    fees.trade_fee_denominator = 100;
    let swap_curve = SwapCurve::new(CurveType::ConstantProduct);
    let result = swap_curve.swap(100, 1000, 1000, TradeDirection::AtoB, &fees).unwrap();
    assert!(result.new_swap_source_amount * result.new_swap_destination_amount >= 1000 * 1000);
}

#[test]
fn swap_curve_rejects_unpayable_fee() {
    // Both fee floors bite: 1 + 1 > 1 leaves nothing to swap.
    let mut fees = no_fees();
    fees.trade_fee_numerator = 1;
    fees.trade_fee_denominator = 100;
    fees.owner_trade_fee_numerator = 1;
    fees.owner_trade_fee_denominator = 100;
    let swap_curve = SwapCurve::new(CurveType::ConstantProduct);
    assert_eq!(swap_curve.swap(1, 1000, 1000, TradeDirection::AtoB, &fees), None);
}

#[test]
fn single_sided_deposit_charges_fee_on_half() {
    // 10% trade fee: depositing 1000 charges the fee on 500 only.
    let mut fees = no_fees();
    fees.trade_fee_numerator = 1;
    fees.trade_fee_denominator = 10;
    let swap_curve = SwapCurve::new(CurveType::ConstantProduct);
    let with_fee = swap_curve
        .deposit_single_token_type(1000, 10_000, 10_000, 10_000, TradeDirection::AtoB, &fees)
        .unwrap();
    let without_fee = swap_curve
        .deposit_single_token_type(950, 10_000, 10_000, 10_000, TradeDirection::AtoB, &no_fees())
        .unwrap();
    assert_eq!(with_fee, without_fee);
    assert_eq!(swap_curve.deposit_single_token_type(
        0, 10_000, 10_000, 10_000, TradeDirection::AtoB, &fees), Some(0));
}

#[test]
fn exact_out_withdraw_grosses_the_fee_back_up() {
    // With a 1% trade fee, taking 99 out one-sided must burn no fewer
    // pool tokens than the fee-free case.
    let mut fees = no_fees();
    fees.trade_fee_numerator = 1;
    fees.trade_fee_denominator = 100;
    let swap_curve = SwapCurve::new(CurveType::ConstantProduct);
    let with_fee = swap_curve
        .withdraw_single_token_type_exact_out(
            1000,
            100_000,
            100_000,
            100_000,
            TradeDirection::AtoB,
            &fees,
        )
        .unwrap();
    let without_fee = swap_curve
        .withdraw_single_token_type_exact_out(
            1000,
            100_000,
            100_000,
            100_000,
            TradeDirection::AtoB,
            &no_fees(),
        )
        .unwrap();
    assert!(with_fee >= without_fee);
    assert!(without_fee > 0);
}
