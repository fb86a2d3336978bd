//! A pool driven through its whole life: creation, deposits, swaps and
//! withdrawals, with the value invariants checked at every step.

use token_swap::curves::base::CurveType;
use token_swap::curves::calculator::TradeDirection;
use token_swap::curves::constant_product::normalized_value;
use token_swap::fees::Fees;
use token_swap::instructions::{
    deposit_all_token_types_handler, deposit_single_token_type_exact_amount_in_handler,
    initialize_handler, swap_handler, withdraw_all_token_types_handler,
    withdraw_single_token_type_exact_amount_out_handler,
};

struct Pool {
    curve_type: CurveType,
    fees: Fees,
    token_a: u64,
    token_b: u64,
    supply: u64,
}

#[test]
fn constant_product_pool_lifecycle() {
    let fees = Fees {
        trade_fee_numerator: 25,
        trade_fee_denominator: 10_000,
        owner_trade_fee_numerator: 0,
        owner_trade_fee_denominator: 0,
        owner_withdraw_fee_numerator: 0,
        owner_withdraw_fee_denominator: 0,
        host_fee_numerator: 0,
        host_fee_denominator: 0,
    };
    let mut pool = Pool {
        curve_type: CurveType::ConstantProduct,
        fees,
        token_a: 1_000_000,
        token_b: 4_000_000,
        supply: 0,
    };
    pool.supply =
        initialize_handler(&pool.curve_type, &pool.fees, pool.token_a, pool.token_b, None).unwrap();
    assert_eq!(pool.supply, 1_000_000_000);

    // A proportional deposit keeps each side's per-pool-token value.
    let deposit = deposit_all_token_types_handler(
        pool.curve_type,
        50_000_000,
        0,
        0,
        pool.token_a,
        pool.token_b,
        pool.supply,
    )
    .unwrap();
    let (old_a, old_b, old_supply) = (pool.token_a, pool.token_b, pool.supply);
    pool.token_a += deposit.token_a_amount;
    pool.token_b += deposit.token_b_amount;
    pool.supply += deposit.pool_tokens_to_mint;
    assert!(
        u128::from(pool.token_a) * u128::from(old_supply)
            >= u128::from(old_a) * u128::from(pool.supply)
    );
    assert!(
        u128::from(pool.token_b) * u128::from(old_supply)
            >= u128::from(old_b) * u128::from(pool.supply)
    );

    // A swap with fees never lowers the pool's normalized value.
    let value_before =
        normalized_value(u128::from(pool.token_a), u128::from(pool.token_b)).unwrap();
    let swap = swap_handler(
        pool.curve_type,
        &pool.fees,
        100_000,
        0,
        pool.token_a,
        pool.token_b,
        pool.supply,
        TradeDirection::AtoB,
        false,
        false,
    )
    .unwrap();
    pool.token_a = u64::try_from(swap.new_swap_source_amount).unwrap();
    pool.token_b = u64::try_from(swap.new_swap_destination_amount).unwrap();
    let value_after = normalized_value(u128::from(pool.token_a), u128::from(pool.token_b)).unwrap();
    assert!(value_after >= value_before);

    // A one-sided deposit mints something for a sizable amount.
    let minted = deposit_single_token_type_exact_amount_in_handler(
        pool.curve_type,
        &pool.fees,
        10_000,
        1,
        pool.token_a,
        pool.token_b,
        pool.supply,
        TradeDirection::BtoA,
    )
    .unwrap();
    pool.token_b += 10_000;
    pool.supply += minted;
    assert!(minted > 0);

    // An exact-out one-sided withdrawal burns what it quotes.
    let single = withdraw_single_token_type_exact_amount_out_handler(
        pool.curve_type,
        &pool.fees,
        5_000,
        u64::MAX,
        pool.token_a,
        pool.token_b,
        pool.supply,
        TradeDirection::BtoA,
        false,
    )
    .unwrap();
    pool.token_b -= 5_000;
    pool.supply -= single.pool_tokens_to_burn;
    assert!(single.pool_tokens_to_burn > 0);

    // A proportional withdrawal of everything left drains the pool no
    // further than its own share.
    let withdraw = withdraw_all_token_types_handler(
        pool.curve_type,
        &pool.fees,
        pool.supply,
        0,
        0,
        pool.token_a,
        pool.token_b,
        pool.supply,
        false,
    )
    .unwrap();
    assert!(withdraw.token_a_amount <= pool.token_a);
    assert!(withdraw.token_b_amount <= pool.token_b);
    assert_eq!(withdraw.pool_tokens_to_burn, pool.supply);
}

#[test]
fn offset_pool_swaps_against_virtual_b_liquidity() {
    // An offset pool must fund both sides at creation; the offset then
    // adds virtual depth to the B side's pricing.
    let no_fees = Fees {
        trade_fee_numerator: 0,
        trade_fee_denominator: 0,
        owner_trade_fee_numerator: 0,
        owner_trade_fee_denominator: 0,
        owner_withdraw_fee_numerator: 0,
        owner_withdraw_fee_denominator: 0,
        host_fee_numerator: 0,
        host_fee_denominator: 0,
    };
    let curve = CurveType::Offset { token_b_offset: 1_000_000 };
    assert_eq!(
        initialize_handler(&curve, &no_fees, 1_000_000, 0, None),
        Err(token_swap::errors::SwapError::EmptySupply)
    );
    let supply = initialize_handler(&curve, &no_fees, 1_000_000, 1, None).unwrap();

    // Token B is sold into the pool against the mostly virtual B side.
    let swap = swap_handler(
        curve,
        &no_fees,
        50_000,
        0,
        1,
        1_000_000,
        supply,
        TradeDirection::BtoA,
        false,
        false,
    )
    .unwrap();
    assert!(swap.destination_transfer_amount > 0);
    assert!(swap.destination_transfer_amount < 50_000);
}
