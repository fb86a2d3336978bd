//! Curve selection and the fee-composition layer.
//!
//! [`CurveType`] is the closed set of pricing strategies; [`SwapCurve`]
//! wraps one of them and debits the trading fees before pricing, then
//! credits them back into the pool afterwards.

use vstd::prelude::*;
use crate::errors::SwapError;
use crate::fees::{fee_result, pre_trading_fee_spec, Fees};
use crate::curves::calculator::{
    token_a_side, token_b_side, RoundDirection, SwapWithoutFeesResult, TradeDirection,
    TradingTokenResult, INITIAL_SWAP_POOL_AMOUNT,
};
use crate::curves::constant_price::{ConstantPriceCurve, trading_tokens_to_pool_tokens_spec};
use crate::curves::constant_product::{
    ceiling_share, floor_share, share_not_dust, single_deposit_ok, single_deposit_pool_tokens,
    single_withdraw_ok, single_withdraw_pool_tokens, source_reserve, swap_new_destination,
    swap_new_source, swap_ok, trading_tokens_ok, ConstantProductCurve,
};
use crate::curves::offset::OffsetCurve;

verus! {

/// The pricing strategy of a pool, fixed at creation.
#[derive(Clone, Copy, Debug, PartialEq, Eq, Structural)]
pub enum CurveType {
    /// Uniswap-style constant product curve, invariant
    /// `token_a_amount * token_b_amount`.
    ConstantProduct,
    /// Flat line, always exchanging at a fixed price.
    ConstantPrice {
        /// Amount of token A required to get 1 token B.
        token_b_price: u64,
    },
    /// Like the constant product curve, but the token B side carries a
    /// faked offset.
    Offset {
        /// Amount to offset the token B liquidity account by.
        token_b_offset: u64,
    },
}

/// What a fee-free swap quote returns for each curve, as a function of
/// its inputs.
pub open spec fn curve_swap_spec(
    curve_type: CurveType,
    source_amount: u128,
    swap_source_amount: u128,
    swap_destination_amount: u128,
    trade_direction: TradeDirection,
) -> Option<SwapWithoutFeesResult> {
    match curve_type {
        CurveType::ConstantProduct => constant_product_swap_spec(
            source_amount,
            swap_source_amount,
            swap_destination_amount,
        ),
        CurveType::ConstantPrice { token_b_price } => match trade_direction {
            TradeDirection::BtoA => if source_amount >= 1 && token_b_price >= 1 && source_amount
                * token_b_price <= u128::MAX {
                Some(
                    SwapWithoutFeesResult {
                        source_amount_swapped: source_amount,
                        destination_amount_swapped: (source_amount * token_b_price) as u128,
                    },
                )
            } else {
                None
            },
            TradeDirection::AtoB => if token_b_price >= 1 && (source_amount as int) / (
            token_b_price as int) >= 1 {
                Some(
                    SwapWithoutFeesResult {
                        source_amount_swapped: (((source_amount as int) / (token_b_price as int))
                            * token_b_price) as u128,
                        destination_amount_swapped: ((source_amount as int) / (
                        token_b_price as int)) as u128,
                    },
                )
            } else {
                None
            },
        },
        CurveType::Offset { token_b_offset } => {
            let shifted_source: int = if trade_direction is BtoA {
                swap_source_amount + token_b_offset
            } else {
                swap_source_amount as int
            };
            let shifted_destination: int = if trade_direction is AtoB {
                swap_destination_amount + token_b_offset
            } else {
                swap_destination_amount as int
            };
            if shifted_source > u128::MAX || shifted_destination > u128::MAX {
                None
            } else {
                constant_product_swap_spec(
                    source_amount,
                    shifted_source as u128,
                    shifted_destination as u128,
                )
            }
        },
    }
}

/// The constant-product quote as a value.
pub open spec fn constant_product_swap_spec(
    source_amount: u128,
    swap_source_amount: u128,
    swap_destination_amount: u128,
) -> Option<SwapWithoutFeesResult> {
    if swap_ok(source_amount, swap_source_amount, swap_destination_amount) {
        Some(
            SwapWithoutFeesResult {
                source_amount_swapped: (swap_new_source(
                    source_amount,
                    swap_source_amount,
                    swap_destination_amount,
                ) - swap_source_amount) as u128,
                destination_amount_swapped: (swap_destination_amount - swap_new_destination(
                    source_amount,
                    swap_source_amount,
                    swap_destination_amount,
                )) as u128,
            },
        )
    } else {
        None
    }
}

/// Result of a fee-inclusive swap.
#[derive(Clone, Copy, Debug, PartialEq, Eq, Structural)]
pub struct SwapResult {
    /// New amount of source token held by the pool.
    pub new_swap_source_amount: u128,
    /// New amount of destination token held by the pool.
    pub new_swap_destination_amount: u128,
    /// Amount of source token swapped, fees included.
    pub source_amount_swapped: u128,
    /// Amount of destination token swapped.
    pub destination_amount_swapped: u128,
    /// Amount of source tokens going to the pool holders.
    pub trade_fee: u128,
    /// Amount of source tokens going to the owner.
    pub owner_fee: u128,
}

/// Trade fee plus owner trade fee on `source_amount`, or nothing when
/// either computation or their sum overflows.
pub open spec fn total_fees_spec(fees: Fees, source_amount: u128) -> Option<u128> {
    let trade = fee_result(
        source_amount,
        fees.trade_fee_numerator as u128,
        fees.trade_fee_denominator as u128,
    );
    let owner = fee_result(
        source_amount,
        fees.owner_trade_fee_numerator as u128,
        fees.owner_trade_fee_denominator as u128,
    );
    if trade is Some && owner is Some && trade->0 + owner->0 <= u128::MAX {
        Some((trade->0 + owner->0) as u128)
    } else {
        None
    }
}

/// What a fee-inclusive swap returns: fees are debited from the source
/// amount, the curve prices the rest, and the fees are credited back
/// into the source side of the pool.
pub open spec fn swap_curve_swap_spec(
    curve_type: CurveType,
    source_amount: u128,
    swap_source_amount: u128,
    swap_destination_amount: u128,
    trade_direction: TradeDirection,
    fees: Fees,
) -> Option<SwapResult> {
    match total_fees_spec(fees, source_amount) {
        None => None,
        Some(total_fees) => if total_fees > source_amount {
            None
        } else {
            match curve_swap_spec(
                curve_type,
                (source_amount - total_fees) as u128,
                swap_source_amount,
                swap_destination_amount,
                trade_direction,
            ) {
                None => None,
                Some(quote) => {
                    let gross_source = quote.source_amount_swapped + total_fees;
                    if gross_source > u128::MAX || swap_source_amount + gross_source > u128::MAX
                        || quote.destination_amount_swapped > swap_destination_amount {
                        None
                    } else {
                        Some(
                            SwapResult {
                                new_swap_source_amount: (swap_source_amount
                                    + gross_source) as u128,
                                new_swap_destination_amount: (swap_destination_amount
                                    - quote.destination_amount_swapped) as u128,
                                source_amount_swapped: gross_source as u128,
                                destination_amount_swapped: quote.destination_amount_swapped,
                                trade_fee: fee_result(
                                    source_amount,
                                    fees.trade_fee_numerator as u128,
                                    fees.trade_fee_denominator as u128,
                                )->0,
                                owner_fee: fee_result(
                                    source_amount,
                                    fees.owner_trade_fee_numerator as u128,
                                    fees.owner_trade_fee_denominator as u128,
                                )->0,
                            },
                        )
                    }
                },
            }
        },
    }
}

/// What a proportional conversion returns for each curve.
pub open spec fn curve_trading_tokens_spec(
    curve_type: CurveType,
    pool_tokens: u128,
    pool_token_supply: u128,
    swap_token_a_amount: u128,
    swap_token_b_amount: u128,
    round_direction: RoundDirection,
) -> Option<TradingTokenResult> {
    match curve_type {
        CurveType::ConstantProduct => constant_product_trading_tokens_spec(
            pool_tokens,
            pool_token_supply,
            swap_token_a_amount,
            swap_token_b_amount,
            round_direction,
        ),
        CurveType::ConstantPrice { token_b_price } => constant_price_trading_tokens_spec(
            token_b_price,
            pool_tokens,
            pool_token_supply,
            swap_token_a_amount,
            swap_token_b_amount,
            round_direction,
        ),
        CurveType::Offset { token_b_offset } => if swap_token_b_amount + token_b_offset
            > u128::MAX {
            None
        } else {
            constant_product_trading_tokens_spec(
                pool_tokens,
                pool_token_supply,
                swap_token_a_amount,
                (swap_token_b_amount + token_b_offset) as u128,
                round_direction,
            )
        },
    }
}

/// The constant-product proportional conversion as a value; a ceiling
/// conversion refuses a share that would round dust to zero.
pub open spec fn constant_product_trading_tokens_spec(
    pool_tokens: u128,
    pool_token_supply: u128,
    swap_token_a_amount: u128,
    swap_token_b_amount: u128,
    round_direction: RoundDirection,
) -> Option<TradingTokenResult> {
    if trading_tokens_ok(pool_tokens, swap_token_a_amount, swap_token_b_amount, pool_token_supply) {
        match round_direction {
            RoundDirection::Floor => Some(
                TradingTokenResult {
                    token_a_amount: floor_share(
                        pool_tokens,
                        swap_token_a_amount,
                        pool_token_supply,
                    ) as u128,
                    token_b_amount: floor_share(
                        pool_tokens,
                        swap_token_b_amount,
                        pool_token_supply,
                    ) as u128,
                },
            ),
            RoundDirection::Ceiling => if share_not_dust(
                pool_tokens,
                swap_token_a_amount,
                pool_token_supply,
            ) && share_not_dust(pool_tokens, swap_token_b_amount, pool_token_supply) {
                Some(
                    TradingTokenResult {
                        token_a_amount: ceiling_share(
                            pool_tokens,
                            swap_token_a_amount,
                            pool_token_supply,
                        ) as u128,
                        token_b_amount: ceiling_share(
                            pool_tokens,
                            swap_token_b_amount,
                            pool_token_supply,
                        ) as u128,
                    },
                )
            } else {
                None
            },
        }
    } else {
        None
    }
}

/// The constant-price proportional conversion as a value: the pool's
/// additive worth is split between the A side and the price-weighted B
/// side.
pub open spec fn constant_price_trading_tokens_spec(
    token_b_price: u64,
    pool_tokens: u128,
    pool_token_supply: u128,
    swap_token_a_amount: u128,
    swap_token_b_amount: u128,
    round_direction: RoundDirection,
) -> Option<TradingTokenResult> {
    let v = crate::curves::constant_price::price_pool_value(
        swap_token_a_amount,
        swap_token_b_amount,
        token_b_price,
    );
    if !crate::curves::constant_price::price_pool_value_ok(
        swap_token_a_amount,
        swap_token_b_amount,
        token_b_price,
    ) || pool_tokens * v > u128::MAX || pool_token_supply == 0 || token_b_price == 0 {
        None
    } else {
        match round_direction {
            RoundDirection::Floor => Some(
                TradingTokenResult {
                    token_a_amount: ((pool_tokens * v) / (pool_token_supply as int)) as u128,
                    token_b_amount: (((pool_tokens * v) / (token_b_price as int)) / (
                    pool_token_supply as int)) as u128,
                },
            ),
            RoundDirection::Ceiling => if (pool_tokens * v) / (pool_token_supply as int) == 0 || (
            pool_tokens * v) / (token_b_price as int) == 0 || crate::math::ceil_div_int(
                pool_tokens * v,
                token_b_price as int,
            ) / (pool_token_supply as int) == 0 {
                None
            } else {
                Some(
                    TradingTokenResult {
                        token_a_amount: crate::math::ceil_div_int(
                            pool_tokens * v,
                            pool_token_supply as int,
                        ) as u128,
                        token_b_amount: crate::math::ceil_div_int(
                            crate::math::ceil_div_int(pool_tokens * v, token_b_price as int),
                            pool_token_supply as int,
                        ) as u128,
                    },
                )
            },
        }
    }
}

/// What a fee-free single-sided deposit returns for each curve.
pub open spec fn curve_deposit_single_spec(
    curve_type: CurveType,
    source_amount: u128,
    swap_token_a_amount: u128,
    swap_token_b_amount: u128,
    pool_supply: u128,
    trade_direction: TradeDirection,
) -> Option<u128> {
    match curve_type {
        CurveType::ConstantProduct => {
            let reserve = source_reserve(trade_direction, swap_token_a_amount, swap_token_b_amount);
            if single_deposit_ok(source_amount, reserve, pool_supply, RoundDirection::Floor) {
                Some(
                    single_deposit_pool_tokens(
                        source_amount,
                        reserve,
                        pool_supply,
                        RoundDirection::Floor,
                    ) as u128,
                )
            } else {
                None
            }
        },
        CurveType::ConstantPrice { token_b_price } => trading_tokens_to_pool_tokens_spec(
            token_b_price,
            source_amount,
            swap_token_a_amount,
            swap_token_b_amount,
            pool_supply,
            trade_direction,
            RoundDirection::Floor,
        ),
        CurveType::Offset { token_b_offset } => if swap_token_b_amount + token_b_offset
            > u128::MAX {
            None
        } else {
            let reserve = source_reserve(
                trade_direction,
                swap_token_a_amount,
                (swap_token_b_amount + token_b_offset) as u128,
            );
            if single_deposit_ok(source_amount, reserve, pool_supply, RoundDirection::Floor) {
                Some(
                    single_deposit_pool_tokens(
                        source_amount,
                        reserve,
                        pool_supply,
                        RoundDirection::Floor,
                    ) as u128,
                )
            } else {
                None
            }
        },
    }
}

/// What a fee-free exact-out single-sided withdrawal returns for each
/// curve.
pub open spec fn curve_withdraw_single_spec(
    curve_type: CurveType,
    source_amount: u128,
    swap_token_a_amount: u128,
    swap_token_b_amount: u128,
    pool_supply: u128,
    trade_direction: TradeDirection,
    round_direction: RoundDirection,
) -> Option<u128> {
    match curve_type {
        CurveType::ConstantProduct => {
            let reserve = source_reserve(trade_direction, swap_token_a_amount, swap_token_b_amount);
            if single_withdraw_ok(source_amount, reserve) {
                Some(
                    single_withdraw_pool_tokens(
                        source_amount,
                        reserve,
                        pool_supply,
                        round_direction,
                    ) as u128,
                )
            } else {
                None
            }
        },
        CurveType::ConstantPrice { token_b_price } => trading_tokens_to_pool_tokens_spec(
            token_b_price,
            source_amount,
            swap_token_a_amount,
            swap_token_b_amount,
            pool_supply,
            trade_direction,
            round_direction,
        ),
        CurveType::Offset { token_b_offset } => if swap_token_b_amount + token_b_offset
            > u128::MAX {
            None
        } else {
            let reserve = source_reserve(
                trade_direction,
                swap_token_a_amount,
                (swap_token_b_amount + token_b_offset) as u128,
            );
            if single_withdraw_ok(source_amount, reserve) {
                Some(
                    single_withdraw_pool_tokens(
                        source_amount,
                        reserve,
                        pool_supply,
                        round_direction,
                    ) as u128,
                )
            } else {
                None
            }
        },
    }
}

impl CurveType {
    /// Whether the curve parameters are acceptable.
    pub fn validate(&self) -> (r: Result<(), SwapError>)
        ensures
            r is Ok <==> match *self {
                CurveType::ConstantProduct => true,
                CurveType::ConstantPrice { token_b_price } => token_b_price > 0,
                CurveType::Offset { token_b_offset } => token_b_offset > 0,
            },
            r is Err ==> r->Err_0 == SwapError::InvalidCurve,
    {
        match *self {
            CurveType::ConstantProduct => (ConstantProductCurve {  }).validate(),
            CurveType::ConstantPrice { token_b_price } => (ConstantPriceCurve {
                token_b_price,
            }).validate(),
            CurveType::Offset { token_b_offset } => (OffsetCurve { token_b_offset }).validate(),
        }
    }

    /// Whether the initial reserves are acceptable for this curve: the
    /// A side must always be funded, and the B side everywhere but on
    /// the flat curve, whose price pegs an empty B side.
    pub fn validate_supply(&self, token_a_amount: u64, token_b_amount: u64) -> (r: Result<
        (),
        SwapError,
    >)
        ensures
            r is Ok <==> (token_a_amount > 0 && ((*self is ConstantProduct || *self is Offset)
                ==> token_b_amount > 0)),
            r is Err ==> r->Err_0 == SwapError::EmptySupply,
    {
        match *self {
            CurveType::ConstantProduct => (ConstantProductCurve {  }).validate_supply(
                token_a_amount,
                token_b_amount,
            ),
            CurveType::ConstantPrice { token_b_price } => (ConstantPriceCurve {
                token_b_price,
            }).validate_supply(token_a_amount, token_b_amount),
            CurveType::Offset { token_b_offset } => (OffsetCurve { token_b_offset }).validate_supply(
                token_a_amount,
                token_b_amount,
            ),
        }
    }

    /// Whether outside deposits are accepted; only the offset curve
    /// refuses them.
    pub fn allows_deposits(&self) -> (r: bool)
        ensures
            r == !(*self is Offset),
    {
        match *self {
            CurveType::ConstantProduct => (ConstantProductCurve {  }).allows_deposits(),
            CurveType::ConstantPrice { token_b_price } => (ConstantPriceCurve {
                token_b_price,
            }).allows_deposits(),
            CurveType::Offset { token_b_offset } => (OffsetCurve { token_b_offset }).allows_deposits(),
        }
    }

    /// Fixed initial supply for a new pool, the same for every curve.
    pub fn new_pool_supply(&self) -> (r: u128)
        ensures
            r == INITIAL_SWAP_POOL_AMOUNT,
    {
        INITIAL_SWAP_POOL_AMOUNT
    }

    /// Proportional conversion of pool tokens into both reserves.
    pub fn pool_tokens_to_trading_tokens(
        &self,
        pool_tokens: u128,
        pool_token_supply: u128,
        swap_token_a_amount: u128,
        swap_token_b_amount: u128,
        round_direction: RoundDirection,
    ) -> (r: Option<TradingTokenResult>)
        ensures
            r == curve_trading_tokens_spec(
                *self,
                pool_tokens,
                pool_token_supply,
                swap_token_a_amount,
                swap_token_b_amount,
                round_direction,
            ),
    {
        match *self {
            CurveType::ConstantProduct => (ConstantProductCurve {  }).pool_tokens_to_trading_tokens(
                pool_tokens,
                pool_token_supply,
                swap_token_a_amount,
                swap_token_b_amount,
                round_direction,
            ),
            CurveType::ConstantPrice { token_b_price } => (ConstantPriceCurve {
                token_b_price,
            }).pool_tokens_to_trading_tokens(
                pool_tokens,
                pool_token_supply,
                swap_token_a_amount,
                swap_token_b_amount,
                round_direction,
            ),
            CurveType::Offset { token_b_offset } => (OffsetCurve {
                token_b_offset,
            }).pool_tokens_to_trading_tokens(
                pool_tokens,
                pool_token_supply,
                swap_token_a_amount,
                swap_token_b_amount,
                round_direction,
            ),
        }
    }

    /// Fee-free single-sided deposit on this curve.
    pub fn deposit_single_token_type(
        &self,
        source_amount: u128,
        swap_token_a_amount: u128,
        swap_token_b_amount: u128,
        pool_supply: u128,
        trade_direction: TradeDirection,
    ) -> (r: Option<u128>)
        ensures
            r == curve_deposit_single_spec(
                *self,
                source_amount,
                swap_token_a_amount,
                swap_token_b_amount,
                pool_supply,
                trade_direction,
            ),
    {
        match *self {
            CurveType::ConstantProduct => (ConstantProductCurve {  }).deposit_single_token_type(
                source_amount,
                swap_token_a_amount,
                swap_token_b_amount,
                pool_supply,
                trade_direction,
            ),
            CurveType::ConstantPrice { token_b_price } => (ConstantPriceCurve {
                token_b_price,
            }).deposit_single_token_type(
                source_amount,
                swap_token_a_amount,
                swap_token_b_amount,
                pool_supply,
                trade_direction,
            ),
            CurveType::Offset { token_b_offset } => (OffsetCurve {
                token_b_offset,
            }).deposit_single_token_type(
                source_amount,
                swap_token_a_amount,
                swap_token_b_amount,
                pool_supply,
                trade_direction,
            ),
        }
    }

    /// Fee-free exact-out single-sided withdrawal on this curve.
    pub fn withdraw_single_token_type_exact_out(
        &self,
        source_amount: u128,
        swap_token_a_amount: u128,
        swap_token_b_amount: u128,
        pool_supply: u128,
        trade_direction: TradeDirection,
        round_direction: RoundDirection,
    ) -> (r: Option<u128>)
        ensures
            r == curve_withdraw_single_spec(
                *self,
                source_amount,
                swap_token_a_amount,
                swap_token_b_amount,
                pool_supply,
                trade_direction,
                round_direction,
            ),
    {
        match *self {
            CurveType::ConstantProduct => (ConstantProductCurve {
            }).withdraw_single_token_type_exact_out(
                source_amount,
                swap_token_a_amount,
                swap_token_b_amount,
                pool_supply,
                trade_direction,
                round_direction,
            ),
            CurveType::ConstantPrice { token_b_price } => (ConstantPriceCurve {
                token_b_price,
            }).withdraw_single_token_type_exact_out(
                source_amount,
                swap_token_a_amount,
                swap_token_b_amount,
                pool_supply,
                trade_direction,
                round_direction,
            ),
            CurveType::Offset { token_b_offset } => (OffsetCurve {
                token_b_offset,
            }).withdraw_single_token_type_exact_out(
                source_amount,
                swap_token_a_amount,
                swap_token_b_amount,
                pool_supply,
                trade_direction,
                round_direction,
            ),
        }
    }

    /// Normalized pool value on this curve.
    pub fn normalized_value(&self, swap_token_a_amount: u128, swap_token_b_amount: u128) -> (r:
        Option<u128>)
        ensures
            r == curve_normalized_value_spec(*self, swap_token_a_amount, swap_token_b_amount),
    {
        match *self {
            CurveType::ConstantProduct => (ConstantProductCurve {  }).normalized_value(
                swap_token_a_amount,
                swap_token_b_amount,
            ),
            CurveType::ConstantPrice { token_b_price } => (ConstantPriceCurve {
                token_b_price,
            }).normalized_value(swap_token_a_amount, swap_token_b_amount),
            CurveType::Offset { token_b_offset } => (OffsetCurve { token_b_offset }).normalized_value(
                swap_token_a_amount,
                swap_token_b_amount,
            ),
        }
    }
}

/// What the normalized pool value is for each curve: the geometric mean
/// of the (possibly offset) reserves, or half the additive worth for
/// the flat curve.
pub open spec fn curve_normalized_value_spec(
    curve_type: CurveType,
    swap_token_a_amount: u128,
    swap_token_b_amount: u128,
) -> Option<u128> {
    match curve_type {
        CurveType::ConstantProduct => Some(
            crate::curves::constant_product::normalized_value_spec(
                swap_token_a_amount,
                swap_token_b_amount,
            ) as u128,
        ),
        CurveType::ConstantPrice { token_b_price } => if crate::curves::constant_price::price_pool_value_ok(
            swap_token_a_amount,
            swap_token_b_amount,
            token_b_price,
        ) {
            Some(
                crate::curves::constant_price::price_pool_value(
                    swap_token_a_amount,
                    swap_token_b_amount,
                    token_b_price,
                ) as u128,
            )
        } else {
            None
        },
        CurveType::Offset { token_b_offset } => if swap_token_b_amount + token_b_offset
            <= u128::MAX {
            Some(
                crate::curves::constant_product::normalized_value_spec(
                    swap_token_a_amount,
                    (swap_token_b_amount + token_b_offset) as u128,
                ) as u128,
            )
        } else {
            None
        },
    }
}

/// A fee-inclusive constant-product swap never shrinks the pool: the
/// fees are credited back into the source reserve, so the product of
/// the reserves after the swap is at least the product before it.
pub proof fn lemma_swap_with_fees_preserves_value(
    source_amount: u128,
    swap_source_amount: u128,
    swap_destination_amount: u128,
    trade_direction: TradeDirection,
    fees: Fees,
)
    requires
        swap_curve_swap_spec(
            CurveType::ConstantProduct,
            source_amount,
            swap_source_amount,
            swap_destination_amount,
            trade_direction,
            fees,
        ) is Some,
    ensures
        ({
            let r = swap_curve_swap_spec(
                CurveType::ConstantProduct,
                source_amount,
                swap_source_amount,
                swap_destination_amount,
                trade_direction,
                fees,
            )->0;
            r.new_swap_source_amount * r.new_swap_destination_amount >= swap_source_amount
                * swap_destination_amount
        }),
{
    let x = swap_source_amount;
    let y = swap_destination_amount;
    let total = total_fees_spec(fees, source_amount)->0;
    let net = (source_amount - total) as u128;
    crate::curves::constant_product::lemma_swap_bounds(net, x, y);
    crate::curves::constant_product::lemma_swap_preserves_value(net, x, y);
    let b = swap_new_source(net, x, y);
    let d = swap_new_destination(net, x, y);
    let r = swap_curve_swap_spec(
        CurveType::ConstantProduct,
        source_amount,
        x,
        y,
        trade_direction,
        fees,
    )->0;
    assert(r.new_swap_source_amount >= b && r.new_swap_destination_amount == d);
    assert(r.new_swap_source_amount * r.new_swap_destination_amount >= b * d) by (nonlinear_arith)
        requires
            r.new_swap_source_amount >= b,
            r.new_swap_destination_amount == d,
            b >= 0,
            d >= 0,
    ;
}

/// A fee-less swap never lowers the pool's normalized value, on any
/// curve and in either direction, and rounding can raise it by at most
/// one unit: with both trade-fee numerators zero, whenever the swap and
/// the normalized values before and after it are defined, the value
/// after lies between the value before and one above it.
pub proof fn lemma_feeless_swap_preserves_normalized_value(
    curve_type: CurveType,
    source_amount: u128,
    swap_source_amount: u128,
    swap_destination_amount: u128,
    trade_direction: TradeDirection,
    fees: Fees,
)
    requires
        fees.trade_fee_numerator == 0,
        fees.owner_trade_fee_numerator == 0,
        swap_curve_swap_spec(
            curve_type,
            source_amount,
            swap_source_amount,
            swap_destination_amount,
            trade_direction,
            fees,
        ) is Some,
        curve_normalized_value_spec(
            curve_type,
            token_a_side(trade_direction, swap_source_amount, swap_destination_amount),
            token_b_side(trade_direction, swap_source_amount, swap_destination_amount),
        ) is Some,
        ({
            let s = swap_curve_swap_spec(
                curve_type,
                source_amount,
                swap_source_amount,
                swap_destination_amount,
                trade_direction,
                fees,
            )->0;
            curve_normalized_value_spec(
                curve_type,
                token_a_side(
                    trade_direction,
                    s.new_swap_source_amount,
                    s.new_swap_destination_amount,
                ),
                token_b_side(
                    trade_direction,
                    s.new_swap_source_amount,
                    s.new_swap_destination_amount,
                ),
            ) is Some
        }),
    ensures
        ({
            let s = swap_curve_swap_spec(
                curve_type,
                source_amount,
                swap_source_amount,
                swap_destination_amount,
                trade_direction,
                fees,
            )->0;
            let v1 = curve_normalized_value_spec(
                curve_type,
                token_a_side(trade_direction, swap_source_amount, swap_destination_amount),
                token_b_side(trade_direction, swap_source_amount, swap_destination_amount),
            )->0;
            let v2 = curve_normalized_value_spec(
                curve_type,
                token_a_side(
                    trade_direction,
                    s.new_swap_source_amount,
                    s.new_swap_destination_amount,
                ),
                token_b_side(
                    trade_direction,
                    s.new_swap_source_amount,
                    s.new_swap_destination_amount,
                ),
            )->0;
            v1 <= v2 <= v1 + 1
        }),
{
    let x = swap_source_amount;
    let y = swap_destination_amount;
    assert(total_fees_spec(fees, source_amount) == Some(0u128));
    assert((source_amount - 0) as u128 == source_amount);
    let quote = curve_swap_spec(curve_type, source_amount, x, y, trade_direction)->0;
    let s = swap_curve_swap_spec(curve_type, source_amount, x, y, trade_direction, fees)->0;
    assert(s.new_swap_source_amount == x + quote.source_amount_swapped);
    assert(s.new_swap_destination_amount == y - quote.destination_amount_swapped);
    match curve_type {
        CurveType::ConstantProduct => {
            crate::curves::constant_product::lemma_swap_bounds(source_amount, x, y);
            crate::curves::constant_product::lemma_swap_preserves_value(source_amount, x, y);
            let b = swap_new_source(source_amount, x, y);
            let d = swap_new_destination(source_amount, x, y);
            assert(s.new_swap_source_amount == b && s.new_swap_destination_amount == d);
            assert(b * d < crate::math::pow256() && x * y < crate::math::pow256())
                by (nonlinear_arith)
                requires
                    0 <= b <= u128::MAX,
                    0 <= d <= u128::MAX,
                    0 <= x,
                    0 <= y,
                    x * y <= u128::MAX,
                    crate::math::pow256() == 0x100000000000000000000000000000000int
                        * 0x100000000000000000000000000000000int,
            ;
            crate::math::lemma_sqrt_floor_fits_u128(x * y);
            crate::math::lemma_sqrt_floor_fits_u128(b * d);
            if trade_direction is BtoA {
                assert(y * x == x * y) by (nonlinear_arith);
                assert(d * b == b * d) by (nonlinear_arith);
            }
        },
        CurveType::ConstantPrice { token_b_price } => {
            let a1 = token_a_side(trade_direction, x, y);
            let b1 = token_b_side(trade_direction, x, y);
            if trade_direction is AtoB {
                let dq = (source_amount as int) / (token_b_price as int);
                vstd::arithmetic::div_mod::lemma_fundamental_div_mod(
                    source_amount as int,
                    token_b_price as int,
                );
                // The trimmed input is the exact price of the output and
                // stays within the source amount, so its cast is exact.
                assert(0 <= dq * token_b_price <= source_amount) by (nonlinear_arith)
                    requires
                        source_amount == token_b_price * dq + (source_amount as int) % (
                        token_b_price as int),
                        0 <= (source_amount as int) % (token_b_price as int),
                        token_b_price >= 1,
                        dq >= 1,
                ;
                assert(quote.source_amount_swapped == dq * token_b_price);
                assert(quote.destination_amount_swapped == dq);
            }
            crate::curves::constant_price::lemma_price_swap_preserves_value(
                a1,
                b1,
                token_b_price,
                quote.source_amount_swapped,
                quote.destination_amount_swapped,
                trade_direction,
            );
            // Both half-sums fit in 128 bits, so the casts are exact.
            vstd::arithmetic::div_mod::lemma_fundamental_div_mod(
                a1 + b1 * token_b_price,
                2,
            );
            let a2 = token_a_side(
                trade_direction,
                s.new_swap_source_amount,
                s.new_swap_destination_amount,
            );
            let b2 = token_b_side(
                trade_direction,
                s.new_swap_source_amount,
                s.new_swap_destination_amount,
            );
            assert(a2 + b2 * token_b_price == a1 + b1 * token_b_price);
        },
        CurveType::Offset { token_b_offset } => {
            let xs: u128 = if trade_direction is BtoA {
                (x + token_b_offset) as u128
            } else {
                x
            };
            let ys: u128 = if trade_direction is AtoB {
                (y + token_b_offset) as u128
            } else {
                y
            };
            crate::curves::constant_product::lemma_swap_bounds(source_amount, xs, ys);
            crate::curves::constant_product::lemma_swap_preserves_value(source_amount, xs, ys);
            let b = swap_new_source(source_amount, xs, ys);
            let d = swap_new_destination(source_amount, xs, ys);
            assert(xs + quote.source_amount_swapped == b);
            assert(ys - quote.destination_amount_swapped == d);
            assert(b * d < crate::math::pow256() && xs * ys < crate::math::pow256())
                by (nonlinear_arith)
                requires
                    0 <= b <= u128::MAX,
                    0 <= d <= u128::MAX,
                    0 <= xs,
                    0 <= ys,
                    xs * ys <= u128::MAX,
                    crate::math::pow256() == 0x100000000000000000000000000000000int
                        * 0x100000000000000000000000000000000int,
            ;
            crate::math::lemma_sqrt_floor_fits_u128(xs * ys);
            crate::math::lemma_sqrt_floor_fits_u128(b * d);
            if trade_direction is BtoA {
                assert(ys * xs == xs * ys) by (nonlinear_arith);
                assert(d * b == b * d) by (nonlinear_arith);
            }
        },
    }
}

/// Half of a deposit, floored but never zero: the notional amount that
/// would be swapped to the other side, on which trading fees are due.
pub open spec fn half_source_spec(source_amount: u128) -> u128 {
    if source_amount / 2 == 0 {
        1u128
    } else {
        (source_amount / 2) as u128
    }
}

/// What the fee-inclusive single-sided deposit returns: the trading
/// fees on the notional half are debited, then the curve converts the
/// rest.
pub open spec fn swap_curve_deposit_single_spec(
    curve_type: CurveType,
    source_amount: u128,
    swap_token_a_amount: u128,
    swap_token_b_amount: u128,
    pool_supply: u128,
    trade_direction: TradeDirection,
    fees: Fees,
) -> Option<u128> {
    if source_amount == 0 {
        Some(0u128)
    } else {
        match total_fees_spec(fees, half_source_spec(source_amount)) {
            None => None,
            Some(total_fees) => if total_fees > source_amount {
                None
            } else {
                curve_deposit_single_spec(
                    curve_type,
                    (source_amount - total_fees) as u128,
                    swap_token_a_amount,
                    swap_token_b_amount,
                    pool_supply,
                    trade_direction,
                )
            },
        }
    }
}

/// What the fee-inclusive exact-out withdrawal returns: the inverse
/// trading fee on the rounded-up half is added back, then the curve
/// converts the grossed-up amount with ceiling rounding.
pub open spec fn swap_curve_withdraw_single_spec(
    curve_type: CurveType,
    source_amount: u128,
    swap_token_a_amount: u128,
    swap_token_b_amount: u128,
    pool_supply: u128,
    trade_direction: TradeDirection,
    fees: Fees,
) -> Option<u128> {
    if source_amount == 0 {
        Some(0u128)
    } else if source_amount == u128::MAX {
        None
    } else {
        let half = ((source_amount + 1) / 2) as u128;
        match pre_trading_fee_spec(fees, half) {
            None => None,
            Some(pre_fee) => if source_amount - half + pre_fee > u128::MAX {
                None
            } else {
                curve_withdraw_single_spec(
                    curve_type,
                    (source_amount - half + pre_fee) as u128,
                    swap_token_a_amount,
                    swap_token_b_amount,
                    pool_supply,
                    trade_direction,
                    RoundDirection::Ceiling,
                )
            },
        }
    }
}

/// A pricing curve together with its selector, the unit the fee layer
/// wraps.
#[derive(Clone, Copy, Debug, PartialEq, Eq, Structural)]
pub struct SwapCurve {
    /// The selected pricing strategy.
    pub curve_type: CurveType,
}

impl SwapCurve {
    /// Wraps a curve selection.
    pub fn new(curve_type: CurveType) -> (r: SwapCurve)
        ensures
            r.curve_type == curve_type,
    {
        SwapCurve { curve_type }
    }

    /// Subtracts fees, prices the remainder on the curve, and credits
    /// the fees back into the pool's source side.
    pub fn swap(
        &self,
        source_amount: u128,
        swap_source_amount: u128,
        swap_destination_amount: u128,
        trade_direction: TradeDirection,
        fees: &Fees,
    ) -> (r: Option<SwapResult>)
        ensures
            r == swap_curve_swap_spec(
                self.curve_type,
                source_amount,
                swap_source_amount,
                swap_destination_amount,
                trade_direction,
                *fees,
            ),
    {
        let trade_fee = match fees.trading_fee(source_amount) {
            Some(v) => v,
            None => {
                return None;
            },
        };
        let owner_fee = match fees.owner_trading_fee(source_amount) {
            Some(v) => v,
            None => {
                return None;
            },
        };
        let total_fees = match trade_fee.checked_add(owner_fee) {
            Some(v) => v,
            None => {
                return None;
            },
        };
        let source_amount_less_fees = match source_amount.checked_sub(total_fees) {
            Some(v) => v,
            None => {
                return None;
            },
        };
        let quote = match self.swap_without_fees(
            source_amount_less_fees,
            swap_source_amount,
            swap_destination_amount,
            trade_direction,
        ) {
            Some(q) => q,
            None => {
                return None;
            },
        };
        let source_amount_swapped = match quote.source_amount_swapped.checked_add(total_fees) {
            Some(v) => v,
            None => {
                return None;
            },
        };
        let new_swap_source_amount = match swap_source_amount.checked_add(source_amount_swapped) {
            Some(v) => v,
            None => {
                return None;
            },
        };
        let new_swap_destination_amount = match swap_destination_amount.checked_sub(
            quote.destination_amount_swapped,
        ) {
            Some(v) => v,
            None => {
                return None;
            },
        };
        Some(
            SwapResult {
                new_swap_source_amount,
                new_swap_destination_amount,
                source_amount_swapped,
                destination_amount_swapped: quote.destination_amount_swapped,
                trade_fee,
                owner_fee,
            },
        )
    }

    /// Pool tokens for a one-sided deposit, after charging the trading
    /// fees on the half of the deposit that is notionally swapped.
    pub fn deposit_single_token_type(
        &self,
        source_amount: u128,
        swap_token_a_amount: u128,
        swap_token_b_amount: u128,
        pool_supply: u128,
        trade_direction: TradeDirection,
        fees: &Fees,
    ) -> (r: Option<u128>)
        ensures
            r == swap_curve_deposit_single_spec(
                self.curve_type,
                source_amount,
                swap_token_a_amount,
                swap_token_b_amount,
                pool_supply,
                trade_direction,
                *fees,
            ),
    {
        if source_amount == 0 {
            return Some(0);
        }
        // Only the half that would be swapped to the other side incurs
        // trading fees.
        let half_source_amount: u128 = if source_amount / 2 == 0 {
            1
        } else {
            source_amount / 2
        };
        let trade_fee = match fees.trading_fee(half_source_amount) {
            Some(v) => v,
            None => {
                return None;
            },
        };
        let owner_fee = match fees.owner_trading_fee(half_source_amount) {
            Some(v) => v,
            None => {
                return None;
            },
        };
        let total_fees = match trade_fee.checked_add(owner_fee) {
            Some(v) => v,
            None => {
                return None;
            },
        };
        let source_amount = match source_amount.checked_sub(total_fees) {
            Some(v) => v,
            None => {
                return None;
            },
        };
        self.curve_type.deposit_single_token_type(
            source_amount,
            swap_token_a_amount,
            swap_token_b_amount,
            pool_supply,
            trade_direction,
        )
    }

    /// Pool tokens that must be burned so that, after the inverse
    /// trading fee on the notionally swapped half is added back, the
    /// exact requested output comes out.
    pub fn withdraw_single_token_type_exact_out(
        &self,
        source_amount: u128,
        swap_token_a_amount: u128,
        swap_token_b_amount: u128,
        pool_supply: u128,
        trade_direction: TradeDirection,
        fees: &Fees,
    ) -> (r: Option<u128>)
        ensures
            r == swap_curve_withdraw_single_spec(
                self.curve_type,
                source_amount,
                swap_token_a_amount,
                swap_token_b_amount,
                pool_supply,
                trade_direction,
                *fees,
            ),
    {
        if source_amount == 0 {
            return Some(0);
        }
        // Round the half up, and the conversion below up as well, so
        // the pool can never be shorted.
        let half_source_amount = match source_amount.checked_add(1) {
            Some(v) => v / 2,
            None => {
                return None;
            },
        };
        let pre_fee_source_amount = match fees.pre_trading_fee_amount(half_source_amount) {
            Some(v) => v,
            None => {
                return None;
            },
        };
        let source_amount = match source_amount.checked_sub(half_source_amount) {
            Some(v) => v,
            None => {
                return None;
            },
        };
        let source_amount = match source_amount.checked_add(pre_fee_source_amount) {
            Some(v) => v,
            None => {
                return None;
            },
        };
        self.curve_type.withdraw_single_token_type_exact_out(
            source_amount,
            swap_token_a_amount,
            swap_token_b_amount,
            pool_supply,
            trade_direction,
            RoundDirection::Ceiling,
        )
    }

    /// Fee-free quote on the selected curve.
    pub fn swap_without_fees(
        &self,
        source_amount: u128,
        swap_source_amount: u128,
        swap_destination_amount: u128,
        trade_direction: TradeDirection,
    ) -> (r: Option<SwapWithoutFeesResult>)
        ensures
            r == curve_swap_spec(
                self.curve_type,
                source_amount,
                swap_source_amount,
                swap_destination_amount,
                trade_direction,
            ),
    {
        match self.curve_type {
            CurveType::ConstantProduct => {
                let curve = ConstantProductCurve {  };
                curve.swap_without_fees(
                    source_amount,
                    swap_source_amount,
                    swap_destination_amount,
                    trade_direction,
                )
            },
            CurveType::ConstantPrice { token_b_price } => {
                let curve = ConstantPriceCurve { token_b_price };
                curve.swap_without_fees(
                    source_amount,
                    swap_source_amount,
                    swap_destination_amount,
                    trade_direction,
                )
            },
            CurveType::Offset { token_b_offset } => {
                let curve = OffsetCurve { token_b_offset };
                curve.swap_without_fees(
                    source_amount,
                    swap_source_amount,
                    swap_destination_amount,
                    trade_direction,
                )
            },
        }
    }
}

} // verus!
