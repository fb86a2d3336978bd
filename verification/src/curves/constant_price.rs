//! Constant-price curve: a fixed exchange rate between the two tokens.
//!
//! `token_b_price` is the amount of token A that buys one token B.  The
//! pool's worth is therefore additive, `token_a + token_b * price`, and
//! a swap moves value at the fixed rate with no slippage.

use vstd::prelude::*;
use vstd::arithmetic::div_mod::{lemma_fundamental_div_mod, lemma_fundamental_div_mod_converse};
use crate::errors::SwapError;
use crate::math::{
    ceil_div_int, checked_ceil_div, lemma_wide_range, pow256, wide_add_checked, wide_divmod,
    wide_mul, wide_mul_by_u128, Wide,
};
use crate::curves::calculator::{
    map_zero_to_none, RoundDirection, SwapWithoutFeesResult, TradeDirection, TradingTokenResult,
    INITIAL_SWAP_POOL_AMOUNT,
};

verus! {

/// Additive pool value of the constant-price curve, in token-A units,
/// halved to normalize between the two sides: the exact floored
/// half-sum, which always fits in 128 bits when the price-weighted B
/// side does.
pub open spec fn price_pool_value(
    swap_token_a_amount: u128,
    swap_token_b_amount: u128,
    token_b_price: u64,
) -> int {
    (swap_token_a_amount + swap_token_b_amount * token_b_price) / 2
}

/// Whether the additive pool value is computable in 128 bits: only the
/// price-weighted B side must fit, the final sum is halved before it is
/// taken.
pub open spec fn price_pool_value_ok(
    swap_token_a_amount: u128,
    swap_token_b_amount: u128,
    token_b_price: u64,
) -> bool {
    swap_token_b_amount * token_b_price <= u128::MAX
}

/// Value paid in by a single-sided operation, in token-A units.
pub open spec fn given_value_spec(
    token_b_price: u64,
    source_amount: u128,
    trade_direction: TradeDirection,
) -> int {
    match trade_direction {
        TradeDirection::AtoB => source_amount as int,
        TradeDirection::BtoA => source_amount * token_b_price,
    }
}

/// Un-normalized total pool value, in token-A units.
pub open spec fn total_value_spec(
    token_b_price: u64,
    swap_token_a_amount: u128,
    swap_token_b_amount: u128,
) -> int {
    swap_token_b_amount * token_b_price + swap_token_a_amount
}

/// Flat curve, always exchanging at `token_b_price`.
#[derive(Clone, Copy, Debug, Default, PartialEq, Eq, Structural)]
pub struct ConstantPriceCurve {
    /// Amount of token A required to get 1 token B.
    pub token_b_price: u64,
}

impl ConstantPriceCurve {
    /// Swap quote at the fixed rate.  Selling A rounds the output down
    /// and trims the input to the exact price of that output, so the
    /// pool never gives out more B than was paid for.
    pub fn swap_without_fees(
        &self,
        source_amount: u128,
        _swap_source_amount: u128,
        _swap_destination_amount: u128,
        trade_direction: TradeDirection,
    ) -> (r: Option<SwapWithoutFeesResult>)
        ensures
            trade_direction is BtoA ==> {
                &&& (r is Some <==> (source_amount >= 1 && self.token_b_price >= 1 && source_amount
                    * self.token_b_price <= u128::MAX))
                &&& (r is Some ==> r->0.source_amount_swapped == source_amount)
                &&& (r is Some ==> r->0.destination_amount_swapped == source_amount
                    * self.token_b_price)
            },
            trade_direction is AtoB ==> {
                &&& (r is Some <==> (self.token_b_price >= 1 && (source_amount as int) / (
                self.token_b_price as int) >= 1))
                &&& (r is Some ==> r->0.destination_amount_swapped == (source_amount as int) / (
                self.token_b_price as int))
                &&& (r is Some ==> r->0.source_amount_swapped == ((source_amount as int) / (
                self.token_b_price as int)) * self.token_b_price)
            },
    {
        let token_b_price = self.token_b_price as u128;
        let (source_amount_swapped, destination_amount_swapped): (u128, u128) =
            match trade_direction {
            TradeDirection::BtoA => {
                let destination = match source_amount.checked_mul(token_b_price) {
                    Some(d) => d,
                    None => {
                        return None;
                    },
                };
                (source_amount, destination)
            },
            TradeDirection::AtoB => {
                if token_b_price == 0 {
                    return None;
                }
                let destination_amount_swapped = source_amount / token_b_price;
                let remainder = source_amount % token_b_price;
                proof {
                    lemma_fundamental_div_mod(source_amount as int, token_b_price as int);
                    assert(remainder <= source_amount) by (nonlinear_arith)
                        requires
                            source_amount == token_b_price * (source_amount / token_b_price)
                                + remainder,
                            token_b_price >= 1,
                            source_amount / token_b_price >= 0,
                            remainder >= 0,
                    ;
                }
                // Trim the paid-in amount so the pool keeps no remainder
                // beyond the exact price of the output.
                let source_amount_swapped = source_amount - remainder;
                (source_amount_swapped, destination_amount_swapped)
            },
        };
        let source_amount_swapped = match map_zero_to_none(source_amount_swapped) {
            Some(v) => v,
            None => {
                proof {
                    if trade_direction is AtoB {
                        assert((source_amount as int) / (self.token_b_price as int) * self.token_b_price
                            == 0 ==> (source_amount as int) / (self.token_b_price as int) == 0)
                            by (nonlinear_arith)
                            requires self.token_b_price >= 1;
                    }
                }
                return None;
            },
        };
        let destination_amount_swapped = match map_zero_to_none(destination_amount_swapped) {
            Some(v) => v,
            None => {
                proof {
                    if trade_direction is BtoA {
                        assert(source_amount * self.token_b_price == 0 && source_amount >= 1
                            ==> self.token_b_price == 0) by (nonlinear_arith);
                    }
                }
                return None;
            },
        };
        proof {
            if trade_direction is AtoB {
                assert((source_amount as int) / (self.token_b_price as int) >= 1
                    ==> (source_amount as int) / (self.token_b_price as int) * self.token_b_price
                    >= 1) by (nonlinear_arith)
                    requires self.token_b_price >= 1;
            }
        }
        Some(SwapWithoutFeesResult { source_amount_swapped, destination_amount_swapped })
    }

    /// Converts a pool-token amount into the two reserves, weighting the
    /// B side by its price.
    pub fn pool_tokens_to_trading_tokens(
        &self,
        pool_tokens: u128,
        pool_token_supply: u128,
        swap_token_a_amount: u128,
        swap_token_b_amount: u128,
        round_direction: RoundDirection,
    ) -> (r: Option<TradingTokenResult>)
        ensures
            round_direction is Floor ==> {
                let v = price_pool_value(swap_token_a_amount, swap_token_b_amount, self.token_b_price);
                &&& (r is Some <==> (price_pool_value_ok(
                    swap_token_a_amount,
                    swap_token_b_amount,
                    self.token_b_price,
                ) && pool_tokens * v <= u128::MAX && pool_token_supply >= 1 && self.token_b_price
                    >= 1))
                &&& (r is Some ==> r->0.token_a_amount == (pool_tokens * v) / (
                pool_token_supply as int))
                &&& (r is Some ==> r->0.token_b_amount == ((pool_tokens * v) / (
                self.token_b_price as int)) / (pool_token_supply as int))
            },
            round_direction is Ceiling ==> {
                let v = price_pool_value(swap_token_a_amount, swap_token_b_amount, self.token_b_price);
                &&& (r is Some <==> (price_pool_value_ok(
                    swap_token_a_amount,
                    swap_token_b_amount,
                    self.token_b_price,
                ) && pool_tokens * v <= u128::MAX && pool_token_supply >= 1 && self.token_b_price
                    >= 1 && (pool_tokens * v) / (pool_token_supply as int) >= 1 && (pool_tokens * v)
                    / (self.token_b_price as int) >= 1 && ceil_div_int(
                    pool_tokens * v,
                    self.token_b_price as int,
                ) / (pool_token_supply as int) >= 1))
                &&& (r is Some ==> r->0.token_a_amount == ceil_div_int(
                    pool_tokens * v,
                    pool_token_supply as int,
                ))
                &&& (r is Some ==> r->0.token_b_amount == ceil_div_int(
                    ceil_div_int(pool_tokens * v, self.token_b_price as int),
                    pool_token_supply as int,
                ))
            },
    {
        let token_b_price = self.token_b_price as u128;
        let total_value = match self.normalized_value(swap_token_a_amount, swap_token_b_amount) {
            Some(v) => v,
            None => {
                return None;
            },
        };
        let scaled = match pool_tokens.checked_mul(total_value) {
            Some(s) => s,
            None => {
                return None;
            },
        };
        match round_direction {
            RoundDirection::Floor => {
                if pool_token_supply == 0 || token_b_price == 0 {
                    return None;
                }
                let token_a_amount = scaled / pool_token_supply;
                let token_b_amount = (scaled / token_b_price) / pool_token_supply;
                Some(TradingTokenResult { token_a_amount, token_b_amount })
            },
            RoundDirection::Ceiling => {
                let (token_a_amount, _) = match checked_ceil_div(scaled, pool_token_supply) {
                    Some(p) => p,
                    None => {
                        return None;
                    },
                };
                let (pool_value_as_token_b, _) = match checked_ceil_div(scaled, token_b_price) {
                    Some(p) => p,
                    None => {
                        return None;
                    },
                };
                let (token_b_amount, _) = match checked_ceil_div(
                    pool_value_as_token_b,
                    pool_token_supply,
                ) {
                    Some(p) => p,
                    None => {
                        return None;
                    },
                };
                Some(TradingTokenResult { token_a_amount, token_b_amount })
            },
        }
    }

    /// Pool tokens for a one-sided deposit, floored in the pool's favor.
    pub fn deposit_single_token_type(
        &self,
        source_amount: u128,
        swap_token_a_amount: u128,
        swap_token_b_amount: u128,
        pool_supply: u128,
        trade_direction: TradeDirection,
    ) -> (r: Option<u128>)
        ensures
            r == trading_tokens_to_pool_tokens_spec(
                self.token_b_price,
                source_amount,
                swap_token_a_amount,
                swap_token_b_amount,
                pool_supply,
                trade_direction,
                RoundDirection::Floor,
            ),
    {
        trading_tokens_to_pool_tokens(
            self.token_b_price,
            source_amount,
            swap_token_a_amount,
            swap_token_b_amount,
            pool_supply,
            trade_direction,
            RoundDirection::Floor,
        )
    }

    /// Pool tokens burned for an exact one-sided output.
    pub fn withdraw_single_token_type_exact_out(
        &self,
        source_amount: u128,
        swap_token_a_amount: u128,
        swap_token_b_amount: u128,
        pool_supply: u128,
        trade_direction: TradeDirection,
        round_direction: RoundDirection,
    ) -> (r: Option<u128>)
        ensures
            r == trading_tokens_to_pool_tokens_spec(
                self.token_b_price,
                source_amount,
                swap_token_a_amount,
                swap_token_b_amount,
                pool_supply,
                trade_direction,
                round_direction,
            ),
    {
        trading_tokens_to_pool_tokens(
            self.token_b_price,
            source_amount,
            swap_token_a_amount,
            swap_token_b_amount,
            pool_supply,
            trade_direction,
            round_direction,
        )
    }

    /// A price of zero is no price.
    pub fn validate(&self) -> (r: Result<(), SwapError>)
        ensures
            r is Ok <==> self.token_b_price > 0,
            r is Err ==> r->Err_0 == SwapError::InvalidCurve,
    {
        if self.token_b_price == 0 {
            Err(SwapError::InvalidCurve)
        } else {
            Ok(())
        }
    }

    /// Only the A side must be funded at creation; B is pegged by the
    /// price and may start empty.
    pub fn validate_supply(&self, token_a_amount: u64, _token_b_amount: u64) -> (r: Result<
        (),
        SwapError,
    >)
        ensures
            r is Ok <==> token_a_amount > 0,
            r is Err ==> r->Err_0 == SwapError::EmptySupply,
    {
        if token_a_amount == 0 {
            return Err(SwapError::EmptySupply);
        }
        Ok(())
    }

    /// Deposits are always welcome on this curve.
    pub fn allows_deposits(&self) -> (r: bool)
        ensures
            r,
    {
        true
    }

    /// Fixed initial supply for a new pool.
    pub fn new_pool_supply(&self) -> (r: u128)
        ensures
            r == INITIAL_SWAP_POOL_AMOUNT,
    {
        INITIAL_SWAP_POOL_AMOUNT
    }

    /// Additive pool value: the A reserve plus the B reserve at its
    /// price, halved to normalize between the two token types.  Close
    /// to the 128-bit limit the two sides are halved before the
    /// addition and the carried half-units are added back, so the
    /// result is the exact floored half-sum everywhere.
    pub fn normalized_value(&self, swap_token_a_amount: u128, swap_token_b_amount: u128) -> (r:
        Option<u128>)
        ensures
            r is Some <==> price_pool_value_ok(
                swap_token_a_amount,
                swap_token_b_amount,
                self.token_b_price,
            ),
            r is Some ==> r->0 == price_pool_value(
                swap_token_a_amount,
                swap_token_b_amount,
                self.token_b_price,
            ),
    {
        let swap_token_b_value = match swap_token_b_amount.checked_mul(self.token_b_price as u128) {
            Some(v) => v,
            None => {
                return None;
            },
        };
        if swap_token_a_amount <= u128::MAX - swap_token_b_value {
            Some((swap_token_a_amount + swap_token_b_value) / 2)
        } else {
            // The sum would overflow; halve each side and carry the
            // dropped half-units: (a + b) / 2 == a/2 + b/2 + (a%2 + b%2)/2.
            let carry = (swap_token_a_amount % 2 + swap_token_b_value % 2) / 2;
            let value = swap_token_b_value / 2 + swap_token_a_amount / 2 + carry;
            proof {
                lemma_fundamental_div_mod(swap_token_a_amount as int, 2);
                lemma_fundamental_div_mod(swap_token_b_value as int, 2);
                lemma_fundamental_div_mod(
                    (swap_token_a_amount % 2 + swap_token_b_value % 2) as int,
                    2,
                );
                lemma_fundamental_div_mod_converse(
                    swap_token_a_amount + swap_token_b_value,
                    2,
                    value as int,
                    ((swap_token_a_amount % 2 + swap_token_b_value % 2) % 2) as int,
                );
            }
            Some(value)
        }
    }
}

/// A constant-price swap moves value at the fixed rate exactly: the
/// un-normalized pool value `token_a + token_b * price` is unchanged by
/// the amounts a successful quote reports, in either direction.
pub proof fn lemma_price_swap_preserves_value(
    swap_token_a_amount: u128,
    swap_token_b_amount: u128,
    token_b_price: u64,
    source_amount_swapped: u128,
    destination_amount_swapped: u128,
    trade_direction: TradeDirection,
)
    requires
        trade_direction is AtoB ==> source_amount_swapped == destination_amount_swapped
            * token_b_price,
        trade_direction is BtoA ==> destination_amount_swapped == source_amount_swapped
            * token_b_price,
        trade_direction is AtoB ==> destination_amount_swapped <= swap_token_b_amount,
        trade_direction is BtoA ==> destination_amount_swapped <= swap_token_a_amount,
    ensures
        trade_direction is AtoB ==> (swap_token_a_amount + source_amount_swapped) + (
        swap_token_b_amount - destination_amount_swapped) * token_b_price == swap_token_a_amount
            + swap_token_b_amount * token_b_price,
        trade_direction is BtoA ==> (swap_token_a_amount - destination_amount_swapped) + (
        swap_token_b_amount + source_amount_swapped) * token_b_price == swap_token_a_amount
            + swap_token_b_amount * token_b_price,
{
    if trade_direction is AtoB {
        assert((swap_token_b_amount - destination_amount_swapped) * token_b_price
            == swap_token_b_amount * token_b_price - destination_amount_swapped * token_b_price)
            by (nonlinear_arith);
    } else {
        assert((swap_token_b_amount + source_amount_swapped) * token_b_price
            == swap_token_b_amount * token_b_price + source_amount_swapped * token_b_price)
            by (nonlinear_arith);
    }
}

/// What the single-sided conversion returns, as a function of its
/// inputs: the pool-share of the paid-in value over the total value,
/// computed in 256 bits and rounded by `round_direction`.
pub open spec fn trading_tokens_to_pool_tokens_spec(
    token_b_price: u64,
    source_amount: u128,
    swap_token_a_amount: u128,
    swap_token_b_amount: u128,
    pool_supply: u128,
    trade_direction: TradeDirection,
    round_direction: RoundDirection,
) -> Option<u128> {
    let given = given_value_spec(token_b_price, source_amount, trade_direction);
    let total = total_value_spec(token_b_price, swap_token_a_amount, swap_token_b_amount);
    if total <= 0 || pool_supply * given >= pow256() {
        None
    } else {
        match round_direction {
            RoundDirection::Floor => if pool_supply * given / total > u128::MAX {
                None
            } else {
                Some((pool_supply * given / total) as u128)
            },
            RoundDirection::Ceiling => if pool_supply * given / total == 0 {
                None
            } else if ceil_div_int(pool_supply * given, total) > u128::MAX {
                None
            } else {
                Some(ceil_div_int(pool_supply * given, total) as u128)
            },
        }
    }
}

/// Pool tokens matching a one-sided amount: the paid-in value's share of
/// the total pool value, times the supply.
pub fn trading_tokens_to_pool_tokens(
    token_b_price: u64,
    source_amount: u128,
    swap_token_a_amount: u128,
    swap_token_b_amount: u128,
    pool_supply: u128,
    trade_direction: TradeDirection,
    round_direction: RoundDirection,
) -> (r: Option<u128>)
    ensures
        r == trading_tokens_to_pool_tokens_spec(
            token_b_price,
            source_amount,
            swap_token_a_amount,
            swap_token_b_amount,
            pool_supply,
            trade_direction,
            round_direction,
        ),
{
    let given_value = match trade_direction {
        TradeDirection::AtoB => Wide::from_u128(source_amount),
        TradeDirection::BtoA => wide_mul(source_amount, token_b_price as u128),
    };
    let b_value = wide_mul(swap_token_b_amount, token_b_price as u128);
    proof {
        lemma_wide_range(b_value);
        assert(b_value.val() + swap_token_a_amount < pow256()) by (nonlinear_arith)
            requires
                b_value.val() == swap_token_b_amount * token_b_price,
                swap_token_b_amount <= u128::MAX,
                token_b_price <= u64::MAX,
                swap_token_a_amount <= u128::MAX,
                pow256() == 0x100000000000000000000000000000000int
                    * 0x100000000000000000000000000000000int,
        ;
    }
    let total_value = wide_add_checked(b_value, Wide::from_u128(swap_token_a_amount)).unwrap();
    if total_value.is_zero() {
        return None;
    }
    let numerator = match wide_mul_by_u128(given_value, pool_supply) {
        Some(n) => n,
        None => {
            proof {
                assert(given_value.val() * pool_supply == pool_supply * given_value.val())
                    by (nonlinear_arith);
            }
            return None;
        },
    };
    proof {
        assert(given_value.val() * pool_supply == pool_supply * given_value.val())
            by (nonlinear_arith);
    }
    let (quotient, remainder) = wide_divmod(numerator, total_value);
    match round_direction {
        RoundDirection::Floor => quotient.to_u128(),
        RoundDirection::Ceiling => {
            if quotient.is_zero() {
                return None;
            }
            if remainder.is_zero() {
                quotient.to_u128()
            } else {
                proof {
                    lemma_wide_range(numerator);
                    lemma_fundamental_div_mod(numerator.val(), total_value.val());
                    assert(quotient.val() + 1 < pow256()) by (nonlinear_arith)
                        requires
                            numerator.val() == total_value.val() * quotient.val()
                                + remainder.val(),
                            0 < remainder.val() < total_value.val(),
                            quotient.val() >= 0,
                            numerator.val() < pow256(),
                    ;
                }
                let bumped = crate::math::wide_add(quotient, Wide::from_u128(1));
                bumped.to_u128()
            }
        },
    }
}

} // verus!
