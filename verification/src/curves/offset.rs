//! Offset curve: constant product over a virtual token-B reserve.
//!
//! The curve behaves exactly like the constant-product curve after a
//! fixed `token_b_offset` is added to the token-B side.  The offset is a
//! faked reserve, so outside deposits are refused: a depositor's B-side
//! value could otherwise be drained through the fake liquidity by the
//! pool creator.

use vstd::prelude::*;
use crate::errors::SwapError;
use crate::curves::calculator::{
    RoundDirection, SwapWithoutFeesResult, TradeDirection, TradingTokenResult,
    INITIAL_SWAP_POOL_AMOUNT,
};
use crate::curves::constant_product::{
    ceiling_share, deposit_single_token_type, floor_share, normalized_value, share_not_dust,
    normalized_value_spec, pool_tokens_to_trading_tokens, single_deposit_ok,
    single_deposit_pool_tokens, single_withdraw_ok, single_withdraw_pool_tokens, source_reserve,
    swap, swap_new_destination, swap_new_source, swap_ok, trading_tokens_ok,
    withdraw_single_token_type_exact_out,
};

verus! {

/// The token-B reserve as the curve sees it: the real balance plus the
/// configured offset.
pub open spec fn offset_token_b(swap_token_b_amount: u128, token_b_offset: u64) -> int {
    swap_token_b_amount + token_b_offset
}

/// Constant-product curve over `(token_a, token_b + offset)`.
#[derive(Clone, Copy, Debug, Default, PartialEq, Eq, Structural)]
pub struct OffsetCurve {
    /// Amount to offset the token-B liquidity account by.
    pub token_b_offset: u64,
}

impl OffsetCurve {
    /// Swap against the offset invariant
    /// `token_a * (token_b + offset) = k`.
    pub fn swap_without_fees(
        &self,
        source_amount: u128,
        swap_source_amount: u128,
        swap_destination_amount: u128,
        trade_direction: TradeDirection,
    ) -> (r: Option<SwapWithoutFeesResult>)
        ensures
            ({
                let shifted_source: int = if trade_direction is BtoA {
                    swap_source_amount + self.token_b_offset
                } else {
                    swap_source_amount as int
                };
                let shifted_destination: int = if trade_direction is AtoB {
                    swap_destination_amount + self.token_b_offset
                } else {
                    swap_destination_amount as int
                };
                if shifted_source > u128::MAX || shifted_destination > u128::MAX {
                    r is None
                } else {
                    let x = shifted_source as u128;
                    let y = shifted_destination as u128;
                    &&& (r is Some <==> swap_ok(source_amount, x, y))
                    &&& (r is Some ==> r->0.source_amount_swapped == swap_new_source(
                        source_amount,
                        x,
                        y,
                    ) - x)
                    &&& (r is Some ==> r->0.destination_amount_swapped == y
                        - swap_new_destination(source_amount, x, y))
                }
            }),
    {
        let token_b_offset = self.token_b_offset as u128;
        let swap_source_amount = match trade_direction {
            TradeDirection::AtoB => swap_source_amount,
            TradeDirection::BtoA => match swap_source_amount.checked_add(token_b_offset) {
                Some(v) => v,
                None => {
                    return None;
                },
            },
        };
        let swap_destination_amount = match trade_direction {
            TradeDirection::AtoB => match swap_destination_amount.checked_add(token_b_offset) {
                Some(v) => v,
                None => {
                    return None;
                },
            },
            TradeDirection::BtoA => swap_destination_amount,
        };
        swap(source_amount, swap_source_amount, swap_destination_amount)
    }

    /// Proportional conversion, with the offset counted into the B side.
    pub fn pool_tokens_to_trading_tokens(
        &self,
        pool_tokens: u128,
        pool_token_supply: u128,
        swap_token_a_amount: u128,
        swap_token_b_amount: u128,
        round_direction: RoundDirection,
    ) -> (r: Option<TradingTokenResult>)
        ensures
            swap_token_b_amount + self.token_b_offset > u128::MAX ==> r is None,
            swap_token_b_amount + self.token_b_offset <= u128::MAX ==> {
                let b = (swap_token_b_amount + self.token_b_offset) as u128;
                &&& (r is Some <==> (trading_tokens_ok(
                    pool_tokens,
                    swap_token_a_amount,
                    b,
                    pool_token_supply,
                ) && (round_direction is Ceiling ==> (share_not_dust(
                    pool_tokens,
                    swap_token_a_amount,
                    pool_token_supply,
                ) && share_not_dust(pool_tokens, b, pool_token_supply)))))
                &&& ((r is Some && round_direction is Floor) ==> r->0.token_a_amount
                    == floor_share(pool_tokens, swap_token_a_amount, pool_token_supply)
                    && r->0.token_b_amount == floor_share(pool_tokens, b, pool_token_supply))
                &&& ((r is Some && round_direction is Ceiling) ==> r->0.token_a_amount
                    == ceiling_share(pool_tokens, swap_token_a_amount, pool_token_supply)
                    && r->0.token_b_amount == ceiling_share(pool_tokens, b, pool_token_supply))
            },
    {
        let token_b_offset = self.token_b_offset as u128;
        let shifted_b = match swap_token_b_amount.checked_add(token_b_offset) {
            Some(v) => v,
            None => {
                return None;
            },
        };
        pool_tokens_to_trading_tokens(
            pool_tokens,
            pool_token_supply,
            swap_token_a_amount,
            shifted_b,
            round_direction,
        )
    }

    /// Pool tokens for a one-sided deposit against the offset reserves.
    pub fn deposit_single_token_type(
        &self,
        source_amount: u128,
        swap_token_a_amount: u128,
        swap_token_b_amount: u128,
        pool_supply: u128,
        trade_direction: TradeDirection,
    ) -> (r: Option<u128>)
        ensures
            swap_token_b_amount + self.token_b_offset > u128::MAX ==> r is None,
            swap_token_b_amount + self.token_b_offset <= u128::MAX ==> {
                let reserve = source_reserve(
                    trade_direction,
                    swap_token_a_amount,
                    (swap_token_b_amount + self.token_b_offset) as u128,
                );
                &&& (r is Some <==> single_deposit_ok(
                    source_amount,
                    reserve,
                    pool_supply,
                    RoundDirection::Floor,
                ))
                &&& (r is Some ==> r->0 == single_deposit_pool_tokens(
                    source_amount,
                    reserve,
                    pool_supply,
                    RoundDirection::Floor,
                ))
            },
    {
        let token_b_offset = self.token_b_offset as u128;
        let shifted_b = match swap_token_b_amount.checked_add(token_b_offset) {
            Some(v) => v,
            None => {
                return None;
            },
        };
        deposit_single_token_type(
            source_amount,
            swap_token_a_amount,
            shifted_b,
            pool_supply,
            trade_direction,
            RoundDirection::Floor,
        )
    }

    /// Pool tokens burned for an exact one-sided output against the
    /// offset reserves.
    pub fn withdraw_single_token_type_exact_out(
        &self,
        source_amount: u128,
        swap_token_a_amount: u128,
        swap_token_b_amount: u128,
        pool_supply: u128,
        trade_direction: TradeDirection,
        round_direction: RoundDirection,
    ) -> (r: Option<u128>)
        ensures
            swap_token_b_amount + self.token_b_offset > u128::MAX ==> r is None,
            swap_token_b_amount + self.token_b_offset <= u128::MAX ==> {
                let reserve = source_reserve(
                    trade_direction,
                    swap_token_a_amount,
                    (swap_token_b_amount + self.token_b_offset) as u128,
                );
                &&& (r is Some <==> single_withdraw_ok(source_amount, reserve))
                &&& (r is Some ==> r->0 == single_withdraw_pool_tokens(
                    source_amount,
                    reserve,
                    pool_supply,
                    round_direction,
                ))
            },
    {
        let token_b_offset = self.token_b_offset as u128;
        let shifted_b = match swap_token_b_amount.checked_add(token_b_offset) {
            Some(v) => v,
            None => {
                return None;
            },
        };
        withdraw_single_token_type_exact_out(
            source_amount,
            swap_token_a_amount,
            shifted_b,
            pool_supply,
            trade_direction,
            round_direction,
        )
    }

    /// An offset of zero is no offset.
    pub fn validate(&self) -> (r: Result<(), SwapError>)
        ensures
            r is Ok <==> self.token_b_offset > 0,
            r is Err ==> r->Err_0 == SwapError::InvalidCurve,
    {
        if self.token_b_offset == 0 {
            Err(SwapError::InvalidCurve)
        } else {
            Ok(())
        }
    }

    /// Both sides must be funded at creation: the offset is priced-in
    /// virtual liquidity, not a substitute for real reserves.
    pub fn validate_supply(&self, token_a_amount: u64, token_b_amount: u64) -> (r: Result<
        (),
        SwapError,
    >)
        ensures
            r is Ok <==> (token_a_amount > 0 && token_b_amount > 0),
            r is Err ==> r->Err_0 == SwapError::EmptySupply,
    {
        if token_a_amount == 0 {
            return Err(SwapError::EmptySupply);
        }
        if token_b_amount == 0 {
            return Err(SwapError::EmptySupply);
        }
        Ok(())
    }

    /// Deposits after initialization are refused: the faked offset
    /// liquidity would let the pool creator drain depositors' value.
    pub fn allows_deposits(&self) -> (r: bool)
        ensures
            !r,
    {
        false
    }

    /// Fixed initial supply for a new pool.
    pub fn new_pool_supply(&self) -> (r: u128)
        ensures
            r == INITIAL_SWAP_POOL_AMOUNT,
    {
        INITIAL_SWAP_POOL_AMOUNT
    }

    /// Geometric mean of the reserves, with the offset counted in.
    pub fn normalized_value(&self, swap_token_a_amount: u128, swap_token_b_amount: u128) -> (r:
        Option<u128>)
        ensures
            r is Some <==> swap_token_b_amount + self.token_b_offset <= u128::MAX,
            r is Some ==> r->0 == normalized_value_spec(
                swap_token_a_amount,
                (swap_token_b_amount + self.token_b_offset) as u128,
            ),
    {
        let token_b_offset = self.token_b_offset as u128;
        let shifted_b = match swap_token_b_amount.checked_add(token_b_offset) {
            Some(v) => v,
            None => {
                return None;
            },
        };
        normalized_value(swap_token_a_amount, shifted_b)
    }
}

} // verus!
