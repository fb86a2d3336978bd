//! Shared value types of the pricing curves.

use vstd::prelude::*;

verus! {

/// Initial amount of pool tokens for a new pool, hard-coded to something
/// sensible given a maximum of u128.
pub const INITIAL_SWAP_POOL_AMOUNT: u128 = 1_000_000_000;

/// Which reserve is being sold into the pool.
#[derive(Clone, Copy, Debug, PartialEq, Eq, Structural)]
pub enum TradeDirection {
    /// Input token A, output token B.
    AtoB,
    /// Input token B, output token A.
    BtoA,
}

impl TradeDirection {
    /// The direction of the reverse trade.
    pub fn opposite(&self) -> (r: TradeDirection)
        ensures
            self is AtoB ==> r is BtoA,
            self is BtoA ==> r is AtoB,
    {
        match self {
            TradeDirection::AtoB => TradeDirection::BtoA,
            TradeDirection::BtoA => TradeDirection::AtoB,
        }
    }
}

/// Which way an integer division truncates.  Floor favors the pool,
/// Ceiling favors it on the paying side; the two are used asymmetrically
/// so that rounding can never extract value.
#[derive(Clone, Copy, Debug, PartialEq, Eq, Structural)]
pub enum RoundDirection {
    /// Round towards zero.
    Floor,
    /// Round away from zero.
    Ceiling,
}

/// Amounts of the two underlying tokens matching a pool-token amount.
#[derive(Clone, Copy, Debug, PartialEq, Eq, Structural)]
pub struct TradingTokenResult {
    /// Amount of token A.
    pub token_a_amount: u128,
    /// Amount of token B.
    pub token_b_amount: u128,
}

/// Outcome of a swap before fees are applied.
#[derive(Clone, Copy, Debug, PartialEq, Eq, Structural)]
pub struct SwapWithoutFeesResult {
    /// Amount of source token paid into the pool.
    pub source_amount_swapped: u128,
    /// Amount of destination token handed out of the pool.
    pub destination_amount_swapped: u128,
}

/// The token-A side of a pair of amounts given in source/destination
/// order.
pub open spec fn token_a_side(
    trade_direction: TradeDirection,
    source_side: u128,
    destination_side: u128,
) -> u128 {
    match trade_direction {
        TradeDirection::AtoB => source_side,
        TradeDirection::BtoA => destination_side,
    }
}

/// The token-B side of a pair of amounts given in source/destination
/// order.
pub open spec fn token_b_side(
    trade_direction: TradeDirection,
    source_side: u128,
    destination_side: u128,
) -> u128 {
    match trade_direction {
        TradeDirection::AtoB => destination_side,
        TradeDirection::BtoA => source_side,
    }
}

/// Turns a zero amount into an explicit failure.
pub fn map_zero_to_none(x: u128) -> (r: Option<u128>)
    ensures
        r == if x == 0 { None::<u128> } else { Some(x) },
{
    if x == 0 {
        None
    } else {
        Some(x)
    }
}

} // verus!
