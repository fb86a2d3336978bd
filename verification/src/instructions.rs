//! Compute kernels of the ledger instructions.
//!
//! Each function here is the decision core of one instruction: it takes
//! the pool's current balances and the caller's parameters as plain
//! values and returns the exact transfer, mint and burn amounts the
//! ledger must apply atomically, or the error that rejects the call.
//! Account validation and the transfers themselves are the ledger's
//! business.

use vstd::prelude::*;
use crate::errors::SwapError;
use crate::fees::{fee_result, Fees};
use crate::helper::to_u64;
use crate::curves::base::{
    curve_trading_tokens_spec, curve_withdraw_single_spec, swap_curve_deposit_single_spec,
    swap_curve_swap_spec, swap_curve_withdraw_single_spec, CurveType, SwapCurve,
};
use crate::curves::calculator::{RoundDirection, TradeDirection, INITIAL_SWAP_POOL_AMOUNT};
use crate::swap_constraints::{
    curve_type_allowed, fees_meet_constraints, validate_swap_constraints, SwapConstraints,
};

verus! {

/// Amounts a swap instruction tells the ledger to move.
#[derive(Clone, Copy, Debug, PartialEq, Eq, Structural)]
pub struct SwapAmounts {
    /// Source tokens the trader pays into the pool.
    pub source_transfer_amount: u64,
    /// Destination tokens the pool pays out to the trader.
    pub destination_transfer_amount: u64,
    /// Source reserve after the trade.
    pub new_swap_source_amount: u128,
    /// Destination reserve after the trade.
    pub new_swap_destination_amount: u128,
    /// Trade fee kept inside the reserves, in source tokens.
    pub trade_fee: u128,
    /// Owner fee, in source tokens, before conversion to pool tokens.
    pub owner_fee: u128,
    /// Pool tokens minted to the host fee account.
    pub host_fee_pool_tokens: u64,
    /// Pool tokens minted to the owner's pool fee account.
    pub owner_fee_pool_tokens: u64,
}

/// Pool tokens minted for the owner fee, split with the host: what the
/// two mints are, or the error that rejects the swap.
pub open spec fn owner_fee_minting_spec(
    curve_type: CurveType,
    fees: Fees,
    owner_fee: u128,
    swap_token_a_amount: u128,
    swap_token_b_amount: u128,
    pool_mint_supply: u64,
    trade_direction: TradeDirection,
    has_host_fee_account: bool,
    has_pool_fee_account: bool,
) -> Result<(u64, u64), SwapError> {
    match curve_withdraw_single_spec(
        curve_type,
        owner_fee,
        swap_token_a_amount,
        swap_token_b_amount,
        pool_mint_supply as u128,
        trade_direction,
        RoundDirection::Floor,
    ) {
        None => Err(SwapError::FeeCalculationFailure),
        Some(pool_token_amount) => {
            let host_fee = if has_host_fee_account {
                fee_result(
                    pool_token_amount,
                    fees.host_fee_numerator as u128,
                    fees.host_fee_denominator as u128,
                )
            } else {
                Some(0u128)
            };
            match host_fee {
                None => Err(SwapError::FeeCalculationFailure),
                Some(host_fee) => if host_fee > pool_token_amount {
                    Err(SwapError::FeeCalculationFailure)
                } else if host_fee > u64::MAX {
                    Err(SwapError::ConversionFailure)
                } else {
                    let remaining = (pool_token_amount - host_fee) as u128;
                    if has_pool_fee_account && remaining > u64::MAX {
                        Err(SwapError::ConversionFailure)
                    } else {
                        Ok(
                            (
                                host_fee as u64,
                                if has_pool_fee_account {
                                    remaining as u64
                                } else {
                                    0u64
                                },
                            ),
                        )
                    }
                },
            }
        },
    }
}

/// What the swap instruction decides, as a function of its inputs.
pub open spec fn swap_handler_spec(
    curve_type: CurveType,
    fees: Fees,
    amount_in: u64,
    minimum_amount_out: u64,
    swap_source_amount: u64,
    swap_destination_amount: u64,
    pool_mint_supply: u64,
    trade_direction: TradeDirection,
    has_host_fee_account: bool,
    has_pool_fee_account: bool,
) -> Result<SwapAmounts, SwapError> {
    match swap_curve_swap_spec(
        curve_type,
        amount_in as u128,
        swap_source_amount as u128,
        swap_destination_amount as u128,
        trade_direction,
        fees,
    ) {
        None => Err(SwapError::ZeroTradingTokens),
        Some(result) => if result.source_amount_swapped > u64::MAX {
            Err(SwapError::ConversionFailure)
        } else if result.destination_amount_swapped > u64::MAX {
            Err(SwapError::ConversionFailure)
        } else if result.destination_amount_swapped < minimum_amount_out {
            Err(SwapError::ExceededSlippage)
        } else {
            let new_a = if trade_direction is AtoB {
                result.new_swap_source_amount
            } else {
                result.new_swap_destination_amount
            };
            let new_b = if trade_direction is AtoB {
                result.new_swap_destination_amount
            } else {
                result.new_swap_source_amount
            };
            let minting = if result.owner_fee > 0 {
                owner_fee_minting_spec(
                    curve_type,
                    fees,
                    result.owner_fee,
                    new_a,
                    new_b,
                    pool_mint_supply,
                    trade_direction,
                    has_host_fee_account,
                    has_pool_fee_account,
                )
            } else {
                Ok((0u64, 0u64))
            };
            match minting {
                Err(e) => Err(e),
                Ok((host_fee_pool_tokens, owner_fee_pool_tokens)) => Ok(
                    SwapAmounts {
                        source_transfer_amount: result.source_amount_swapped as u64,
                        destination_transfer_amount: result.destination_amount_swapped as u64,
                        new_swap_source_amount: result.new_swap_source_amount,
                        new_swap_destination_amount: result.new_swap_destination_amount,
                        trade_fee: result.trade_fee,
                        owner_fee: result.owner_fee,
                        host_fee_pool_tokens,
                        owner_fee_pool_tokens,
                    },
                ),
            }
        },
    }
}

/// Decision core of the swap instruction: quotes the trade with fees,
/// enforces the trader's slippage bound, and converts the owner fee
/// into pool-token mints for the host and the owner.
///
/// The owner fee is priced against the post-swap reserves, always: the
/// fee tokens are already inside the pool when their pool-token worth
/// is measured.
pub fn swap_handler(
    curve_type: CurveType,
    fees: &Fees,
    amount_in: u64,
    minimum_amount_out: u64,
    swap_source_amount: u64,
    swap_destination_amount: u64,
    pool_mint_supply: u64,
    trade_direction: TradeDirection,
    has_host_fee_account: bool,
    has_pool_fee_account: bool,
) -> (r: Result<SwapAmounts, SwapError>)
    ensures
        r == swap_handler_spec(
            curve_type,
            *fees,
            amount_in,
            minimum_amount_out,
            swap_source_amount,
            swap_destination_amount,
            pool_mint_supply,
            trade_direction,
            has_host_fee_account,
            has_pool_fee_account,
        ),
{
    let swap_curve = SwapCurve::new(curve_type);
    let result = match swap_curve.swap(
        amount_in as u128,
        swap_source_amount as u128,
        swap_destination_amount as u128,
        trade_direction,
        fees,
    ) {
        Some(result) => result,
        None => {
            return Err(SwapError::ZeroTradingTokens);
        },
    };
    let source_transfer_amount = to_u64(result.source_amount_swapped)?;
    let destination_transfer_amount = to_u64(result.destination_amount_swapped)?;
    if destination_transfer_amount < minimum_amount_out {
        return Err(SwapError::ExceededSlippage);
    }
    let (new_a, new_b): (u128, u128) = match trade_direction {
        TradeDirection::AtoB => (result.new_swap_source_amount, result.new_swap_destination_amount),
        TradeDirection::BtoA => (result.new_swap_destination_amount, result.new_swap_source_amount),
    };
    let mut host_fee_pool_tokens: u64 = 0;
    let mut owner_fee_pool_tokens: u64 = 0;
    if result.owner_fee > 0 {
        let mut pool_token_amount = match curve_type.withdraw_single_token_type_exact_out(
            result.owner_fee,
            new_a,
            new_b,
            pool_mint_supply as u128,
            trade_direction,
            RoundDirection::Floor,
        ) {
            Some(v) => v,
            None => {
                return Err(SwapError::FeeCalculationFailure);
            },
        };
        if has_host_fee_account {
            let host_fee = match fees.host_fee(pool_token_amount) {
                Some(v) => v,
                None => {
                    return Err(SwapError::FeeCalculationFailure);
                },
            };
            if host_fee > 0 {
                pool_token_amount = match pool_token_amount.checked_sub(host_fee) {
                    Some(v) => v,
                    None => {
                        return Err(SwapError::FeeCalculationFailure);
                    },
                };
                host_fee_pool_tokens = to_u64(host_fee)?;
            }
        }
        if has_pool_fee_account {
            owner_fee_pool_tokens = to_u64(pool_token_amount)?;
        }
    }
    Ok(
        SwapAmounts {
            source_transfer_amount,
            destination_transfer_amount,
            new_swap_source_amount: result.new_swap_source_amount,
            new_swap_destination_amount: result.new_swap_destination_amount,
            trade_fee: result.trade_fee,
            owner_fee: result.owner_fee,
            host_fee_pool_tokens,
            owner_fee_pool_tokens,
        },
    )
}

/// Validates a new pool: the deployer's policy, the fee fractions, the
/// curve parameters and the initial reserves, in that order.  Returns
/// the pool tokens to mint to the creator.
pub fn initialize_handler(
    curve_type: &CurveType,
    fees: &Fees,
    token_a_amount: u64,
    token_b_amount: u64,
    constraints: Option<&SwapConstraints>,
) -> (r: Result<u64, SwapError>)
    ensures
        r is Ok <==> ((constraints is Some ==> (curve_type_allowed(*constraints->0, *curve_type)
            && fees_meet_constraints(*constraints->0, *fees))) && crate::fees::fees_valid(*fees)
            && (match *curve_type {
            CurveType::ConstantProduct => true,
            CurveType::ConstantPrice { token_b_price } => token_b_price > 0,
            CurveType::Offset { token_b_offset } => token_b_offset > 0,
        }) && token_a_amount > 0 && ((*curve_type is ConstantProduct || *curve_type is Offset) ==> token_b_amount > 0)),
        r is Ok ==> r->Ok_0 == INITIAL_SWAP_POOL_AMOUNT as u64,
        (constraints is Some && !curve_type_allowed(*constraints->0, *curve_type)) ==> r
            == Result::<u64, SwapError>::Err(SwapError::UnsupportedCurveType),
        (constraints is Some && curve_type_allowed(*constraints->0, *curve_type)
            && !fees_meet_constraints(*constraints->0, *fees)) ==> r == Result::<
            u64,
            SwapError,
        >::Err(SwapError::InvalidFee),
        ((constraints is Some ==> (curve_type_allowed(*constraints->0, *curve_type)
            && fees_meet_constraints(*constraints->0, *fees))) && !crate::fees::fees_valid(*fees))
            ==> r == Result::<u64, SwapError>::Err(SwapError::InvalidFee),
        ((constraints is Some ==> (curve_type_allowed(*constraints->0, *curve_type)
            && fees_meet_constraints(*constraints->0, *fees))) && crate::fees::fees_valid(*fees)
            && !(match *curve_type {
            CurveType::ConstantProduct => true,
            CurveType::ConstantPrice { token_b_price } => token_b_price > 0,
            CurveType::Offset { token_b_offset } => token_b_offset > 0,
        })) ==> r == Result::<u64, SwapError>::Err(SwapError::InvalidCurve),
        ((constraints is Some ==> (curve_type_allowed(*constraints->0, *curve_type)
            && fees_meet_constraints(*constraints->0, *fees))) && crate::fees::fees_valid(*fees)
            && (match *curve_type {
            CurveType::ConstantProduct => true,
            CurveType::ConstantPrice { token_b_price } => token_b_price > 0,
            CurveType::Offset { token_b_offset } => token_b_offset > 0,
        }) && !(token_a_amount > 0 && ((*curve_type is ConstantProduct || *curve_type is Offset) ==> token_b_amount > 0)))
            ==> r == Result::<u64, SwapError>::Err(SwapError::EmptySupply),
    {
    validate_swap_constraints(curve_type, fees, constraints)?;
    fees.validate()?;
    curve_type.validate()?;
    curve_type.validate_supply(token_a_amount, token_b_amount)?;
    let initial_amount = curve_type.new_pool_supply();
    to_u64(initial_amount)
}

/// Amounts a both-sided deposit tells the ledger to move.
#[derive(Clone, Copy, Debug, PartialEq, Eq, Structural)]
pub struct DepositAllAmounts {
    /// Token A the depositor pays in.
    pub token_a_amount: u64,
    /// Token B the depositor pays in.
    pub token_b_amount: u64,
    /// Pool tokens minted to the depositor.
    pub pool_tokens_to_mint: u64,
}

/// What the both-sided deposit instruction decides.
pub open spec fn deposit_all_token_types_spec(
    curve_type: CurveType,
    pool_token_amount: u64,
    token_a_slippage_limit: u64,
    token_b_slippage_limit: u64,
    swap_token_a_amount: u64,
    swap_token_b_amount: u64,
    pool_mint_supply: u64,
) -> Result<DepositAllAmounts, SwapError> {
    if curve_type is Offset {
        Err(SwapError::UnsupportedCurveOperation)
    } else {
        let minted: u128 = if pool_mint_supply > 0 {
            pool_token_amount as u128
        } else {
            INITIAL_SWAP_POOL_AMOUNT
        };
        let supply: u128 = if pool_mint_supply > 0 {
            pool_mint_supply as u128
        } else {
            INITIAL_SWAP_POOL_AMOUNT
        };
        match curve_trading_tokens_spec(
            curve_type,
            minted,
            supply,
            swap_token_a_amount as u128,
            swap_token_b_amount as u128,
            RoundDirection::Ceiling,
        ) {
            None => Err(SwapError::ZeroTradingTokens),
            Some(results) => if results.token_a_amount > u64::MAX {
                Err(SwapError::ConversionFailure)
            } else if results.token_b_amount > u64::MAX {
                Err(SwapError::ConversionFailure)
            } else if results.token_a_amount < token_a_slippage_limit {
                Err(SwapError::ExceededSlippage)
            } else if results.token_b_amount < token_b_slippage_limit {
                Err(SwapError::ExceededSlippage)
            } else if results.token_a_amount == 0 || results.token_b_amount == 0 {
                Err(SwapError::ZeroTradingTokens)
            } else {
                Ok(
                    DepositAllAmounts {
                        token_a_amount: results.token_a_amount as u64,
                        token_b_amount: results.token_b_amount as u64,
                        pool_tokens_to_mint: minted as u64,
                    },
                )
            },
        }
    }
}

/// Decision core of the both-sided deposit: converts the requested pool
/// tokens into both reserve amounts, rounded up, and enforces the
/// depositor's per-token limits.
pub fn deposit_all_token_types_handler(
    curve_type: CurveType,
    pool_token_amount: u64,
    token_a_slippage_limit: u64,
    token_b_slippage_limit: u64,
    swap_token_a_amount: u64,
    swap_token_b_amount: u64,
    pool_mint_supply: u64,
) -> (r: Result<DepositAllAmounts, SwapError>)
    ensures
        r == deposit_all_token_types_spec(
            curve_type,
            pool_token_amount,
            token_a_slippage_limit,
            token_b_slippage_limit,
            swap_token_a_amount,
            swap_token_b_amount,
            pool_mint_supply,
        ),
{
    if !curve_type.allows_deposits() {
        return Err(SwapError::UnsupportedCurveOperation);
    }
    let (minted, supply): (u128, u128) = if pool_mint_supply > 0 {
        (pool_token_amount as u128, pool_mint_supply as u128)
    } else {
        (curve_type.new_pool_supply(), curve_type.new_pool_supply())
    };
    let results = match curve_type.pool_tokens_to_trading_tokens(
        minted,
        supply,
        swap_token_a_amount as u128,
        swap_token_b_amount as u128,
        RoundDirection::Ceiling,
    ) {
        Some(results) => results,
        None => {
            return Err(SwapError::ZeroTradingTokens);
        },
    };
    let token_a_amount = to_u64(results.token_a_amount)?;
    let token_b_amount = to_u64(results.token_b_amount)?;
    if token_a_amount < token_a_slippage_limit {
        return Err(SwapError::ExceededSlippage);
    }
    if token_b_amount < token_b_slippage_limit {
        return Err(SwapError::ExceededSlippage);
    }
    if token_a_amount == 0 || token_b_amount == 0 {
        return Err(SwapError::ZeroTradingTokens);
    }
    let pool_tokens_to_mint = to_u64(minted)?;
    Ok(DepositAllAmounts { token_a_amount, token_b_amount, pool_tokens_to_mint })
}

/// What the single-sided exact-in deposit instruction decides: the pool
/// tokens to mint.
pub open spec fn deposit_single_token_type_spec(
    curve_type: CurveType,
    fees: Fees,
    source_token_amount: u64,
    min_slippage_amount: u64,
    swap_token_a_amount: u64,
    swap_token_b_amount: u64,
    pool_mint_supply: u64,
    trade_direction: TradeDirection,
) -> Result<u64, SwapError> {
    if curve_type is Offset {
        Err(SwapError::UnsupportedCurveOperation)
    } else {
        let pool_tokens = if pool_mint_supply > 0 {
            swap_curve_deposit_single_spec(
                curve_type,
                source_token_amount as u128,
                swap_token_a_amount as u128,
                swap_token_b_amount as u128,
                pool_mint_supply as u128,
                trade_direction,
                fees,
            )
        } else {
            Some(INITIAL_SWAP_POOL_AMOUNT)
        };
        match pool_tokens {
            None => Err(SwapError::ZeroTradingTokens),
            Some(pool_tokens) => if pool_tokens > u64::MAX {
                Err(SwapError::ConversionFailure)
            } else if pool_tokens == 0 {
                Err(SwapError::ZeroTradingTokens)
            } else if pool_tokens < min_slippage_amount {
                Err(SwapError::ExceededSlippage)
            } else {
                Ok(pool_tokens as u64)
            },
        }
    }
}

/// Decision core of the single-sided exact-in deposit.
pub fn deposit_single_token_type_exact_amount_in_handler(
    curve_type: CurveType,
    fees: &Fees,
    source_token_amount: u64,
    min_slippage_amount: u64,
    swap_token_a_amount: u64,
    swap_token_b_amount: u64,
    pool_mint_supply: u64,
    trade_direction: TradeDirection,
) -> (r: Result<u64, SwapError>)
    ensures
        r == deposit_single_token_type_spec(
            curve_type,
            *fees,
            source_token_amount,
            min_slippage_amount,
            swap_token_a_amount,
            swap_token_b_amount,
            pool_mint_supply,
            trade_direction,
        ),
{
    let swap_curve = SwapCurve::new(curve_type);
    if !curve_type.allows_deposits() {
        return Err(SwapError::UnsupportedCurveOperation);
    }
    let pool_token_amount: u128 = if pool_mint_supply > 0 {
        match swap_curve.deposit_single_token_type(
            source_token_amount as u128,
            swap_token_a_amount as u128,
            swap_token_b_amount as u128,
            pool_mint_supply as u128,
            trade_direction,
            fees,
        ) {
            Some(v) => v,
            None => {
                return Err(SwapError::ZeroTradingTokens);
            },
        }
    } else {
        curve_type.new_pool_supply()
    };
    let pool_token_amount = to_u64(pool_token_amount)?;
    if pool_token_amount == 0 {
        return Err(SwapError::ZeroTradingTokens);
    }
    if pool_token_amount < min_slippage_amount {
        return Err(SwapError::ExceededSlippage);
    }
    Ok(pool_token_amount)
}

/// Every deposit attempt against an offset pool is refused with
/// `UnsupportedCurveOperation`, whatever the amounts: the faked B-side
/// liquidity would otherwise let the pool creator drain depositors.
pub proof fn lemma_offset_deposits_refused(
    curve_type: CurveType,
    fees: Fees,
    amount: u64,
    limit_a: u64,
    limit_b: u64,
    swap_token_a_amount: u64,
    swap_token_b_amount: u64,
    pool_mint_supply: u64,
    trade_direction: TradeDirection,
)
    requires
        curve_type is Offset,
    ensures
        deposit_all_token_types_spec(
            curve_type,
            amount,
            limit_a,
            limit_b,
            swap_token_a_amount,
            swap_token_b_amount,
            pool_mint_supply,
        ) == Result::<DepositAllAmounts, SwapError>::Err(SwapError::UnsupportedCurveOperation),
        deposit_single_token_type_spec(
            curve_type,
            fees,
            amount,
            limit_a,
            swap_token_a_amount,
            swap_token_b_amount,
            pool_mint_supply,
            trade_direction,
        ) == Result::<u64, SwapError>::Err(SwapError::UnsupportedCurveOperation),
{
}

/// Amounts a both-sided withdrawal tells the ledger to move.
#[derive(Clone, Copy, Debug, PartialEq, Eq, Structural)]
pub struct WithdrawAllAmounts {
    /// Pool tokens transferred to the owner's fee account.
    pub withdraw_fee: u64,
    /// Pool tokens burned from the withdrawer.
    pub pool_tokens_to_burn: u64,
    /// Token A paid out to the withdrawer.
    pub token_a_amount: u64,
    /// Token B paid out to the withdrawer.
    pub token_b_amount: u64,
}

/// What the both-sided withdrawal instruction decides: the owner's
/// withdraw fee is taken off the top, the rest converts to both
/// reserves rounded down, each side is capped by its reserve, and a
/// side may only vanish when its reserve is already empty.
pub open spec fn withdraw_all_token_types_spec(
    curve_type: CurveType,
    fees: Fees,
    pool_token_amount: u64,
    min_a_amount_slippage: u64,
    min_b_amount_slippage: u64,
    swap_token_a_amount: u64,
    swap_token_b_amount: u64,
    pool_mint_supply: u64,
    charge_withdraw_fee: bool,
) -> Result<WithdrawAllAmounts, SwapError> {
    let withdraw_fee = if charge_withdraw_fee {
        fee_result(
            pool_token_amount as u128,
            fees.owner_withdraw_fee_numerator as u128,
            fees.owner_withdraw_fee_denominator as u128,
        )
    } else {
        Some(0u128)
    };
    match withdraw_fee {
        None => Err(SwapError::FeeCalculationFailure),
        Some(withdraw_fee) => if withdraw_fee > pool_token_amount {
            Err(SwapError::CalculationFailure)
        } else {
            let burned = (pool_token_amount - withdraw_fee) as u128;
            match curve_trading_tokens_spec(
                curve_type,
                burned,
                pool_mint_supply as u128,
                swap_token_a_amount as u128,
                swap_token_b_amount as u128,
                RoundDirection::Floor,
            ) {
                None => Err(SwapError::ZeroTradingTokens),
                Some(results) => if results.token_a_amount > u64::MAX {
                    Err(SwapError::ConversionFailure)
                } else {
                    let token_a = if results.token_a_amount > swap_token_a_amount {
                        swap_token_a_amount
                    } else {
                        results.token_a_amount as u64
                    };
                    if token_a < min_a_amount_slippage {
                        Err(SwapError::ExceededSlippage)
                    } else if token_a == 0 && swap_token_a_amount != 0 {
                        Err(SwapError::ZeroTradingTokens)
                    } else if results.token_b_amount > u64::MAX {
                        Err(SwapError::ConversionFailure)
                    } else {
                        let token_b = if results.token_b_amount > swap_token_b_amount {
                            swap_token_b_amount
                        } else {
                            results.token_b_amount as u64
                        };
                        if token_b < min_b_amount_slippage {
                            Err(SwapError::ExceededSlippage)
                        } else if token_b == 0 && swap_token_b_amount != 0 {
                            Err(SwapError::ZeroTradingTokens)
                        } else {
                            Ok(
                                WithdrawAllAmounts {
                                    withdraw_fee: withdraw_fee as u64,
                                    pool_tokens_to_burn: burned as u64,
                                    token_a_amount: token_a,
                                    token_b_amount: token_b,
                                },
                            )
                        }
                    }
                },
            }
        },
    }
}

/// Decision core of the both-sided withdrawal.
pub fn withdraw_all_token_types_handler(
    curve_type: CurveType,
    fees: &Fees,
    pool_token_amount: u64,
    min_a_amount_slippage: u64,
    min_b_amount_slippage: u64,
    swap_token_a_amount: u64,
    swap_token_b_amount: u64,
    pool_mint_supply: u64,
    charge_withdraw_fee: bool,
) -> (r: Result<WithdrawAllAmounts, SwapError>)
    ensures
        r == withdraw_all_token_types_spec(
            curve_type,
            *fees,
            pool_token_amount,
            min_a_amount_slippage,
            min_b_amount_slippage,
            swap_token_a_amount,
            swap_token_b_amount,
            pool_mint_supply,
            charge_withdraw_fee,
        ),
{
    let withdraw_fee: u128 = if charge_withdraw_fee {
        match fees.owner_withdraw_fee(pool_token_amount as u128) {
            Some(v) => v,
            None => {
                return Err(SwapError::FeeCalculationFailure);
            },
        }
    } else {
        0
    };
    let burned = match (pool_token_amount as u128).checked_sub(withdraw_fee) {
        Some(v) => v,
        None => {
            return Err(SwapError::CalculationFailure);
        },
    };
    let results = match curve_type.pool_tokens_to_trading_tokens(
        burned,
        pool_mint_supply as u128,
        swap_token_a_amount as u128,
        swap_token_b_amount as u128,
        RoundDirection::Floor,
    ) {
        Some(results) => results,
        None => {
            return Err(SwapError::ZeroTradingTokens);
        },
    };
    let mut token_a_amount = to_u64(results.token_a_amount)?;
    if token_a_amount > swap_token_a_amount {
        token_a_amount = swap_token_a_amount;
    }
    if token_a_amount < min_a_amount_slippage {
        return Err(SwapError::ExceededSlippage);
    }
    if token_a_amount == 0 && swap_token_a_amount != 0 {
        return Err(SwapError::ZeroTradingTokens);
    }
    let mut token_b_amount = to_u64(results.token_b_amount)?;
    if token_b_amount > swap_token_b_amount {
        token_b_amount = swap_token_b_amount;
    }
    if token_b_amount < min_b_amount_slippage {
        return Err(SwapError::ExceededSlippage);
    }
    if token_b_amount == 0 && swap_token_b_amount != 0 {
        return Err(SwapError::ZeroTradingTokens);
    }
    let withdraw_fee_u64 = to_u64(withdraw_fee)?;
    let pool_tokens_to_burn = to_u64(burned)?;
    Ok(
        WithdrawAllAmounts {
            withdraw_fee: withdraw_fee_u64,
            pool_tokens_to_burn,
            token_a_amount,
            token_b_amount,
        },
    )
}

/// Amounts a single-sided exact-out withdrawal tells the ledger to
/// move.
#[derive(Clone, Copy, Debug, PartialEq, Eq, Structural)]
pub struct WithdrawSingleAmounts {
    /// Pool tokens burned from the withdrawer, the withdraw fee
    /// included.
    pub pool_tokens_to_burn: u64,
    /// Pool tokens of that total that go to the owner's fee account.
    pub withdraw_fee: u64,
}

/// What the single-sided exact-out withdrawal instruction decides: the
/// pool tokens covering the requested output, grossed up by the owner's
/// withdraw fee and capped by the caller's maximum.
pub open spec fn withdraw_single_token_type_spec(
    curve_type: CurveType,
    fees: Fees,
    destination_token_amount: u64,
    maximum_pool_token_amount: u64,
    swap_token_a_amount: u64,
    swap_token_b_amount: u64,
    pool_mint_supply: u64,
    trade_direction: TradeDirection,
    charge_withdraw_fee: bool,
) -> Result<WithdrawSingleAmounts, SwapError> {
    match swap_curve_withdraw_single_spec(
        curve_type,
        destination_token_amount as u128,
        swap_token_a_amount as u128,
        swap_token_b_amount as u128,
        pool_mint_supply as u128,
        trade_direction,
        fees,
    ) {
        None => Err(SwapError::ZeroTradingTokens),
        Some(burn_pool_token_amount) => {
            let withdraw_fee = if charge_withdraw_fee {
                fee_result(
                    burn_pool_token_amount,
                    fees.owner_withdraw_fee_numerator as u128,
                    fees.owner_withdraw_fee_denominator as u128,
                )
            } else {
                Some(0u128)
            };
            match withdraw_fee {
                None => Err(SwapError::FeeCalculationFailure),
                Some(withdraw_fee) => if burn_pool_token_amount + withdraw_fee > u128::MAX {
                    Err(SwapError::FeeCalculationFailure)
                } else if burn_pool_token_amount + withdraw_fee > u64::MAX {
                    Err(SwapError::ConversionFailure)
                } else if burn_pool_token_amount + withdraw_fee > maximum_pool_token_amount {
                    Err(SwapError::ExceededSlippage)
                } else if burn_pool_token_amount + withdraw_fee == 0 {
                    Err(SwapError::ZeroTradingTokens)
                } else {
                    Ok(
                        WithdrawSingleAmounts {
                            pool_tokens_to_burn: (burn_pool_token_amount + withdraw_fee) as u64,
                            withdraw_fee: withdraw_fee as u64,
                        },
                    )
                },
            }
        },
    }
}

/// Decision core of the single-sided exact-out withdrawal.
pub fn withdraw_single_token_type_exact_amount_out_handler(
    curve_type: CurveType,
    fees: &Fees,
    destination_token_amount: u64,
    maximum_pool_token_amount: u64,
    swap_token_a_amount: u64,
    swap_token_b_amount: u64,
    pool_mint_supply: u64,
    trade_direction: TradeDirection,
    charge_withdraw_fee: bool,
) -> (r: Result<WithdrawSingleAmounts, SwapError>)
    ensures
        r == withdraw_single_token_type_spec(
            curve_type,
            *fees,
            destination_token_amount,
            maximum_pool_token_amount,
            swap_token_a_amount,
            swap_token_b_amount,
            pool_mint_supply,
            trade_direction,
            charge_withdraw_fee,
        ),
{
    let swap_curve = SwapCurve::new(curve_type);
    let burn_pool_token_amount = match swap_curve.withdraw_single_token_type_exact_out(
        destination_token_amount as u128,
        swap_token_a_amount as u128,
        swap_token_b_amount as u128,
        pool_mint_supply as u128,
        trade_direction,
        fees,
    ) {
        Some(v) => v,
        None => {
            return Err(SwapError::ZeroTradingTokens);
        },
    };
    let withdraw_fee: u128 = if charge_withdraw_fee {
        match fees.owner_withdraw_fee(burn_pool_token_amount) {
            Some(v) => v,
            None => {
                return Err(SwapError::FeeCalculationFailure);
            },
        }
    } else {
        0
    };
    let pool_token_amount = match burn_pool_token_amount.checked_add(withdraw_fee) {
        Some(v) => v,
        None => {
            return Err(SwapError::FeeCalculationFailure);
        },
    };
    let pool_tokens_to_burn = to_u64(pool_token_amount)?;
    if pool_tokens_to_burn > maximum_pool_token_amount {
        return Err(SwapError::ExceededSlippage);
    }
    if pool_tokens_to_burn == 0 {
        return Err(SwapError::ZeroTradingTokens);
    }
    let withdraw_fee_u64 = to_u64(withdraw_fee)?;
    Ok(WithdrawSingleAmounts { pool_tokens_to_burn, withdraw_fee: withdraw_fee_u64 })
}

} // verus!
