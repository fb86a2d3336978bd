//! Fee model: four numerator/denominator fee fractions and their forward
//! and inverse applications.
//!
//! A fee fraction is valid when either both parts are zero (fee disabled)
//! or the numerator is strictly below the denominator (fee below 100%).
//! A computed fee of zero with an active numerator is bumped to one token,
//! so that no trade is ever completely fee-free.

use vstd::prelude::*;
use crate::errors::SwapError;

verus! {

/// What a forward fee computation returns: zero when the fraction is
/// disabled, otherwise the floored product bumped up to at least one,
/// and no value at all when the product overflows 128 bits.
pub open spec fn fee_result(amount: u128, numerator: u128, denominator: u128) -> Option<u128> {
    if numerator == 0 || denominator == 0 {
        Some(0u128)
    } else if amount * numerator > u128::MAX {
        None
    } else if amount * numerator / (denominator as int) == 0 {
        Some(1u128)
    } else {
        Some((amount * numerator / (denominator as int)) as u128)
    }
}

/// What an inverse fee computation returns: the smallest pre-fee amount
/// whose post-fee part covers the requested amount, rounded up.
pub open spec fn pre_fee_result(post_fee_amount: u128, numerator: int, denominator: int) -> Option<
    u128,
> {
    if numerator == 0 || denominator == 0 {
        Some(post_fee_amount)
    } else if numerator == denominator || post_fee_amount == 0 {
        Some(0u128)
    } else if numerator > denominator {
        None
    } else if post_fee_amount * denominator > u128::MAX {
        None
    } else if post_fee_amount * denominator + (denominator - numerator) > u128::MAX {
        None
    } else {
        Some(
            ((post_fee_amount * denominator + (denominator - numerator) - 1) / (denominator
                - numerator)) as u128,
        )
    }
}

/// What the combined inverse of the trade and owner trade fees returns:
/// the two fractions merged over a common denominator where both are
/// active, otherwise the single active one.
pub open spec fn pre_trading_fee_spec(fees: Fees, post_fee_amount: u128) -> Option<u128> {
    if fees.trade_fee_numerator == 0 || fees.trade_fee_denominator == 0 {
        pre_fee_result(
            post_fee_amount,
            fees.owner_trade_fee_numerator as int,
            fees.owner_trade_fee_denominator as int,
        )
    } else if fees.owner_trade_fee_numerator == 0 || fees.owner_trade_fee_denominator == 0 {
        pre_fee_result(
            post_fee_amount,
            fees.trade_fee_numerator as int,
            fees.trade_fee_denominator as int,
        )
    } else if fees.trade_fee_numerator * fees.owner_trade_fee_denominator
        + fees.owner_trade_fee_numerator * fees.trade_fee_denominator > u128::MAX {
        None
    } else {
        pre_fee_result(
            post_fee_amount,
            fees.trade_fee_numerator * fees.owner_trade_fee_denominator
                + fees.owner_trade_fee_numerator * fees.trade_fee_denominator,
            fees.trade_fee_denominator * fees.owner_trade_fee_denominator,
        )
    }
}

/// A single fee fraction is valid when disabled or strictly below one.
pub open spec fn fraction_valid(numerator: u64, denominator: u64) -> bool {
    (numerator == 0 && denominator == 0) || numerator < denominator
}

/// All four fee fractions are valid.
pub open spec fn fees_valid(fees: Fees) -> bool {
    &&& fraction_valid(fees.trade_fee_numerator, fees.trade_fee_denominator)
    &&& fraction_valid(fees.owner_trade_fee_numerator, fees.owner_trade_fee_denominator)
    &&& fraction_valid(fees.owner_withdraw_fee_numerator, fees.owner_withdraw_fee_denominator)
    &&& fraction_valid(fees.host_fee_numerator, fees.host_fee_denominator)
}

/// The four fee fractions kept by a pool.
#[derive(Clone, Copy, Debug, PartialEq, Eq, Structural)]
pub struct Fees {
    /// Trade fee numerator; trade fees stay inside the reserves and raise
    /// the value of pool tokens.
    pub trade_fee_numerator: u64,
    /// Trade fee denominator.
    pub trade_fee_denominator: u64,
    /// Owner trade fee numerator; owner trade fees are paid to the program
    /// owner as minted pool tokens.
    pub owner_trade_fee_numerator: u64,
    /// Owner trade fee denominator.
    pub owner_trade_fee_denominator: u64,
    /// Owner withdraw fee numerator; withdraw fees are pool tokens sent to
    /// the owner on every withdrawal.
    pub owner_withdraw_fee_numerator: u64,
    /// Owner withdraw fee denominator.
    pub owner_withdraw_fee_denominator: u64,
    /// Host fee numerator; the host fee is carved out of the owner trade
    /// fee for the frontend hosting the trade.
    pub host_fee_numerator: u64,
    /// Host fee denominator.
    pub host_fee_denominator: u64,
}

/// Rejects a fraction at or above 100% unless it is fully disabled.
fn validate_fraction(numerator: u64, denominator: u64) -> (r: Result<(), SwapError>)
    ensures
        r is Ok <==> fraction_valid(numerator, denominator),
        r is Err ==> r->Err_0 == SwapError::InvalidFee,
{
    if denominator == 0 && numerator == 0 {
        Ok(())
    } else if numerator >= denominator {
        Err(SwapError::InvalidFee)
    } else {
        Ok(())
    }
}

/// Floored fee on `amount`, bumped to a minimum of one when the fraction
/// is active.
pub fn calculate_fee(amount: u128, fee_numerator: u128, fee_denominator: u128) -> (r: Option<u128>)
    ensures
        r == fee_result(amount, fee_numerator, fee_denominator),
{
    if fee_numerator == 0 || fee_denominator == 0 {
        Some(0)
    } else {
        let product = match amount.checked_mul(fee_numerator) {
            Some(p) => p,
            None => {
                return None;
            },
        };
        let fee = product / fee_denominator;
        if fee == 0 {
            Some(1)
        } else {
            Some(fee)
        }
    }
}

/// Smallest amount whose fee-reduced remainder still covers
/// `post_fee_amount`, for a single fraction.
fn pre_fee_amount(post_fee_amount: u128, fee_numerator: u128, fee_denominator: u128) -> (r: Option<
    u128,
>)
    ensures
        r == pre_fee_result(post_fee_amount, fee_numerator as int, fee_denominator as int),
{
    if fee_numerator == 0 || fee_denominator == 0 {
        Some(post_fee_amount)
    } else if fee_numerator == fee_denominator || post_fee_amount == 0 {
        Some(0)
    } else {
        let numerator = match post_fee_amount.checked_mul(fee_denominator) {
            Some(n) => n,
            None => {
                return None;
            },
        };
        let denominator = match fee_denominator.checked_sub(fee_numerator) {
            Some(d) => d,
            None => {
                return None;
            },
        };
        ceil_div(numerator, denominator)
    }
}

/// `dividend / divisor`, rounded up; fails on a zero divisor or when the
/// widened sum overflows.
fn ceil_div(dividend: u128, divisor: u128) -> (r: Option<u128>)
    ensures
        (divisor > 0 && dividend + divisor <= u128::MAX) ==> r == Some(
            ((dividend + divisor - 1) / (divisor as int)) as u128,
        ),
        (divisor == 0 || dividend + divisor > u128::MAX) ==> r is None,
{
    let sum = match dividend.checked_add(divisor) {
        Some(s) => s,
        None => {
            return None;
        },
    };
    let m = match sum.checked_sub(1) {
        Some(m) => m,
        None => {
            return None;
        },
    };
    m.checked_div(divisor)
}

impl Fees {
    /// All four fractions must be valid.
    pub fn validate(&self) -> (r: Result<(), SwapError>)
        ensures
            r is Ok <==> fees_valid(*self),
            r is Err ==> r->Err_0 == SwapError::InvalidFee,
    {
        validate_fraction(self.trade_fee_numerator, self.trade_fee_denominator)?;
        validate_fraction(self.owner_trade_fee_numerator, self.owner_trade_fee_denominator)?;
        validate_fraction(self.owner_withdraw_fee_numerator, self.owner_withdraw_fee_denominator)?;
        validate_fraction(self.host_fee_numerator, self.host_fee_denominator)?;
        Ok(())
    }

    /// Host fee carved out of an owner fee, in pool tokens.
    pub fn host_fee(&self, owner_fee: u128) -> (r: Option<u128>)
        ensures
            r == fee_result(owner_fee, self.host_fee_numerator as u128, self.host_fee_denominator as u128),
    {
        calculate_fee(owner_fee, self.host_fee_numerator as u128, self.host_fee_denominator as u128)
    }

    /// Trading fee on `trading_tokens`, kept inside the reserves.
    pub fn trading_fee(&self, trading_tokens: u128) -> (r: Option<u128>)
        ensures
            r == fee_result(
                trading_tokens,
                self.trade_fee_numerator as u128,
                self.trade_fee_denominator as u128,
            ),
    {
        calculate_fee(
            trading_tokens,
            self.trade_fee_numerator as u128,
            self.trade_fee_denominator as u128,
        )
    }

    /// Owner trading fee on `trading_tokens`, later paid in pool tokens.
    pub fn owner_trading_fee(&self, trading_tokens: u128) -> (r: Option<u128>)
        ensures
            r == fee_result(
                trading_tokens,
                self.owner_trade_fee_numerator as u128,
                self.owner_trade_fee_denominator as u128,
            ),
    {
        calculate_fee(
            trading_tokens,
            self.owner_trade_fee_numerator as u128,
            self.owner_trade_fee_denominator as u128,
        )
    }

    /// Withdraw fee on `pool_tokens`.
    pub fn owner_withdraw_fee(&self, pool_tokens: u128) -> (r: Option<u128>)
        ensures
            r == fee_result(
                pool_tokens,
                self.owner_withdraw_fee_numerator as u128,
                self.owner_withdraw_fee_denominator as u128,
            ),
    {
        calculate_fee(
            pool_tokens,
            self.owner_withdraw_fee_numerator as u128,
            self.owner_withdraw_fee_denominator as u128,
        )
    }

    /// Input amount needed so that, after the combined trade and owner
    /// trade fees are removed, `post_fee_amount` remains.
    pub fn pre_trading_fee_amount(&self, post_fee_amount: u128) -> (r: Option<u128>)
        ensures
            r == pre_trading_fee_spec(*self, post_fee_amount),
    {
        if self.trade_fee_numerator == 0 || self.trade_fee_denominator == 0 {
            pre_fee_amount(
                post_fee_amount,
                self.owner_trade_fee_numerator as u128,
                self.owner_trade_fee_denominator as u128,
            )
        } else if self.owner_trade_fee_numerator == 0 || self.owner_trade_fee_denominator == 0 {
            pre_fee_amount(
                post_fee_amount,
                self.trade_fee_numerator as u128,
                self.trade_fee_denominator as u128,
            )
        } else {
            // Merge the two fractions over a common denominator; u64
            // numerators and denominators keep every product within u128.
            proof {
                assert(self.trade_fee_numerator * self.owner_trade_fee_denominator <= u64::MAX
                    * u64::MAX && self.owner_trade_fee_numerator * self.trade_fee_denominator
                    <= u64::MAX * u64::MAX && self.trade_fee_denominator
                    * self.owner_trade_fee_denominator <= u64::MAX * u64::MAX) by (nonlinear_arith)
                    requires
                        self.trade_fee_numerator <= u64::MAX,
                        self.owner_trade_fee_denominator <= u64::MAX,
                        self.owner_trade_fee_numerator <= u64::MAX,
                        self.trade_fee_denominator <= u64::MAX,
                ;
            }
            let merged_numerator = match ((self.trade_fee_numerator as u128) * (
            self.owner_trade_fee_denominator as u128)).checked_add(
                (self.owner_trade_fee_numerator as u128) * (self.trade_fee_denominator as u128),
            ) {
                Some(n) => n,
                None => {
                    return None;
                },
            };
            let merged_denominator = (self.trade_fee_denominator as u128) * (
            self.owner_trade_fee_denominator as u128);
            pre_fee_amount(post_fee_amount, merged_numerator, merged_denominator)
        }
    }
}

/// A fee on a positive amount is never zero while its fraction is active:
/// the floored quotient is bumped to one whenever it would vanish.
pub proof fn lemma_fee_floor(amount: u128, numerator: u128, denominator: u128)
    requires
        amount > 0,
        numerator > 0,
        denominator > 0,
        amount * numerator <= u128::MAX,
    ensures
        fee_result(amount, numerator, denominator) is Some,
        fee_result(amount, numerator, denominator)->0 >= 1,
{
}

} // verus!
