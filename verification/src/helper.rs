//! Narrowing conversions shared by the ledger-facing entry points.

use vstd::prelude::*;
use crate::errors::SwapError;

verus! {

/// Narrows a 128-bit amount to the 64-bit width of token accounts.
pub fn to_u64(amount: u128) -> (r: Result<u64, SwapError>)
    ensures
        amount <= u64::MAX ==> r == Result::<u64, SwapError>::Ok(amount as u64),
        amount > u64::MAX ==> r == Result::<u64, SwapError>::Err(SwapError::ConversionFailure),
{
    if amount <= u64::MAX as u128 {
        Ok(amount as u64)
    } else {
        Err(SwapError::ConversionFailure)
    }
}

} // verus!
