//! Deployer-enforced policy on new pools: which curve types are
//! acceptable and what fee floor a pool must meet.

use vstd::prelude::*;
use crate::errors::SwapError;
use crate::fees::Fees;
use crate::curves::base::CurveType;

verus! {

/// Whether a curve type appears among the allowed ones.
pub open spec fn curve_type_allowed(constraints: SwapConstraints, curve_type: CurveType) -> bool {
    exists|i: int|
        0 <= i < constraints.valid_curve_types@.len() && constraints.valid_curve_types@[i]
            == curve_type
}

/// Whether a pool's fees meet the deployer's floor: the variable
/// numerators must not fall below it, and the denominators and the host
/// fee must match it exactly.
pub open spec fn fees_meet_constraints(constraints: SwapConstraints, fees: Fees) -> bool {
    &&& fees.trade_fee_numerator >= constraints.fees.trade_fee_numerator
    &&& fees.trade_fee_denominator == constraints.fees.trade_fee_denominator
    &&& fees.owner_trade_fee_numerator >= constraints.fees.owner_trade_fee_numerator
    &&& fees.owner_trade_fee_denominator == constraints.fees.owner_trade_fee_denominator
    &&& fees.owner_withdraw_fee_numerator >= constraints.fees.owner_withdraw_fee_numerator
    &&& fees.owner_withdraw_fee_denominator == constraints.fees.owner_withdraw_fee_denominator
    &&& fees.host_fee_numerator == constraints.fees.host_fee_numerator
    &&& fees.host_fee_denominator == constraints.fees.host_fee_denominator
}

/// Fee and curve policy for a multihost deployment, checked at pool
/// creation.
pub struct SwapConstraints {
    /// Curve types a pool may be created with.
    pub valid_curve_types: Vec<CurveType>,
    /// Fee floor a pool must meet.
    pub fees: Fees,
}

impl SwapConstraints {
    /// The curve type must be one of the allowed ones.
    pub fn validate_curve(&self, curve_type: &CurveType) -> (r: Result<(), SwapError>)
        ensures
            r is Ok <==> curve_type_allowed(*self, *curve_type),
            r is Err ==> r->Err_0 == SwapError::UnsupportedCurveType,
    {
        let n = self.valid_curve_types.len();
        for i in 0..n
            invariant
                n == self.valid_curve_types@.len(),
                forall|j: int| 0 <= j < i ==> self.valid_curve_types@[j] != *curve_type,
        {
            if self.valid_curve_types[i] == *curve_type {
                return Ok(());
            }
        }
        Err(SwapError::UnsupportedCurveType)
    }

    /// The fees must meet the floor.
    pub fn validate_fees(&self, fees: &Fees) -> (r: Result<(), SwapError>)
        ensures
            r is Ok <==> fees_meet_constraints(*self, *fees),
            r is Err ==> r->Err_0 == SwapError::InvalidFee,
    {
        if fees.trade_fee_numerator >= self.fees.trade_fee_numerator && fees.trade_fee_denominator
            == self.fees.trade_fee_denominator && fees.owner_trade_fee_numerator
            >= self.fees.owner_trade_fee_numerator && fees.owner_trade_fee_denominator
            == self.fees.owner_trade_fee_denominator && fees.owner_withdraw_fee_numerator
            >= self.fees.owner_withdraw_fee_numerator && fees.owner_withdraw_fee_denominator
            == self.fees.owner_withdraw_fee_denominator && fees.host_fee_numerator
            == self.fees.host_fee_numerator && fees.host_fee_denominator
            == self.fees.host_fee_denominator {
            Ok(())
        } else {
            Err(SwapError::InvalidFee)
        }
    }
}

/// Applies an optional policy to a pool being created: with no policy
/// everything passes, with one the curve type and the fees are checked
/// in that order.
pub fn validate_swap_constraints(
    curve_type: &CurveType,
    fees: &Fees,
    constraints: Option<&SwapConstraints>,
) -> (r: Result<(), SwapError>)
    ensures
        constraints is None ==> r is Ok,
        constraints is Some ==> (r is Ok <==> (curve_type_allowed(*constraints->0, *curve_type)
            && fees_meet_constraints(*constraints->0, *fees))),
        (constraints is Some && !curve_type_allowed(*constraints->0, *curve_type)) ==> r
            == Result::<(), SwapError>::Err(SwapError::UnsupportedCurveType),
        (constraints is Some && curve_type_allowed(*constraints->0, *curve_type)
            && !fees_meet_constraints(*constraints->0, *fees)) ==> r == Result::<
            (),
            SwapError,
        >::Err(SwapError::InvalidFee),
{
    match constraints {
        Some(constraints) => {
            constraints.validate_curve(curve_type)?;
            constraints.validate_fees(fees)?;
            Ok(())
        },
        None => Ok(()),
    }
}

} // verus!
