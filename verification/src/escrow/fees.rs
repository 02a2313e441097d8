use vstd::prelude::*;
use crate::escrow::state::{
    ProgramState, BASIS_POINTS_DENOMINATOR, MAX_PRODUCT_TYPE_FEE, PLATFORM_FEE_BASIS_POINTS,
    PRODUCT_TYPE_COUNT,
};

verus! {

/// The fee rate in basis points that applies to a product type: the rate set
/// for it in the fee table when there is one (non-zero), the platform default
/// otherwise.
pub open spec fn spec_fee_bps(fees: [u64; 9], product_type: u8) -> u64 {
    if (product_type as usize) < PRODUCT_TYPE_COUNT && fees@[product_type as int] > 0 {
        fees@[product_type as int]
    } else {
        PLATFORM_FEE_BASIS_POINTS
    }
}

/// The platform's share of `amount` at `fee_bps` basis points, rounded down.
pub open spec fn spec_platform_fee(amount: u64, fee_bps: u64) -> int {
    (amount * fee_bps) / (BASIS_POINTS_DENOMINATOR as int)
}

/// Every rate in the fee table is within the product-type fee cap.
pub open spec fn fee_table_capped(fees: [u64; 9]) -> bool {
    forall|i: int| 0 <= i < PRODUCT_TYPE_COUNT ==> fees@[i] <= MAX_PRODUCT_TYPE_FEE
}

/// The fee rate that applies to an escrow of the given product type.
pub(crate) fn fee_bps_for(state: &ProgramState, product_type: u8) -> (bps: u64)
    ensures
        bps == spec_fee_bps(state.product_type_fees, product_type),
{
    let pt_idx = product_type as usize;
    if pt_idx < PRODUCT_TYPE_COUNT && state.product_type_fees[pt_idx] > 0 {
        state.product_type_fees[pt_idx]
    } else {
        PLATFORM_FEE_BASIS_POINTS
    }
}

} // verus!
