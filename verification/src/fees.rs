//! The fee schedule and the fee engine.
//!
//! The taker pays `notional * fee_numerator / fee_denominator`; the maker's
//! rebate is carved out of that fee, `fee * maker_rebate_numerator /
//! maker_rebate_denominator`; the difference accrues to the market as net fee
//! revenue. Every quotient truncates toward zero, so rounding always favors
//! the market, never the user.

use vstd::prelude::*;

use crate::errors::ErrorCode;
use crate::math::mul_u128;

verus! {

/// The fee schedule of one fulfillment call. The discount fields are
/// pass-through multipliers owned by the caller's fee-tier logic; this core
/// never computes them.
#[derive(Clone, Copy, Debug, PartialEq, Eq, Structural)]
pub struct FeeStructure {
    pub fee_numerator: u128,
    pub fee_denominator: u128,
    pub maker_rebate_numerator: u128,
    pub maker_rebate_denominator: u128,
    pub referee_discount_numerator: u128,
    pub referee_discount_denominator: u128,
    pub token_discount_numerator: u128,
    pub token_discount_denominator: u128,
}

impl FeeStructure {
    /// Ten basis points of taker fee, no maker rebate, no discounts.
    pub open spec fn spec_default() -> FeeStructure {
        FeeStructure {
            fee_numerator: 10,
            fee_denominator: 10000,
            maker_rebate_numerator: 0,
            maker_rebate_denominator: 1,
            referee_discount_numerator: 0,
            referee_discount_denominator: 1,
            token_discount_numerator: 0,
            token_discount_denominator: 1,
        }
    }
}

impl Default for FeeStructure {
    /// Ten basis points of taker fee, no maker rebate, no discounts.
    fn default() -> (r: FeeStructure)
        ensures
            r == FeeStructure::spec_default(),
    {
        FeeStructure {
            fee_numerator: 10,
            fee_denominator: 10000,
            maker_rebate_numerator: 0,
            maker_rebate_denominator: 1,
            referee_discount_numerator: 0,
            referee_discount_denominator: 1,
            token_discount_numerator: 0,
            token_discount_denominator: 1,
        }
    }
}

/// A five-basis-point taker fee of which the maker is rebated three fifths.
pub fn get_fee_structure() -> (r: FeeStructure)
    ensures
        r == (FeeStructure {
            fee_numerator: 5,
            fee_denominator: 10000,
            maker_rebate_numerator: 3,
            maker_rebate_denominator: 5,
            ..FeeStructure::spec_default()
        }),
{
    FeeStructure {
        fee_numerator: 5,
        fee_denominator: 10000,
        maker_rebate_numerator: 3,
        maker_rebate_denominator: 5,
        ..Default::default()
    }
}

/// The taker fee on a quote notional, truncated toward zero.
pub open spec fn spec_taker_fee(quote: int, fs: FeeStructure) -> int {
    quote * fs.fee_numerator / fs.fee_denominator as int
}

/// The maker rebate carved out of a taker fee, truncated toward zero.
pub open spec fn spec_maker_rebate(quote: int, fs: FeeStructure) -> int {
    spec_taker_fee(quote, fs) * fs.maker_rebate_numerator / fs.maker_rebate_denominator as int
}

/// The net fee the market keeps from one matched leg.
pub open spec fn spec_fee_to_market(quote: int, fs: FeeStructure) -> int {
    spec_taker_fee(quote, fs) - spec_maker_rebate(quote, fs)
}

/// When the fee computation is exact: nonzero denominators, both products
/// within the machine width, and a rebate no larger than the fee it is
/// carved from.
pub open spec fn spec_fee_ok(quote: int, fs: FeeStructure) -> bool {
    &&& quote * fs.fee_numerator <= u128::MAX
    &&& fs.fee_denominator != 0
    &&& spec_taker_fee(quote, fs) * fs.maker_rebate_numerator <= u128::MAX
    &&& fs.maker_rebate_denominator != 0
    &&& spec_maker_rebate(quote, fs) <= spec_taker_fee(quote, fs)
}

/// Fee identity: on every matched leg the taker fee splits exactly into the
/// maker rebate and the market's accrual; nothing is created or lost.
pub proof fn lemma_fee_identity(quote: int, fs: FeeStructure)
    requires
        spec_fee_ok(quote, fs),
    ensures
        spec_taker_fee(quote, fs) - spec_maker_rebate(quote, fs) == spec_fee_to_market(quote, fs),
        spec_fee_to_market(quote, fs) >= 0,
{
}

/// The taker fee, the maker rebate, and the market's net accrual for one
/// matched leg of the given quote notional.
pub fn calculate_fee_for_order(quote_asset_amount: u128, fee_structure: &FeeStructure) -> (r:
    Result<(u128, u128, u128), ErrorCode>)
    ensures
        spec_fee_ok(quote_asset_amount as int, *fee_structure) ==> r == Ok::<
            (u128, u128, u128),
            ErrorCode,
        >(
            (
                spec_taker_fee(quote_asset_amount as int, *fee_structure) as u128,
                spec_maker_rebate(quote_asset_amount as int, *fee_structure) as u128,
                spec_fee_to_market(quote_asset_amount as int, *fee_structure) as u128,
            ),
        ),
        !spec_fee_ok(quote_asset_amount as int, *fee_structure) ==> r == Err::<
            (u128, u128, u128),
            ErrorCode,
        >(ErrorCode::MathError),
{
    let fee_product = match mul_u128(quote_asset_amount, fee_structure.fee_numerator) {
        Ok(v) => v,
        Err(ec) => { return Err(ec); },
    };
    if fee_structure.fee_denominator == 0 {
        return Err(ErrorCode::MathError);
    }
    let taker_fee = fee_product / fee_structure.fee_denominator;
    let rebate_product = match mul_u128(taker_fee, fee_structure.maker_rebate_numerator) {
        Ok(v) => v,
        Err(ec) => { return Err(ec); },
    };
    if fee_structure.maker_rebate_denominator == 0 {
        return Err(ErrorCode::MathError);
    }
    let maker_rebate = rebate_product / fee_structure.maker_rebate_denominator;
    let fee_to_market = match taker_fee.checked_sub(maker_rebate) {
        Some(v) => v,
        None => { return Err(ErrorCode::MathError); },
    };
    Ok((taker_fee, maker_rebate, fee_to_market))
}

} // verus!
