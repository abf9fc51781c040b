//! Fixed-point precision constants.
//!
//! Prices carry ten decimal places, quote-asset amounts six, and base-asset
//! amounts (and virtual AMM reserves) thirteen. The ratio constants convert a
//! product of two scaled quantities back into the precision of the result.

use vstd::prelude::*;

verus! {

/// Precision of an order or auction price: ten decimal places.
pub const MARK_PRICE_PRECISION: u128 = 10_000_000_000;

/// Precision of a quote-asset (settlement currency) amount: six decimals.
pub const QUOTE_PRECISION: u128 = 1_000_000;

/// Precision of a base-asset amount: thirteen decimals.
pub const BASE_PRECISION: u128 = 10_000_000_000_000;

/// `BASE_PRECISION` as a signed amount.
pub const BASE_PRECISION_I128: i128 = 10_000_000_000_000;

/// Precision of the AMM's virtual reserves; identical to `BASE_PRECISION`.
pub const AMM_RESERVE_PRECISION: u128 = 10_000_000_000_000;

/// Precision of the AMM's peg multiplier: three decimals.
pub const PEG_PRECISION: u128 = 1_000;

/// Divisor turning `base_amount * price` into a quote-asset amount:
/// `MARK_PRICE_PRECISION * BASE_PRECISION / QUOTE_PRECISION`.
pub const MARK_PRICE_TIMES_AMM_TO_QUOTE_PRECISION_RATIO: u128 = 100_000_000_000_000_000;

/// Divisor turning `reserve_delta * peg_multiplier` into a quote-asset
/// amount: `AMM_RESERVE_PRECISION * PEG_PRECISION / QUOTE_PRECISION`.
pub const AMM_TIMES_PEG_TO_QUOTE_PRECISION_RATIO: u128 = 10_000_000_000;

/// Factor turning `quote_reserve * peg / base_reserve` into a mark price:
/// `MARK_PRICE_PRECISION / PEG_PRECISION`.
pub const PRICE_TO_PEG_PRECISION_RATIO: u128 = 10_000_000;

/// Precision of a margin ratio: `margin_ratio_initial / MARGIN_PRECISION`
/// is the fraction of position value that must be collateralized.
pub const MARGIN_PRECISION: u128 = 10_000;

/// Precision of a deposit bank's cumulative interest accumulator.
pub const BANK_CUMULATIVE_INTEREST_PRECISION: u128 = 10_000_000_000;

/// Precision of a deposit bank balance before interest accrual.
pub const BANK_INTEREST_PRECISION: u128 = 1_000_000;

/// Precision of a bank's asset and liability weights.
pub const BANK_WEIGHT_PRECISION: u128 = 100;

} // verus!
