//! The append-only fill log.

use vstd::prelude::*;

use solana_program::pubkey::Pubkey;

verus! {

/// The economic terms of one fill, appended to the caller-supplied log and
/// never mutated afterwards. A fill against the AMM has no maker.
pub struct OrderRecord {
    pub ts: i64,
    pub slot: u64,
    pub market_index: u64,
    pub base_asset_amount: u128,
    pub quote_asset_amount: u128,
    pub taker_fee: u128,
    pub maker_rebate: u128,
    pub fee_to_market: u128,
    pub taker: Pubkey,
    pub maker: Option<Pubkey>,
    pub filler: Pubkey,
}

} // verus!
