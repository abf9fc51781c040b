//! Selection of the liquidity sources one fulfillment call will try, in
//! order: a supplied resting maker first, then the AMM once the taker's
//! auction window allows it.

use vstd::prelude::*;

use solana_program::pubkey::Pubkey;

use crate::keys::clone_pubkey;
use crate::user::Order;

verus! {

/// One leg of a perp fill: against the AMM (with the first slot at which
/// the taker's auction permits it, when the auction is timed), or a match
/// against the resting order of the given maker at the given order index.
#[derive(Debug, PartialEq, Eq)]
pub enum PerpFulfillmentMethod {
    AMM(Option<u64>),
    Match(Pubkey, u16),
}

/// One leg of a spot fill: routed to an external spot market, or a match
/// against the resting order of the given maker. Spot routing itself lives
/// with the host, not in this core.
#[derive(Debug)]
pub enum SpotFulfillmentMethod {
    ExternalMarket,
    Match(Pubkey, u16),
}

/// The first slot at which the order's auction is complete, saturated at
/// the largest slot.
pub open spec fn spec_auction_complete_slot(order: Order) -> int {
    if order.slot + order.auction_duration <= u64::MAX {
        order.slot + order.auction_duration
    } else {
        u64::MAX as int
    }
}

/// The first slot at which the order's auction is complete.
pub fn auction_complete_slot(order: &Order) -> (r: u64)
    ensures
        r == spec_auction_complete_slot(*order),
{
    match order.slot.checked_add(order.auction_duration) {
        Some(v) => v,
        None => u64::MAX,
    }
}

/// The methods one fulfillment call will try for this taker order, in
/// order: the supplied maker first, then the AMM, tagged with the slot from
/// which the taker's auction permits an AMM fill.
pub fn determine_perp_fulfillment_methods(
    order: &Order,
    maker_key: Option<&Pubkey>,
    maker_order_index: Option<u16>,
) -> (r: Vec<PerpFulfillmentMethod>)
    ensures
        match (maker_key, maker_order_index) {
            (Some(k), Some(i)) => r@ == seq![
                PerpFulfillmentMethod::Match(*k, i),
                PerpFulfillmentMethod::AMM(
                    if order.auction_duration > 0 {
                        Some(spec_auction_complete_slot(*order) as u64)
                    } else {
                        None
                    },
                ),
            ],
            _ => r@ == seq![
                PerpFulfillmentMethod::AMM(
                    if order.auction_duration > 0 {
                        Some(spec_auction_complete_slot(*order) as u64)
                    } else {
                        None
                    },
                ),
            ],
        },
{
    let amm_from = if order.auction_duration > 0 {
        Some(auction_complete_slot(order))
    } else {
        None
    };
    let mut methods: Vec<PerpFulfillmentMethod> = Vec::new();
    match (maker_key, maker_order_index) {
        (Some(k), Some(i)) => {
            methods.push(PerpFulfillmentMethod::Match(clone_pubkey(k), i));
            methods.push(PerpFulfillmentMethod::AMM(amm_from));
            proof {
                assert(methods@ =~= seq![
                    PerpFulfillmentMethod::Match(*k, i),
                    PerpFulfillmentMethod::AMM(
                        if order.auction_duration > 0 {
                            Some(spec_auction_complete_slot(*order) as u64)
                        } else {
                            None
                        },
                    ),
                ]);
            }
        },
        _ => {
            methods.push(PerpFulfillmentMethod::AMM(amm_from));
            proof {
                assert(methods@ =~= seq![
                    PerpFulfillmentMethod::AMM(
                        if order.auction_duration > 0 {
                            Some(spec_auction_complete_slot(*order) as u64)
                        } else {
                            None
                        },
                    ),
                ]);
            }
        },
    }
    methods
}

} // verus!
