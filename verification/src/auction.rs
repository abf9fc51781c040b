//! Dutch-auction price discovery for market orders.
//!
//! A market order's clearing price interpolates linearly between its auction
//! start and end prices over a fixed window of slots, clamped to the window:
//! before the window it is the start price, after it the end price, never an
//! extrapolation. A limit order's price is its fixed limit price. The price
//! is a pure function of the order and the slot, so replays agree.

use vstd::prelude::*;
use vstd::arithmetic::div_mod::lemma_div_of0;

use crate::errors::ErrorCode;
use crate::math::{lemma_div_ordered, lemma_mul_div_exact, lemma_mul_div_le, mul_u128};
use crate::position::PositionDirection;
use crate::user::{Order, OrderType};

verus! {

/// The smaller of two integers.
pub open spec fn spec_min_int(a: int, b: int) -> int {
    if a < b {
        a
    } else {
        b
    }
}

/// The larger of two integers.
pub open spec fn spec_max_int(a: int, b: int) -> int {
    if a > b {
        a
    } else {
        b
    }
}

/// Slots of the auction window already elapsed at `slot`, clamped to the
/// window: zero before the placement slot, never more than the window
/// length.
pub open spec fn spec_auction_elapsed(order: Order, slot: u64) -> int {
    spec_min_int(spec_max_int(slot - order.slot, 0), order.auction_duration as int)
}

/// The auction price of a market order at `slot`: linear interpolation from
/// the start price to the end price over the auction window; immediately the
/// end price for a zero-length window.
pub open spec fn spec_auction_price(order: Order, slot: u64) -> int {
    let start = order.auction_start_price as int;
    let end = order.auction_end_price as int;
    let duration = order.auction_duration as int;
    if duration == 0 {
        end
    } else {
        let elapsed = spec_auction_elapsed(order, slot);
        match order.direction {
            PositionDirection::Long => start + (end - start) * elapsed / duration,
            PositionDirection::Short => start - (start - end) * elapsed / duration,
        }
    }
}

/// When the auction price is defined: the price ramp runs in the direction
/// of the order's side and the interpolation product fits the machine width.
pub open spec fn spec_auction_price_ok(order: Order, slot: u64) -> bool {
    let start = order.auction_start_price as int;
    let end = order.auction_end_price as int;
    order.auction_duration == 0 || {
        &&& match order.direction {
            PositionDirection::Long => start <= end && (end - start) * spec_auction_elapsed(
                order,
                slot,
            ) <= u128::MAX,
            PositionDirection::Short => end <= start && (start - end) * spec_auction_elapsed(
                order,
                slot,
            ) <= u128::MAX,
        }
    }
}

/// The execution price an order asks for at `slot`: the auction price of a
/// market order, the fixed limit price of a limit order.
pub open spec fn spec_limit_price(order: Order, slot: u64) -> int {
    match order.order_type {
        OrderType::Market => spec_auction_price(order, slot),
        OrderType::Limit => order.price as int,
    }
}

/// When the execution price is defined.
pub open spec fn spec_limit_price_ok(order: Order, slot: u64) -> bool {
    match order.order_type {
        OrderType::Market => spec_auction_price_ok(order, slot),
        OrderType::Limit => true,
    }
}

/// The auction price stays between the start and the end price.
pub proof fn lemma_auction_price_in_window(order: Order, slot: u64)
    requires
        spec_auction_price_ok(order, slot),
    ensures
        order.auction_duration > 0 && order.direction == PositionDirection::Long
            ==> order.auction_start_price <= spec_auction_price(order, slot)
                <= order.auction_end_price,
        order.auction_duration > 0 && order.direction == PositionDirection::Short
            ==> order.auction_end_price <= spec_auction_price(order, slot)
                <= order.auction_start_price,
{
    if order.auction_duration > 0 {
        let start = order.auction_start_price as int;
        let end = order.auction_end_price as int;
        let duration = order.auction_duration as int;
        let elapsed = spec_auction_elapsed(order, slot);
        match order.direction {
            PositionDirection::Long => {
                lemma_mul_div_le(end - start, elapsed, duration);
                assert((end - start) * elapsed >= 0) by (nonlinear_arith)
                    requires
                        end - start >= 0,
                        elapsed >= 0,
                ;
                assert((end - start) * elapsed / duration >= 0) by {
                    lemma_div_of0(duration);
                    lemma_div_ordered(0, (end - start) * elapsed, duration);
                }
            },
            PositionDirection::Short => {
                lemma_mul_div_le(start - end, elapsed, duration);
                assert((start - end) * elapsed >= 0) by (nonlinear_arith)
                    requires
                        start - end >= 0,
                        elapsed >= 0,
                ;
                assert((start - end) * elapsed / duration >= 0) by {
                    lemma_div_of0(duration);
                    lemma_div_ordered(0, (start - end) * elapsed, duration);
                }
            },
        }
    }
}

/// Dutch-auction monotonicity: within its window, a long market order's
/// auction price never decreases from one slot to a later one, and a short
/// order's never increases.
pub proof fn lemma_auction_price_monotonic(order: Order, s1: u64, s2: u64)
    requires
        s1 <= s2,
        spec_auction_price_ok(order, s1),
        spec_auction_price_ok(order, s2),
    ensures
        order.direction == PositionDirection::Long ==> spec_auction_price(order, s1)
            <= spec_auction_price(order, s2),
        order.direction == PositionDirection::Short ==> spec_auction_price(order, s2)
            <= spec_auction_price(order, s1),
{
    if order.auction_duration > 0 {
        let start = order.auction_start_price as int;
        let end = order.auction_end_price as int;
        let duration = order.auction_duration as int;
        let e1 = spec_auction_elapsed(order, s1);
        let e2 = spec_auction_elapsed(order, s2);
        assert(e1 <= e2);
        match order.direction {
            PositionDirection::Long => {
                assert((end - start) * e1 <= (end - start) * e2) by (nonlinear_arith)
                    requires
                        0 <= end - start,
                        e1 <= e2,
                ;
                lemma_div_ordered((end - start) * e1, (end - start) * e2, duration);
            },
            PositionDirection::Short => {
                assert((start - end) * e1 <= (start - end) * e2) by (nonlinear_arith)
                    requires
                        0 <= start - end,
                        e1 <= e2,
                ;
                lemma_div_ordered((start - end) * e1, (start - end) * e2, duration);
            },
        }
    }
}

/// Auction boundary behavior: at or before the placement slot the price is
/// the start price; at or past the end of the window it is exactly the end
/// price — clamped, never extrapolated.
pub proof fn lemma_auction_price_boundaries(order: Order, slot: u64)
    requires
        spec_auction_price_ok(order, slot),
        order.auction_duration > 0,
    ensures
        slot <= order.slot ==> spec_auction_price(order, slot)
            == order.auction_start_price as int,
        slot >= order.slot + order.auction_duration ==> spec_auction_price(order, slot)
            == order.auction_end_price as int,
{
    let start = order.auction_start_price as int;
    let end = order.auction_end_price as int;
    let duration = order.auction_duration as int;
    let elapsed = spec_auction_elapsed(order, slot);
    if slot <= order.slot {
        assert(elapsed == 0);
        assert((end - start) * 0 == 0) by (nonlinear_arith);
        assert((start - end) * 0 == 0) by (nonlinear_arith);
        lemma_div_of0(duration);
    }
    if slot >= order.slot + order.auction_duration {
        assert(elapsed == duration);
        match order.direction {
            PositionDirection::Long => {
                lemma_mul_div_exact(end - start, duration);
            },
            PositionDirection::Short => {
                lemma_mul_div_exact(start - end, duration);
            },
        }
    }
}

/// The auction price of a market order at `slot`, clamped to the auction
/// window; a math error outside the defined range (a slot before placement,
/// a ramp against the order's side, or an interpolation overflow).
pub fn calculate_auction_price(order: &Order, slot: u64) -> (r: Result<u128, ErrorCode>)
    ensures
        spec_auction_price_ok(*order, slot) ==> r == Ok::<u128, ErrorCode>(
            spec_auction_price(*order, slot) as u128,
        ),
        spec_auction_price_ok(*order, slot) ==> 0 <= spec_auction_price(*order, slot)
            <= u128::MAX,
        !spec_auction_price_ok(*order, slot) ==> r == Err::<u128, ErrorCode>(ErrorCode::MathError),
{
    if order.auction_duration == 0 {
        return Ok(order.auction_end_price);
    }
    let elapsed_raw = if slot > order.slot {
        slot - order.slot
    } else {
        0
    };
    let elapsed = if elapsed_raw < order.auction_duration {
        elapsed_raw
    } else {
        order.auction_duration
    };
    match order.direction {
        PositionDirection::Long => {
            let range = match order.auction_end_price.checked_sub(order.auction_start_price) {
                Some(v) => v,
                None => { return Err(ErrorCode::MathError); },
            };
            let product = match mul_u128(range, elapsed as u128) {
                Ok(v) => v,
                Err(ec) => { return Err(ec); },
            };
            let delta = product / (order.auction_duration as u128);
            proof {
                lemma_mul_div_le(range as int, elapsed as int, order.auction_duration as int);
            }
            Ok(order.auction_start_price + delta)
        },
        PositionDirection::Short => {
            let range = match order.auction_start_price.checked_sub(order.auction_end_price) {
                Some(v) => v,
                None => { return Err(ErrorCode::MathError); },
            };
            let product = match mul_u128(range, elapsed as u128) {
                Ok(v) => v,
                Err(ec) => { return Err(ec); },
            };
            let delta = product / (order.auction_duration as u128);
            proof {
                lemma_mul_div_le(range as int, elapsed as int, order.auction_duration as int);
            }
            Ok(order.auction_start_price - delta)
        },
    }
}

/// The execution price the order asks for at `slot`: auction price for a
/// market order, fixed price for a limit order.
pub fn get_limit_price(order: &Order, slot: u64) -> (r: Result<u128, ErrorCode>)
    ensures
        spec_limit_price_ok(*order, slot) ==> r == Ok::<u128, ErrorCode>(
            spec_limit_price(*order, slot) as u128,
        ),
        spec_limit_price_ok(*order, slot) ==> 0 <= spec_limit_price(*order, slot) <= u128::MAX,
        !spec_limit_price_ok(*order, slot) ==> r == Err::<u128, ErrorCode>(ErrorCode::MathError),
{
    match order.order_type {
        OrderType::Market => calculate_auction_price(order, slot),
        OrderType::Limit => Ok(order.price),
    }
}

} // verus!
