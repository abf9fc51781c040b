//! Maker-eligibility, crossing checks, and trade-size determination.
//!
//! A taker and a maker may trade only in the same market and on opposite
//! sides, and only while the taker's current price crosses the maker's: a
//! taker bid at or above the maker's ask, or a taker ask at or below the
//! maker's bid. A pair that does not cross is not an error; it simply trades
//! a size of zero.

use vstd::prelude::*;

use crate::constants::MARK_PRICE_TIMES_AMM_TO_QUOTE_PRECISION_RATIO;
use crate::errors::ErrorCode;
use crate::math::mul_u128;
use crate::position::PositionDirection;
use crate::user::Order;

verus! {

/// The two orders live in the same market and take opposite sides.
pub open spec fn spec_same_market_but_different_sides(maker_order: Order, taker_order: Order) -> bool {
    &&& maker_order.market_index == taker_order.market_index
    &&& maker_order.direction != taker_order.direction
}

/// Whether the two orders live in the same market and take opposite sides;
/// same-direction pairs are never eligible, regardless of price.
pub fn are_orders_same_market_but_different_sides(maker_order: &Order, taker_order: &Order) -> (r:
    bool)
    ensures
        r == spec_same_market_but_different_sides(*maker_order, *taker_order),
{
    maker_order.market_index == taker_order.market_index && maker_order.direction
        != taker_order.direction
}

/// The taker's price crosses the maker's resting price: a bid meets or beats
/// a maker ask, an ask meets or undercuts a maker bid.
pub open spec fn spec_orders_cross(
    maker_direction: PositionDirection,
    maker_price: int,
    taker_price: int,
) -> bool {
    match maker_direction {
        PositionDirection::Long => taker_price <= maker_price,
        PositionDirection::Short => taker_price >= maker_price,
    }
}

/// Whether the taker's price crosses the maker's resting price.
pub fn do_orders_cross(
    maker_direction: PositionDirection,
    maker_price: u128,
    taker_price: u128,
) -> (r: bool)
    ensures
        r == spec_orders_cross(maker_direction, maker_price as int, taker_price as int),
{
    match maker_direction {
        PositionDirection::Long => taker_price <= maker_price,
        PositionDirection::Short => taker_price >= maker_price,
    }
}

/// Base size of a matched fill: the smaller of the two remaining sizes.
pub open spec fn spec_fill_base(maker_unfilled: int, taker_unfilled: int) -> int {
    if maker_unfilled < taker_unfilled {
        maker_unfilled
    } else {
        taker_unfilled
    }
}

/// Quote owed for `base` at `price`: `base * price` scaled down to quote
/// precision, truncated toward zero.
pub open spec fn spec_fill_quote(base: int, price: int) -> int {
    base * price / MARK_PRICE_TIMES_AMM_TO_QUOTE_PRECISION_RATIO as int
}

/// When the matched-fill amounts are exact: the size-price product fits the
/// machine width.
pub open spec fn spec_fill_ok(maker_unfilled: int, maker_price: int, taker_unfilled: int) -> bool {
    spec_fill_base(maker_unfilled, taker_unfilled) * maker_price <= u128::MAX
}

/// Base and quote amounts of a fill between two matched orders: the smaller
/// remaining size, priced at the maker's price.
pub fn calculate_fill_for_matched_orders(
    maker_base_asset_amount: u128,
    maker_price: u128,
    taker_base_asset_amount: u128,
) -> (r: Result<(u128, u128), ErrorCode>)
    ensures
        spec_fill_ok(maker_base_asset_amount as int, maker_price as int, taker_base_asset_amount as int)
            ==> r == Ok::<(u128, u128), ErrorCode>(
            (
                spec_fill_base(maker_base_asset_amount as int, taker_base_asset_amount as int) as u128,
                spec_fill_quote(
                    spec_fill_base(maker_base_asset_amount as int, taker_base_asset_amount as int),
                    maker_price as int,
                ) as u128,
            ),
        ),
        !spec_fill_ok(
            maker_base_asset_amount as int,
            maker_price as int,
            taker_base_asset_amount as int,
        ) ==> r == Err::<(u128, u128), ErrorCode>(ErrorCode::MathError),
{
    let base = if maker_base_asset_amount < taker_base_asset_amount {
        maker_base_asset_amount
    } else {
        taker_base_asset_amount
    };
    let product = match mul_u128(base, maker_price) {
        Ok(v) => v,
        Err(ec) => { return Err(ec); },
    };
    let quote = product / MARK_PRICE_TIMES_AMM_TO_QUOTE_PRECISION_RATIO;
    Ok((base, quote))
}

} // verus!
