//! Per-market positions and the position-update core of trade execution.
//!
//! `update_position_and_market` applies one signed fill to a position and to
//! the owning market's aggregate counters, distinguishing a position
//! increase, a reduction toward zero, and a flip through zero, and returns
//! the profit or loss realized against the prior cost basis.

use vstd::prelude::*;

use crate::errors::ErrorCode;
use crate::market::{Market, AMM};
use crate::math::{add_i128, add_u128, lemma_mul_div_le, mul_u128, sub_i128, u128_to_i128};

verus! {

/// Side of an order or a position.
#[derive(Clone, Copy, Debug, PartialEq, Eq, Structural)]
pub enum PositionDirection {
    Long,
    Short,
}

/// One user's position in one market. `base_asset_amount` is signed (long
/// positive, short negative); the quote amounts are cumulative; `open_bids`
/// and `open_asks` reserve the base exposure of the user's resting orders.
#[derive(Clone, Copy, Debug, PartialEq, Eq, Structural)]
pub struct MarketPosition {
    pub market_index: u64,
    pub base_asset_amount: i128,
    pub quote_asset_amount: u128,
    pub quote_entry_amount: u128,
    pub unsettled_pnl: i128,
    pub open_orders: u128,
    pub open_bids: i128,
    pub open_asks: i128,
}

impl MarketPosition {
    /// An empty position: every amount zero.
    pub open spec fn spec_default() -> MarketPosition {
        MarketPosition {
            market_index: 0,
            base_asset_amount: 0,
            quote_asset_amount: 0,
            quote_entry_amount: 0,
            unsettled_pnl: 0,
            open_orders: 0,
            open_bids: 0,
            open_asks: 0,
        }
    }
}

impl Default for MarketPosition {
    /// An empty position: every amount zero.
    fn default() -> (r: MarketPosition)
        ensures
            r == MarketPosition::spec_default(),
    {
        MarketPosition {
            market_index: 0,
            base_asset_amount: 0,
            quote_asset_amount: 0,
            quote_entry_amount: 0,
            unsettled_pnl: 0,
            open_orders: 0,
            open_bids: 0,
            open_asks: 0,
        }
    }
}

/// Absolute value.
pub open spec fn abs_int(x: int) -> int {
    if x < 0 {
        -x
    } else {
        x
    }
}

/// Magnitude of a signed amount, exact also for the smallest value.
pub fn abs_i128(x: i128) -> (r: u128)
    ensures
        r == abs_int(x as int),
{
    if x >= 0 {
        x as u128
    } else {
        ((-(x + 1)) as u128) + 1
    }
}

/// An optional index shifted by a constant offset.
pub open spec fn spec_shift_pos_index(o: Option<int>, k: int) -> Option<int> {
    match o {
        Some(j) => Some(j + k),
        None => None,
    }
}

/// Position of a market index inside a position sequence: the first element
/// whose `market_index` matches, if any.
pub open spec fn spec_find_position(positions: Seq<MarketPosition>, market_index: u64) -> Option<
    int,
>
    decreases positions.len(),
{
    if positions.len() == 0 {
        None
    } else if positions[0].market_index == market_index {
        Some(0)
    } else {
        spec_shift_pos_index(spec_find_position(positions.skip(1), market_index), 1)
    }
}

/// Stepping the search past a non-matching element keeps the result,
/// shifted by one.
proof fn lemma_find_position_step(positions: Seq<MarketPosition>, i: int, market_index: u64)
    requires
        0 <= i < positions.len(),
        positions[i].market_index != market_index,
    ensures
        spec_find_position(positions.skip(i), market_index) == spec_shift_pos_index(
            spec_find_position(positions.skip(i + 1), market_index),
            1,
        ),
{
    assert(positions.skip(i)[0] == positions[i]);
    assert(positions.skip(i).skip(1) =~= positions.skip(i + 1));
}

/// Index of the first position for the given market, if the user has one.
pub fn find_position_index(positions: &Vec<MarketPosition>, market_index: u64) -> (r: Option<
    usize,
>)
    ensures
        r is Some ==> {
            &&& spec_find_position(positions@, market_index) == Some(r->Some_0 as int)
            &&& r->Some_0 < positions@.len()
            &&& positions@[r->Some_0 as int].market_index == market_index
        },
        r is None ==> spec_find_position(positions@, market_index) is None,
{
    proof {
        assert(positions@.skip(0) =~= positions@);
    }
    let mut i: usize = 0;
    while i < positions.len()
        invariant
            i <= positions.len(),
            forall|x: int| 0 <= x < i ==> positions@[x].market_index != market_index,
            spec_find_position(positions@, market_index) == spec_shift_pos_index(
                spec_find_position(positions@.skip(i as int), market_index),
                i as int,
            ),
        decreases positions.len() - i,
    {
        if positions[i].market_index == market_index {
            proof {
                assert(positions@.skip(i as int)[0] == positions@[i as int]);
            }
            return Some(i);
        }
        proof {
            lemma_find_position_step(positions@, i as int, market_index);
        }
        i = i + 1;
    }
    proof {
        assert(positions@.skip(i as int).len() == 0);
    }
    None
}

/// A fill that does not shrink the position's magnitude: the position is
/// flat, or the fill has the position's own sign.
pub open spec fn spec_is_increase(b: int, d: int) -> bool {
    b == 0 || (b > 0 && d > 0) || (b < 0 && d < 0)
}

/// A fill against the position that is larger than the position itself, so
/// the position changes sign.
pub open spec fn spec_is_flip(b: int, d: int) -> bool {
    !spec_is_increase(b, d) && abs_int(d) > abs_int(b)
}

/// Part of the cost basis closed by a reduction: proportional to the closed
/// size, truncated toward zero.
pub open spec fn spec_entry_portion(e: int, d: int, b: int) -> int {
    e * abs_int(d) / abs_int(b)
}

/// Quote attributed to the closing part of a flip: proportional to the
/// closed size, truncated toward zero.
pub open spec fn spec_quote_closed(q: int, b: int, d: int) -> int {
    q * abs_int(b) / abs_int(d)
}

/// The position after a fill of signed base size `d` for quote amount `q`.
pub open spec fn spec_position_after_trade(p: MarketPosition, d: int, q: int) -> MarketPosition {
    let b = p.base_asset_amount as int;
    let e = p.quote_entry_amount as int;
    MarketPosition {
        base_asset_amount: (b + d) as i128,
        quote_asset_amount: (p.quote_asset_amount + q) as u128,
        quote_entry_amount: if spec_is_increase(b, d) {
            (e + q) as u128
        } else if spec_is_flip(b, d) {
            (q - spec_quote_closed(q, b, d)) as u128
        } else {
            (e - spec_entry_portion(e, d, b)) as u128
        },
        ..p
    }
}

/// Profit or loss realized by the fill against the prior cost basis: zero
/// for an increase; for a reduction, the difference between the quote
/// received and the closed cost basis, with the sign of the closed side.
pub open spec fn spec_trade_pnl(p: MarketPosition, d: int, q: int) -> int {
    let b = p.base_asset_amount as int;
    let e = p.quote_entry_amount as int;
    if spec_is_increase(b, d) {
        0
    } else if spec_is_flip(b, d) {
        if b > 0 {
            spec_quote_closed(q, b, d) - e
        } else {
            e - spec_quote_closed(q, b, d)
        }
    } else {
        if b > 0 {
            q - spec_entry_portion(e, d, b)
        } else {
            spec_entry_portion(e, d, b) - q
        }
    }
}

/// Which aggregate side of the market a non-flip fill belongs to.
pub open spec fn spec_position_side_long(b: int, d: int) -> bool {
    if b != 0 {
        b > 0
    } else {
        d > 0
    }
}

/// One market-side application: adds signed base and unsigned quote to the
/// long or the short aggregate counters.
pub open spec fn spec_market_apply_side(m: Market, side_long: bool, dbase: int, dquote: int) -> Market {
    if side_long {
        Market {
            base_asset_amount_long: (m.base_asset_amount_long + dbase) as i128,
            amm: AMM {
                quote_asset_amount_long: (m.amm.quote_asset_amount_long + dquote) as u128,
                ..m.amm
            },
            ..m
        }
    } else {
        Market {
            base_asset_amount_short: (m.base_asset_amount_short + dbase) as i128,
            amm: AMM {
                quote_asset_amount_short: (m.amm.quote_asset_amount_short + dquote) as u128,
                ..m.amm
            },
            ..m
        }
    }
}

/// The bounds under which one market-side application is exact.
pub open spec fn spec_market_apply_side_ok(m: Market, side_long: bool, dbase: int, dquote: int) -> bool {
    if side_long {
        &&& i128::MIN <= m.base_asset_amount_long + dbase <= i128::MAX
        &&& m.amm.quote_asset_amount_long + dquote <= u128::MAX
    } else {
        &&& i128::MIN <= m.base_asset_amount_short + dbase <= i128::MAX
        &&& m.amm.quote_asset_amount_short + dquote <= u128::MAX
    }
}

/// The market after one fill of signed base size `d` for quote `q` against
/// the position `p`: the long/short aggregates move with the fill (a flip
/// splits it into a closing and an opening leg) and the AMM's net base
/// exposure moves by `d`.
pub open spec fn spec_market_after_trade(m: Market, p: MarketPosition, d: int, q: int) -> Market {
    let b = p.base_asset_amount as int;
    let m1 = if spec_is_flip(b, d) {
        let qc = spec_quote_closed(q, b, d);
        let first = spec_market_apply_side(m, b > 0, -b, qc);
        spec_market_apply_side(first, d > 0, b + d, q - qc)
    } else {
        spec_market_apply_side(m, spec_position_side_long(b, d), d, q)
    };
    Market {
        amm: AMM {
            net_base_asset_amount: (m1.amm.net_base_asset_amount + d) as i128,
            ..m1.amm
        },
        ..m1
    }
}

/// The bounds under which the whole fill is exact: every intermediate value
/// fits its machine type. Outside them the update reports a math error and
/// changes nothing.
pub open spec fn spec_trade_ok(p: MarketPosition, m: Market, d: int, q: int) -> bool {
    let b = p.base_asset_amount as int;
    let e = p.quote_entry_amount as int;
    &&& i128::MIN <= b + d <= i128::MAX
    &&& p.quote_asset_amount + q <= u128::MAX
    &&& if spec_is_increase(b, d) {
        &&& e + q <= u128::MAX
        &&& spec_market_apply_side_ok(m, spec_position_side_long(b, d), d, q)
        &&& i128::MIN <= m.amm.net_base_asset_amount + d <= i128::MAX
    } else if spec_is_flip(b, d) {
        let qc = spec_quote_closed(q, b, d);
        let first = spec_market_apply_side(m, b > 0, -b, qc);
        &&& q * abs_int(b) <= u128::MAX
        &&& qc <= i128::MAX
        &&& e <= i128::MAX
        &&& spec_market_apply_side_ok(m, b > 0, -b, qc)
        &&& spec_market_apply_side_ok(first, d > 0, b + d, q - qc)
        &&& i128::MIN <= m.amm.net_base_asset_amount + d <= i128::MAX
    } else {
        &&& e * abs_int(d) <= u128::MAX
        &&& q <= i128::MAX
        &&& spec_entry_portion(e, d, b) <= i128::MAX
        &&& spec_market_apply_side_ok(m, spec_position_side_long(b, d), d, q)
        &&& i128::MIN <= m.amm.net_base_asset_amount + d <= i128::MAX
    }
}

/// Applies one fill to a position and to the market's aggregates, returning
/// the realized profit or loss. Everything is computed first and committed
/// as one unit: on a math error neither the position nor the market changes.
#[verifier::rlimit(100)]
pub fn update_position_and_market(
    position: &mut MarketPosition,
    market: &mut Market,
    delta_base: i128,
    delta_quote: u128,
) -> (r: Result<i128, ErrorCode>)
    requires
        delta_base != 0,
    ensures
        spec_trade_ok(*old(position), *old(market), delta_base as int, delta_quote as int) ==> {
            &&& r == Ok::<i128, ErrorCode>(
                spec_trade_pnl(*old(position), delta_base as int, delta_quote as int) as i128,
            )
            &&& *final(position) == spec_position_after_trade(
                *old(position),
                delta_base as int,
                delta_quote as int,
            )
            &&& *final(market) == spec_market_after_trade(
                *old(market),
                *old(position),
                delta_base as int,
                delta_quote as int,
            )
        },
        !spec_trade_ok(*old(position), *old(market), delta_base as int, delta_quote as int) ==> {
            &&& r == Err::<i128, ErrorCode>(ErrorCode::MathError)
            &&& *final(position) == *old(position)
            &&& *final(market) == *old(market)
        },
{
    let b = position.base_asset_amount;
    let e = position.quote_entry_amount;
    let q = delta_quote;

    let increase = b == 0 || (b > 0 && delta_base > 0) || (b < 0 && delta_base < 0);
    let ab = abs_i128(b);
    let ad = abs_i128(delta_base);
    let flip = !increase && ad > ab;

    // Position fields.
    let new_base = match add_i128(b, delta_base) {
        Ok(v) => v,
        Err(ec) => { return Err(ec); },
    };
    let new_quote_asset = match add_u128(position.quote_asset_amount, q) {
        Ok(v) => v,
        Err(ec) => { return Err(ec); },
    };

    let new_entry: u128;
    let pnl: i128;
    if increase {
        new_entry = match add_u128(e, q) {
            Ok(v) => v,
            Err(ec) => { return Err(ec); },
        };
        pnl = 0;
    } else if flip {
        let num = match mul_u128(q, ab) {
            Ok(v) => v,
            Err(ec) => { return Err(ec); },
        };
        let qc = num / ad;
        proof {
            lemma_mul_div_le(q as int, abs_int(b as int), abs_int(delta_base as int));
        }
        new_entry = q - qc;
        let qc_i = match u128_to_i128(qc) {
            Ok(v) => v,
            Err(ec) => { return Err(ec); },
        };
        let e_i = match u128_to_i128(e) {
            Ok(v) => v,
            Err(ec) => { return Err(ec); },
        };
        pnl = if b > 0 {
            qc_i - e_i
        } else {
            e_i - qc_i
        };
    } else {
        let num = match mul_u128(e, ad) {
            Ok(v) => v,
            Err(ec) => { return Err(ec); },
        };
        let portion = num / ab;
        proof {
            lemma_mul_div_le(e as int, abs_int(delta_base as int), abs_int(b as int));
        }
        new_entry = e - portion;
        let q_i = match u128_to_i128(q) {
            Ok(v) => v,
            Err(ec) => { return Err(ec); },
        };
        let portion_i = match u128_to_i128(portion) {
            Ok(v) => v,
            Err(ec) => { return Err(ec); },
        };
        pnl = if b > 0 {
            q_i - portion_i
        } else {
            portion_i - q_i
        };
    }

    // Market aggregates.
    let mut m = *market;
    if flip {
        let num = match mul_u128(q, ab) {
            Ok(v) => v,
            Err(ec) => { return Err(ec); },
        };
        let qc = num / ad;
        proof {
            lemma_mul_div_le(q as int, abs_int(b as int), abs_int(delta_base as int));
        }
        if b > 0 {
            m.base_asset_amount_long = match sub_i128(m.base_asset_amount_long, b) {
                Ok(v) => v,
                Err(ec) => { return Err(ec); },
            };
            m.amm.quote_asset_amount_long = match add_u128(m.amm.quote_asset_amount_long, qc) {
                Ok(v) => v,
                Err(ec) => { return Err(ec); },
            };
            m.base_asset_amount_short = match add_i128(m.base_asset_amount_short, new_base) {
                Ok(v) => v,
                Err(ec) => { return Err(ec); },
            };
            m.amm.quote_asset_amount_short = match add_u128(m.amm.quote_asset_amount_short, q - qc) {
                Ok(v) => v,
                Err(ec) => { return Err(ec); },
            };
        } else {
            m.base_asset_amount_short = match sub_i128(m.base_asset_amount_short, b) {
                Ok(v) => v,
                Err(ec) => { return Err(ec); },
            };
            m.amm.quote_asset_amount_short = match add_u128(m.amm.quote_asset_amount_short, qc) {
                Ok(v) => v,
                Err(ec) => { return Err(ec); },
            };
            m.base_asset_amount_long = match add_i128(m.base_asset_amount_long, new_base) {
                Ok(v) => v,
                Err(ec) => { return Err(ec); },
            };
            m.amm.quote_asset_amount_long = match add_u128(m.amm.quote_asset_amount_long, q - qc) {
                Ok(v) => v,
                Err(ec) => { return Err(ec); },
            };
        }
    } else {
        let side_long = if b != 0 {
            b > 0
        } else {
            delta_base > 0
        };
        if side_long {
            m.base_asset_amount_long = match add_i128(m.base_asset_amount_long, delta_base) {
                Ok(v) => v,
                Err(ec) => { return Err(ec); },
            };
            m.amm.quote_asset_amount_long = match add_u128(m.amm.quote_asset_amount_long, q) {
                Ok(v) => v,
                Err(ec) => { return Err(ec); },
            };
        } else {
            m.base_asset_amount_short = match add_i128(m.base_asset_amount_short, delta_base) {
                Ok(v) => v,
                Err(ec) => { return Err(ec); },
            };
            m.amm.quote_asset_amount_short = match add_u128(m.amm.quote_asset_amount_short, q) {
                Ok(v) => v,
                Err(ec) => { return Err(ec); },
            };
        }
    }
    m.amm.net_base_asset_amount = match add_i128(m.amm.net_base_asset_amount, delta_base) {
        Ok(v) => v,
        Err(ec) => { return Err(ec); },
    };

    // Commit.
    position.base_asset_amount = new_base;
    position.quote_asset_amount = new_quote_asset;
    position.quote_entry_amount = new_entry;
    *market = m;
    Ok(pnl)
}

/// Books realized or fee-driven profit and loss: moves the position's
/// unsettled total and the market's aggregate profit or loss pool.
pub open spec fn spec_market_after_pnl(m: Market, pnl: int) -> Market {
    if pnl > 0 {
        Market { unsettled_profit: (m.unsettled_profit + pnl) as u128, ..m }
    } else if pnl < 0 {
        Market { unsettled_loss: (m.unsettled_loss - pnl) as u128, ..m }
    } else {
        m
    }
}

/// The bounds under which booking the profit or loss is exact.
pub open spec fn spec_pnl_ok(p: MarketPosition, m: Market, pnl: int) -> bool {
    &&& i128::MIN <= p.unsettled_pnl + pnl <= i128::MAX
    &&& (pnl > 0 ==> m.unsettled_profit + pnl <= u128::MAX)
    &&& (pnl < 0 ==> m.unsettled_loss - pnl <= u128::MAX)
}

/// Adds a profit or loss to the position's unsettled total and to the
/// market's aggregate unsettled-profit or unsettled-loss pool.
pub fn update_unsettled_pnl(
    position: &mut MarketPosition,
    market: &mut Market,
    pnl: i128,
) -> (r: Result<(), ErrorCode>)
    ensures
        spec_pnl_ok(*old(position), *old(market), pnl as int) ==> {
            &&& r == Ok::<(), ErrorCode>(())
            &&& *final(position) == MarketPosition {
                unsettled_pnl: (old(position).unsettled_pnl + pnl) as i128,
                ..*old(position)
            }
            &&& *final(market) == spec_market_after_pnl(*old(market), pnl as int)
        },
        !spec_pnl_ok(*old(position), *old(market), pnl as int) ==> {
            &&& r == Err::<(), ErrorCode>(ErrorCode::MathError)
            &&& *final(position) == *old(position)
            &&& *final(market) == *old(market)
        },
{
    let new_unsettled = match add_i128(position.unsettled_pnl, pnl) {
        Ok(v) => v,
        Err(ec) => { return Err(ec); },
    };
    if pnl > 0 {
        let new_profit = match add_u128(market.unsettled_profit, pnl as u128) {
            Ok(v) => v,
            Err(ec) => { return Err(ec); },
        };
        market.unsettled_profit = new_profit;
    } else if pnl < 0 {
        let mag = abs_i128(pnl);
        let new_loss = match add_u128(market.unsettled_loss, mag) {
            Ok(v) => v,
            Err(ec) => { return Err(ec); },
        };
        market.unsettled_loss = new_loss;
    }
    position.unsettled_pnl = new_unsettled;
    Ok(())
}

/// The position after releasing `filled` base of reserved order exposure:
/// a long-side fill lowers `open_bids`, a short-side fill raises
/// `open_asks` toward zero.
pub open spec fn spec_position_after_release(
    p: MarketPosition,
    direction: PositionDirection,
    filled: int,
) -> MarketPosition {
    match direction {
        PositionDirection::Long => MarketPosition { open_bids: (p.open_bids - filled) as i128, ..p },
        PositionDirection::Short => MarketPosition { open_asks: (p.open_asks + filled) as i128, ..p },
    }
}

/// The bounds under which the release is exact.
pub open spec fn spec_release_ok(p: MarketPosition, direction: PositionDirection, filled: int) -> bool {
    &&& filled <= i128::MAX
    &&& match direction {
        PositionDirection::Long => i128::MIN <= p.open_bids - filled <= i128::MAX,
        PositionDirection::Short => i128::MIN <= p.open_asks + filled <= i128::MAX,
    }
}

/// Order-closure invariant: when a fill consumes an order's whole remaining
/// size, releasing it takes the owning position's reservation on that side
/// exactly to zero, provided the reservation carried exactly that order.
pub proof fn lemma_full_fill_zeroes_reservation(
    p: MarketPosition,
    direction: PositionDirection,
    remaining: int,
)
    requires
        match direction {
            PositionDirection::Long => p.open_bids == remaining,
            PositionDirection::Short => p.open_asks == -remaining,
        },
        0 <= remaining <= i128::MAX,
    ensures
        match direction {
            PositionDirection::Long => spec_position_after_release(
                p,
                direction,
                remaining,
            ).open_bids == 0,
            PositionDirection::Short => spec_position_after_release(
                p,
                direction,
                remaining,
            ).open_asks == 0,
        },
{
}

/// Releases filled base from the position's outstanding bid or ask
/// reservation.
pub fn decrease_open_bids_and_asks(
    position: &mut MarketPosition,
    direction: PositionDirection,
    filled: u128,
) -> (r: Result<(), ErrorCode>)
    ensures
        spec_release_ok(*old(position), direction, filled as int) ==> {
            &&& r == Ok::<(), ErrorCode>(())
            &&& *final(position) == spec_position_after_release(
                *old(position),
                direction,
                filled as int,
            )
        },
        !spec_release_ok(*old(position), direction, filled as int) ==> {
            &&& r == Err::<(), ErrorCode>(ErrorCode::MathError)
            &&& *final(position) == *old(position)
        },
{
    match direction {
        PositionDirection::Long => {
            let filled_i = match u128_to_i128(filled) {
                Ok(v) => v,
                Err(ec) => { return Err(ec); },
            };
            let new_bids = match sub_i128(position.open_bids, filled_i) {
                Ok(v) => v,
                Err(ec) => { return Err(ec); },
            };
            position.open_bids = new_bids;
            Ok(())
        },
        PositionDirection::Short => {
            let filled_i = match u128_to_i128(filled) {
                Ok(v) => v,
                Err(ec) => { return Err(ec); },
            };
            let new_asks = match add_i128(position.open_asks, filled_i) {
                Ok(v) => v,
                Err(ec) => { return Err(ec); },
            };
            position.open_asks = new_asks;
            Ok(())
        },
    }
}

} // verus!
