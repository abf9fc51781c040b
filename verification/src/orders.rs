//! The fulfillment engine: matching a taker against a resting maker,
//! filling the remainder against the AMM, and the orchestrating entry point
//! with its post-trade margin guard and rollback.

use vstd::prelude::*;

use solana_program::pubkey::Pubkey;

use crate::amm::{
    calculate_price, spec_amm_after_swap, spec_reserve_price, spec_reserve_price_ok, spec_swap_ok, spec_swap_quote,
    spec_swap_surplus, swap_base_asset, SwapDirection,
};
use crate::bank::BankMap;
use crate::fulfillment::{auction_complete_slot, spec_auction_complete_slot};
use crate::margin::{meets_initial_margin_requirement, spec_margin_evaluation};
use crate::auction::{get_limit_price, spec_limit_price, spec_limit_price_ok};
use crate::errors::ErrorCode;
use crate::fees::{
    calculate_fee_for_order, spec_fee_ok, spec_maker_rebate, spec_taker_fee, FeeStructure,
};
use crate::keys::clone_pubkey;
use crate::market::{lemma_find_market_update, spec_find_market, Market, MarketMap};
use crate::matching::{
    are_orders_same_market_but_different_sides, calculate_fill_for_matched_orders,
    do_orders_cross, spec_fill_base, spec_fill_quote, spec_orders_cross,
    spec_same_market_but_different_sides,
};
use crate::math::{
    add_i128, add_i64, add_u128, add_u64, mul_u128, sub_i128, u128_to_i128, u128_to_i64,
    u128_to_u64,
};
use crate::oracle::OracleMap;
use crate::position::{
    decrease_open_bids_and_asks, find_position_index, spec_find_position, spec_market_after_pnl,
    spec_market_after_trade, spec_pnl_ok, spec_position_after_release, spec_position_after_trade,
    spec_release_ok, spec_trade_ok, spec_trade_pnl, update_position_and_market,
    update_unsettled_pnl, MarketPosition, PositionDirection,
};
use crate::records::OrderRecord;
use crate::user::{snapshot_user, Order, OrderStatus, OrderType, User};

verus! {

/// A maker is eligible against a taker when the orders share a market, take
/// opposite sides, and the maker only adds liquidity.
pub open spec fn spec_match_eligible(maker_order: Order, taker_order: Order) -> bool {
    &&& spec_same_market_but_different_sides(maker_order, taker_order)
    &&& maker_order.post_only
}

/// A base size signed with the side of the order that trades it.
pub open spec fn spec_signed_base(direction: PositionDirection, size: int) -> int {
    match direction {
        PositionDirection::Long => size,
        PositionDirection::Short => -size,
    }
}

/// What one matched fill does to the market and to the two positions, before
/// order bookkeeping: the taker's leg is applied first, then the maker's,
/// then each side's profit and loss (the realized amount, minus the taker's
/// fee or plus the maker's rebate). Returns the market and the two positions.
pub open spec fn spec_match_legs(
    mkt0: Market,
    tp0: MarketPosition,
    mp0: MarketPosition,
    dt: int,
    q: int,
    tf: int,
    mr: int,
) -> (Market, MarketPosition, MarketPosition) {
    let p1t = spec_position_after_trade(tp0, dt, q);
    let mk1 = spec_market_after_trade(mkt0, tp0, dt, q);
    let p1m = spec_position_after_trade(mp0, -dt, q);
    let mk2 = spec_market_after_trade(mk1, mp0, -dt, q);
    let pnl_t = spec_trade_pnl(tp0, dt, q) - tf;
    let pnl_m = spec_trade_pnl(mp0, -dt, q) + mr;
    let p2t = MarketPosition { unsettled_pnl: (p1t.unsettled_pnl + pnl_t) as i128, ..p1t };
    let mk3 = spec_market_after_pnl(mk2, pnl_t);
    let p2m = MarketPosition { unsettled_pnl: (p1m.unsettled_pnl + pnl_m) as i128, ..p1m };
    let mk4 = spec_market_after_pnl(mk3, pnl_m);
    (mk4, p2t, p2m)
}

/// A position after releasing the filled reservation and, when the order
/// closed, giving back one open-order slot.
pub open spec fn spec_final_position(
    p: MarketPosition,
    direction: PositionDirection,
    size: int,
    closed: bool,
) -> MarketPosition {
    let released = spec_position_after_release(p, direction, size);
    if closed {
        MarketPosition { open_orders: (released.open_orders - 1) as u128, ..released }
    } else {
        released
    }
}

/// An order after a fill of `size` base for `q` quote: fully consumed, it
/// resets to the canonical empty order; otherwise its filled totals grow.
pub open spec fn spec_order_after_fill(o: Order, size: int, q: int) -> Order {
    if o.spec_unfilled() == size {
        Order::spec_default()
    } else {
        Order {
            base_asset_amount_filled: (o.base_asset_amount_filled + size) as u128,
            quote_asset_amount_filled: (o.quote_asset_amount_filled + q) as u128,
            ..o
        }
    }
}

/// A market with one leg's net fee revenue accrued to all three fee pools.
pub open spec fn spec_market_add_fees(m: Market, fee: int) -> Market {
    Market {
        amm: crate::market::AMM {
            total_fee: (m.amm.total_fee + fee) as u128,
            total_fee_minus_distributions: (m.amm.total_fee_minus_distributions + fee) as i128,
            net_revenue_since_last_funding: (m.amm.net_revenue_since_last_funding + fee) as i64,
            ..m.amm
        },
        ..m
    }
}

/// The bounds under which everything a matched fill commits is exact.
/// Outside them the fill reports a math error and commits nothing.
#[verifier::opaque]
pub open spec fn spec_match_fill_ok(
    mkt0: Market,
    t0: User,
    m0: User,
    ti: int,
    mi: int,
    fs: FeeStructure,
    slot: u64,
) -> bool {
    let t = t0.orders@[ti];
    let m = m0.orders@[mi];
    let s = spec_fill_base(m.spec_unfilled(), t.spec_unfilled());
    let q = spec_fill_quote(s, spec_limit_price(m, slot));
    let tf = spec_taker_fee(q, fs);
    let mr = spec_maker_rebate(q, fs);
    let ftm = tf - mr;
    let tpi = spec_find_position(t0.positions@, t.market_index)->Some_0;
    let mpi = spec_find_position(m0.positions@, t.market_index)->Some_0;
    let tp0 = t0.positions@[tpi];
    let mp0 = m0.positions@[mpi];
    let dt = spec_signed_base(t.direction, s);
    let p1t = spec_position_after_trade(tp0, dt, q);
    let mk1 = spec_market_after_trade(mkt0, tp0, dt, q);
    let p1m = spec_position_after_trade(mp0, -dt, q);
    let mk2 = spec_market_after_trade(mk1, mp0, -dt, q);
    let pnl_t = spec_trade_pnl(tp0, dt, q) - tf;
    let pnl_m = spec_trade_pnl(mp0, -dt, q) + mr;
    let mk3 = spec_market_after_pnl(mk2, pnl_t);
    let legs = spec_match_legs(mkt0, tp0, mp0, dt, q, tf, mr);
    let mk4 = legs.0;
    let p2t = legs.1;
    let p2m = legs.2;
    let t_closed = t.spec_unfilled() == s;
    let m_closed = m.spec_unfilled() == s;
    &&& spec_fee_ok(q, fs)
    &&& s <= i128::MAX
    &&& spec_trade_ok(tp0, mkt0, dt, q)
    &&& spec_trade_ok(mp0, mk1, -dt, q)
    &&& tf <= i128::MAX
    &&& i128::MIN <= spec_trade_pnl(tp0, dt, q) - tf <= i128::MAX
    &&& spec_pnl_ok(p1t, mk2, pnl_t)
    &&& mr <= i128::MAX
    &&& i128::MIN <= spec_trade_pnl(mp0, -dt, q) + mr <= i128::MAX
    &&& spec_pnl_ok(p1m, mk3, pnl_m)
    &&& tf <= u64::MAX
    &&& t0.fees.total_fee_paid + tf <= u64::MAX
    &&& mr <= u64::MAX
    &&& m0.fees.total_fee_rebate + mr <= u64::MAX
    &&& mk4.amm.total_fee + ftm <= u128::MAX
    &&& ftm <= i128::MAX
    &&& i128::MIN <= mk4.amm.total_fee_minus_distributions + ftm <= i128::MAX
    &&& ftm <= i64::MAX
    &&& i64::MIN <= mk4.amm.net_revenue_since_last_funding + ftm <= i64::MAX
    &&& t.quote_asset_amount_filled + q <= u128::MAX
    &&& m.quote_asset_amount_filled + q <= u128::MAX
    &&& spec_release_ok(p2t, t.direction, s)
    &&& spec_release_ok(p2m, m.direction, s)
    &&& (t_closed ==> spec_position_after_release(p2t, t.direction, s).open_orders >= 1)
    &&& (m_closed ==> spec_position_after_release(p2m, m.direction, s).open_orders >= 1)
}

/// How a matched fill resolves: no trade (an ineligible or non-crossing pair
/// or a zero size — a benign no-op), a surfaced fault, or a fill.
pub enum MatchOutcome {
    NoTrade,
    Fault(ErrorCode),
    Fill,
}

/// The resolution of one match attempt, mirroring the decision order of the
/// fill: eligibility, prices, order well-formedness, crossing, size, the
/// position records, and the arithmetic bounds.
pub open spec fn spec_match_outcome(
    mkt0: Market,
    t0: User,
    m0: User,
    ti: int,
    mi: int,
    fs: FeeStructure,
    slot: u64,
) -> MatchOutcome {
    let t = t0.orders@[ti];
    let m = m0.orders@[mi];
    if !spec_match_eligible(m, t) {
        MatchOutcome::NoTrade
    } else if !spec_limit_price_ok(t, slot) || !spec_limit_price_ok(m, slot) {
        MatchOutcome::Fault(ErrorCode::MathError)
    } else if !t.is_well_formed() || !m.is_well_formed() {
        MatchOutcome::Fault(ErrorCode::MathError)
    } else if !spec_orders_cross(m.direction, spec_limit_price(m, slot), spec_limit_price(t, slot)) {
        MatchOutcome::NoTrade
    } else if spec_fill_base(m.spec_unfilled(), t.spec_unfilled()) * spec_limit_price(m, slot)
        > u128::MAX {
        MatchOutcome::Fault(ErrorCode::MathError)
    } else if spec_fill_base(m.spec_unfilled(), t.spec_unfilled()) == 0 {
        MatchOutcome::NoTrade
    } else if spec_find_position(t0.positions@, t.market_index) is None || spec_find_position(
        m0.positions@,
        t.market_index,
    ) is None {
        MatchOutcome::Fault(ErrorCode::NoPositionInMarket)
    } else if !spec_match_fill_ok(mkt0, t0, m0, ti, mi, fs, slot) {
        MatchOutcome::Fault(ErrorCode::MathError)
    } else {
        MatchOutcome::Fill
    }
}

/// Fills a taker order against a resting maker order.
///
/// An ineligible pair, a non-crossing pair, and a zero size are benign
/// no-trade outcomes: the call returns a zero fill and changes nothing. A
/// fill commits as one unit — both positions, both orders, both users' fee
/// totals, the market's aggregates, and one appended record — and returns
/// the base and quote amounts traded. On any fault nothing is changed.
///
/// Conservation: the two legs offset exactly, so the fill moves the sum of
/// the market's long and short exposure and the AMM's net position by zero.
/// Fee identity: the market accrues exactly the taker fee minus the maker
/// rebate. Order closure: an order whose remaining size the fill consumes is
/// reset to the canonical empty order.
#[verifier::rlimit(100)]
pub fn fulfill_order_with_match(
    market: &mut Market,
    taker: &mut User,
    taker_order_index: usize,
    taker_key: &Pubkey,
    maker: &mut User,
    maker_order_index: usize,
    maker_key: &Pubkey,
    filler: &mut Option<User>,
    filler_key: &Pubkey,
    now: i64,
    slot: u64,
    fee_structure: &FeeStructure,
    oracle_map: &mut OracleMap,
    order_records: &mut Vec<OrderRecord>,
) -> (r: Result<(u128, u128), ErrorCode>)
    requires
        taker_order_index < old(taker).orders.len(),
        maker_order_index < old(maker).orders.len(),
    ensures
        spec_match_outcome(
            *old(market),
            *old(taker),
            *old(maker),
            taker_order_index as int,
            maker_order_index as int,
            *fee_structure,
            slot,
        ) is NoTrade ==> {
            &&& r == Ok::<(u128, u128), ErrorCode>((0, 0))
            &&& *final(market) == *old(market)
            &&& final(taker).spec_eq(*old(taker))
            &&& final(maker).spec_eq(*old(maker))
            &&& final(order_records)@ == old(order_records)@
        },
        spec_match_outcome(
            *old(market),
            *old(taker),
            *old(maker),
            taker_order_index as int,
            maker_order_index as int,
            *fee_structure,
            slot,
        ) is Fault ==> {
            &&& r == Err::<(u128, u128), ErrorCode>(
                spec_match_outcome(
                    *old(market),
                    *old(taker),
                    *old(maker),
                    taker_order_index as int,
                    maker_order_index as int,
                    *fee_structure,
                    slot,
                )->Fault_0,
            )
            &&& *final(market) == *old(market)
            &&& final(taker).spec_eq(*old(taker))
            &&& final(maker).spec_eq(*old(maker))
            &&& final(order_records)@ == old(order_records)@
        },
        spec_match_outcome(
            *old(market),
            *old(taker),
            *old(maker),
            taker_order_index as int,
            maker_order_index as int,
            *fee_structure,
            slot,
        ) is Fill ==> ({
            let t = old(taker).orders@[taker_order_index as int];
            let m = old(maker).orders@[maker_order_index as int];
            let s = spec_fill_base(m.spec_unfilled(), t.spec_unfilled());
            let q = spec_fill_quote(s, spec_limit_price(m, slot));
            let tf = spec_taker_fee(q, *fee_structure);
            let mr = spec_maker_rebate(q, *fee_structure);
            let ftm = tf - mr;
            let tpi = spec_find_position(old(taker).positions@, t.market_index)->Some_0;
            let mpi = spec_find_position(old(maker).positions@, t.market_index)->Some_0;
            let tp0 = old(taker).positions@[tpi];
            let mp0 = old(maker).positions@[mpi];
            let dt = spec_signed_base(t.direction, s);
            let legs = spec_match_legs(*old(market), tp0, mp0, dt, q, tf, mr);
            let t_closed = t.spec_unfilled() == s;
            let m_closed = m.spec_unfilled() == s;
            &&& r == Ok::<(u128, u128), ErrorCode>((s as u128, q as u128))
            &&& *final(market) == spec_market_add_fees(legs.0, ftm)
            &&& final(taker).orders@ == old(taker).orders@.update(
                taker_order_index as int,
                spec_order_after_fill(t, s, q),
            )
            &&& final(taker).positions@ == old(taker).positions@.update(
                tpi,
                spec_final_position(legs.1, t.direction, s, t_closed),
            )
            &&& final(taker).bank_balances@ == old(taker).bank_balances@
            &&& final(taker).fees == crate::user::UserFees {
                total_fee_paid: (old(taker).fees.total_fee_paid + tf) as u64,
                ..old(taker).fees
            }
            &&& final(maker).orders@ == old(maker).orders@.update(
                maker_order_index as int,
                spec_order_after_fill(m, s, q),
            )
            &&& final(maker).positions@ == old(maker).positions@.update(
                mpi,
                spec_final_position(legs.2, m.direction, s, m_closed),
            )
            &&& final(maker).bank_balances@ == old(maker).bank_balances@
            &&& final(maker).fees == crate::user::UserFees {
                total_fee_rebate: (old(maker).fees.total_fee_rebate + mr) as u64,
                ..old(maker).fees
            }
            &&& final(order_records)@ == old(order_records)@.push(
                OrderRecord {
                    ts: now,
                    slot: slot,
                    market_index: t.market_index,
                    base_asset_amount: s as u128,
                    quote_asset_amount: q as u128,
                    taker_fee: tf as u128,
                    maker_rebate: mr as u128,
                    fee_to_market: ftm as u128,
                    taker: *taker_key,
                    maker: Some(*maker_key),
                    filler: *filler_key,
                },
            )
            // Conservation: the two legs offset exactly.
            &&& final(market).base_asset_amount_long + final(market).base_asset_amount_short
                == old(market).base_asset_amount_long + old(market).base_asset_amount_short
            &&& final(market).amm.net_base_asset_amount == old(market).amm.net_base_asset_amount
            // Fee identity: the market accrues the taker fee minus the rebate.
            &&& final(market).amm.total_fee == old(market).amm.total_fee + tf - mr
        }),
        *final(filler) == *old(filler),
        *final(oracle_map) == *old(oracle_map),
{
    let t = taker.orders[taker_order_index];
    let m = maker.orders[maker_order_index];
    let ghost oc = spec_match_outcome(
        *old(market),
        *old(taker),
        *old(maker),
        taker_order_index as int,
        maker_order_index as int,
        *fee_structure,
        slot,
    );

    // Eligibility: same market, opposite sides, maker adds liquidity only.
    if !(are_orders_same_market_but_different_sides(&m, &t) && m.post_only) {
        proof {
            assert(oc is NoTrade);
        }
        return Ok((0, 0));
    }

    // Prices.
    let taker_price = match get_limit_price(&t, slot) {
        Ok(v) => v,
        Err(ec) => {
            proof {
                assert(oc == MatchOutcome::Fault(ErrorCode::MathError));
            }
            return Err(ec);
        },
    };
    let maker_price = match get_limit_price(&m, slot) {
        Ok(v) => v,
        Err(ec) => {
            proof {
                assert(oc == MatchOutcome::Fault(ErrorCode::MathError));
            }
            return Err(ec);
        },
    };

    // Remaining sizes.
    let taker_unfilled = match t.get_base_asset_amount_unfilled() {
        Ok(v) => v,
        Err(ec) => {
            proof {
                assert(oc == MatchOutcome::Fault(ErrorCode::MathError));
            }
            return Err(ec);
        },
    };
    let maker_unfilled = match m.get_base_asset_amount_unfilled() {
        Ok(v) => v,
        Err(ec) => {
            proof {
                assert(oc == MatchOutcome::Fault(ErrorCode::MathError));
            }
            return Err(ec);
        },
    };

    // Crossing.
    if !do_orders_cross(m.direction, maker_price, taker_price) {
        proof {
            assert(oc is NoTrade);
        }
        return Ok((0, 0));
    }

    // Fill size and quote amount, at the maker's price.
    let (base_filled, quote_filled) = match calculate_fill_for_matched_orders(
        maker_unfilled,
        maker_price,
        taker_unfilled,
    ) {
        Ok(v) => v,
        Err(ec) => {
            proof {
                assert(oc == MatchOutcome::Fault(ErrorCode::MathError));
            }
            return Err(ec);
        },
    };
    if base_filled == 0 {
        proof {
            assert(oc is NoTrade);
        }
        return Ok((0, 0));
    }

    // The fill itself, staged and committed as one unit.
    let result = apply_match_fill(
        market,
        taker,
        taker_order_index,
        taker_key,
        maker,
        maker_order_index,
        maker_key,
        filler_key,
        now,
        slot,
        fee_structure,
        order_records,
        base_filled,
        quote_filled,
        taker_unfilled,
        maker_unfilled,
    );
    proof {
        reveal(spec_match_fill_ok);
        match result {
            Ok(_) => {
                assert(oc is Fill);
            },
            Err(e) => {
                assert(oc == MatchOutcome::Fault(e));
            },
        }
    }
    result
}

/// The committed part of a matched fill, entered once the pair is eligible,
/// crossing, and of positive size: settles both positions, both orders, the
/// fee totals and the market aggregates, and appends one record, all as one
/// unit. On a missing position record or a math fault nothing is changed.
#[verifier::rlimit(100)]
fn apply_match_fill(
    market: &mut Market,
    taker: &mut User,
    taker_order_index: usize,
    taker_key: &Pubkey,
    maker: &mut User,
    maker_order_index: usize,
    maker_key: &Pubkey,
    filler_key: &Pubkey,
    now: i64,
    slot: u64,
    fee_structure: &FeeStructure,
    order_records: &mut Vec<OrderRecord>,
    base_filled: u128,
    quote_filled: u128,
    taker_unfilled: u128,
    maker_unfilled: u128,
) -> (r: Result<(u128, u128), ErrorCode>)
    requires
        taker_order_index < old(taker).orders.len(),
        maker_order_index < old(maker).orders.len(),
        ({
            let t = old(taker).orders@[taker_order_index as int];
            let m = old(maker).orders@[maker_order_index as int];
            &&& spec_match_eligible(m, t)
            &&& t.is_well_formed()
            &&& m.is_well_formed()
            &&& spec_limit_price_ok(t, slot)
            &&& spec_limit_price_ok(m, slot)
            &&& 0 <= spec_limit_price(m, slot) <= u128::MAX
            &&& base_filled == spec_fill_base(m.spec_unfilled(), t.spec_unfilled())
            &&& base_filled > 0
            &&& quote_filled == spec_fill_quote(
                spec_fill_base(m.spec_unfilled(), t.spec_unfilled()),
                spec_limit_price(m, slot),
            )
            &&& taker_unfilled == t.spec_unfilled()
            &&& maker_unfilled == m.spec_unfilled()
        }),
    ensures
        ({
            let t = old(taker).orders@[taker_order_index as int];
            let m = old(maker).orders@[maker_order_index as int];
            spec_find_position(old(taker).positions@, t.market_index) is None
                || spec_find_position(old(maker).positions@, t.market_index) is None
        }) ==> {
            &&& r == Err::<(u128, u128), ErrorCode>(ErrorCode::NoPositionInMarket)
            &&& *final(market) == *old(market)
            &&& final(taker).spec_eq(*old(taker))
            &&& final(maker).spec_eq(*old(maker))
            &&& final(order_records)@ == old(order_records)@
        },
        ({
            let t = old(taker).orders@[taker_order_index as int];
            let m = old(maker).orders@[maker_order_index as int];
            &&& spec_find_position(old(taker).positions@, t.market_index) is Some
            &&& spec_find_position(old(maker).positions@, t.market_index) is Some
            &&& !spec_match_fill_ok(
                *old(market),
                *old(taker),
                *old(maker),
                taker_order_index as int,
                maker_order_index as int,
                *fee_structure,
                slot,
            )
        }) ==> {
            &&& r == Err::<(u128, u128), ErrorCode>(ErrorCode::MathError)
            &&& *final(market) == *old(market)
            &&& final(taker).spec_eq(*old(taker))
            &&& final(maker).spec_eq(*old(maker))
            &&& final(order_records)@ == old(order_records)@
        },
        ({
            let t = old(taker).orders@[taker_order_index as int];
            let m = old(maker).orders@[maker_order_index as int];
            &&& spec_find_position(old(taker).positions@, t.market_index) is Some
            &&& spec_find_position(old(maker).positions@, t.market_index) is Some
            &&& spec_match_fill_ok(
                *old(market),
                *old(taker),
                *old(maker),
                taker_order_index as int,
                maker_order_index as int,
                *fee_structure,
                slot,
            )
        }) ==> ({
            let t = old(taker).orders@[taker_order_index as int];
            let m = old(maker).orders@[maker_order_index as int];
            let s = spec_fill_base(m.spec_unfilled(), t.spec_unfilled());
            let q = spec_fill_quote(s, spec_limit_price(m, slot));
            let tf = spec_taker_fee(q, *fee_structure);
            let mr = spec_maker_rebate(q, *fee_structure);
            let ftm = tf - mr;
            let tpi = spec_find_position(old(taker).positions@, t.market_index)->Some_0;
            let mpi = spec_find_position(old(maker).positions@, t.market_index)->Some_0;
            let tp0 = old(taker).positions@[tpi];
            let mp0 = old(maker).positions@[mpi];
            let dt = spec_signed_base(t.direction, s);
            let legs = spec_match_legs(*old(market), tp0, mp0, dt, q, tf, mr);
            let t_closed = t.spec_unfilled() == s;
            let m_closed = m.spec_unfilled() == s;
            &&& r == Ok::<(u128, u128), ErrorCode>((s as u128, q as u128))
            &&& *final(market) == spec_market_add_fees(legs.0, ftm)
            &&& final(taker).orders@ == old(taker).orders@.update(
                taker_order_index as int,
                spec_order_after_fill(t, s, q),
            )
            &&& final(taker).positions@ == old(taker).positions@.update(
                tpi,
                spec_final_position(legs.1, t.direction, s, t_closed),
            )
            &&& final(taker).bank_balances@ == old(taker).bank_balances@
            &&& final(taker).fees == crate::user::UserFees {
                total_fee_paid: (old(taker).fees.total_fee_paid + tf) as u64,
                ..old(taker).fees
            }
            &&& final(maker).orders@ == old(maker).orders@.update(
                maker_order_index as int,
                spec_order_after_fill(m, s, q),
            )
            &&& final(maker).positions@ == old(maker).positions@.update(
                mpi,
                spec_final_position(legs.2, m.direction, s, m_closed),
            )
            &&& final(maker).bank_balances@ == old(maker).bank_balances@
            &&& final(maker).fees == crate::user::UserFees {
                total_fee_rebate: (old(maker).fees.total_fee_rebate + mr) as u64,
                ..old(maker).fees
            }
            &&& final(order_records)@ == old(order_records)@.push(
                OrderRecord {
                    ts: now,
                    slot: slot,
                    market_index: t.market_index,
                    base_asset_amount: s as u128,
                    quote_asset_amount: q as u128,
                    taker_fee: tf as u128,
                    maker_rebate: mr as u128,
                    fee_to_market: ftm as u128,
                    taker: *taker_key,
                    maker: Some(*maker_key),
                    filler: *filler_key,
                },
            )
        }),
{
    let t = taker.orders[taker_order_index];
    let m = maker.orders[maker_order_index];
    proof {
        reveal(spec_match_fill_ok);
    }

    // The positions that settle the fill.
    let taker_position_index = match find_position_index(&taker.positions, t.market_index) {
        Some(i) => i,
        None => { return Err(ErrorCode::NoPositionInMarket); },
    };
    let maker_position_index = match find_position_index(&maker.positions, t.market_index) {
        Some(i) => i,
        None => { return Err(ErrorCode::NoPositionInMarket); },
    };

    // Fees.
    let (taker_fee, maker_rebate, fee_to_market) = match calculate_fee_for_order(
        quote_filled,
        fee_structure,
    ) {
        Ok(v) => v,
        Err(ec) => { return Err(ec); },
    };

    // Stage every mutation on local copies; commit only when all of it is
    // known to be exact.
    let mut mkt = *market;
    let mut taker_position = taker.positions[taker_position_index];
    let mut maker_position = maker.positions[maker_position_index];

    let base_filled_i = match u128_to_i128(base_filled) {
        Ok(v) => v,
        Err(ec) => { return Err(ec); },
    };
    let taker_delta: i128 = match t.direction {
        PositionDirection::Long => base_filled_i,
        PositionDirection::Short => -base_filled_i,
    };

    let taker_realized = match update_position_and_market(
        &mut taker_position,
        &mut mkt,
        taker_delta,
        quote_filled,
    ) {
        Ok(v) => v,
        Err(ec) => { return Err(ec); },
    };
    let maker_realized = match update_position_and_market(
        &mut maker_position,
        &mut mkt,
        -taker_delta,
        quote_filled,
    ) {
        Ok(v) => v,
        Err(ec) => { return Err(ec); },
    };

    // Profit and loss: the taker's realized amount less the fee, the
    // maker's plus the rebate.
    let taker_fee_i = match u128_to_i128(taker_fee) {
        Ok(v) => v,
        Err(ec) => { return Err(ec); },
    };
    let taker_pnl = match sub_i128(taker_realized, taker_fee_i) {
        Ok(v) => v,
        Err(ec) => { return Err(ec); },
    };
    match update_unsettled_pnl(&mut taker_position, &mut mkt, taker_pnl) {
        Ok(_) => {},
        Err(ec) => { return Err(ec); },
    };
    let maker_rebate_i = match u128_to_i128(maker_rebate) {
        Ok(v) => v,
        Err(ec) => { return Err(ec); },
    };
    let maker_pnl = match add_i128(maker_realized, maker_rebate_i) {
        Ok(v) => v,
        Err(ec) => { return Err(ec); },
    };
    match update_unsettled_pnl(&mut maker_position, &mut mkt, maker_pnl) {
        Ok(_) => {},
        Err(ec) => { return Err(ec); },
    };

    // Users' lifetime fee totals.
    let taker_fee_64 = match u128_to_u64(taker_fee) {
        Ok(v) => v,
        Err(ec) => { return Err(ec); },
    };
    let new_total_fee_paid = match add_u64(taker.fees.total_fee_paid, taker_fee_64) {
        Ok(v) => v,
        Err(ec) => { return Err(ec); },
    };
    let maker_rebate_64 = match u128_to_u64(maker_rebate) {
        Ok(v) => v,
        Err(ec) => { return Err(ec); },
    };
    let new_total_fee_rebate = match add_u64(maker.fees.total_fee_rebate, maker_rebate_64) {
        Ok(v) => v,
        Err(ec) => { return Err(ec); },
    };

    // The market's fee pools accrue the net fee.
    let new_total_fee = match add_u128(mkt.amm.total_fee, fee_to_market) {
        Ok(v) => v,
        Err(ec) => { return Err(ec); },
    };
    let fee_to_market_i = match u128_to_i128(fee_to_market) {
        Ok(v) => v,
        Err(ec) => { return Err(ec); },
    };
    let new_tfmd = match add_i128(mkt.amm.total_fee_minus_distributions, fee_to_market_i) {
        Ok(v) => v,
        Err(ec) => { return Err(ec); },
    };
    let fee_to_market_64 = match u128_to_i64(fee_to_market) {
        Ok(v) => v,
        Err(ec) => { return Err(ec); },
    };
    let new_net_revenue = match add_i64(mkt.amm.net_revenue_since_last_funding, fee_to_market_64) {
        Ok(v) => v,
        Err(ec) => { return Err(ec); },
    };

    // Orders after the fill.
    let new_taker_quote_filled = match add_u128(t.quote_asset_amount_filled, quote_filled) {
        Ok(v) => v,
        Err(ec) => { return Err(ec); },
    };
    let new_maker_quote_filled = match add_u128(m.quote_asset_amount_filled, quote_filled) {
        Ok(v) => v,
        Err(ec) => { return Err(ec); },
    };

    // Release the filled reservations.
    match decrease_open_bids_and_asks(&mut taker_position, t.direction, base_filled) {
        Ok(_) => {},
        Err(ec) => { return Err(ec); },
    };
    match decrease_open_bids_and_asks(&mut maker_position, m.direction, base_filled) {
        Ok(_) => {},
        Err(ec) => { return Err(ec); },
    };

    // Closure: a fully consumed order resets and releases its order slot.
    let taker_closed = taker_unfilled == base_filled;
    let maker_closed = maker_unfilled == base_filled;
    let new_taker_order: Order;
    if taker_closed {
        if taker_position.open_orders == 0 {
            return Err(ErrorCode::MathError);
        }
        taker_position.open_orders = taker_position.open_orders - 1;
        new_taker_order = Order::default();
    } else {
        new_taker_order = Order {
            base_asset_amount_filled: t.base_asset_amount_filled + base_filled,
            quote_asset_amount_filled: new_taker_quote_filled,
            ..t
        };
    }
    let new_maker_order: Order;
    if maker_closed {
        if maker_position.open_orders == 0 {
            return Err(ErrorCode::MathError);
        }
        maker_position.open_orders = maker_position.open_orders - 1;
        new_maker_order = Order::default();
    } else {
        new_maker_order = Order {
            base_asset_amount_filled: m.base_asset_amount_filled + base_filled,
            quote_asset_amount_filled: new_maker_quote_filled,
            ..m
        };
    }

    // Commit.
    mkt.amm.total_fee = new_total_fee;
    mkt.amm.total_fee_minus_distributions = new_tfmd;
    mkt.amm.net_revenue_since_last_funding = new_net_revenue;
    *market = mkt;
    taker.positions[taker_position_index] = taker_position;
    taker.orders[taker_order_index] = new_taker_order;
    taker.fees.total_fee_paid = new_total_fee_paid;
    maker.positions[maker_position_index] = maker_position;
    maker.orders[maker_order_index] = new_maker_order;
    maker.fees.total_fee_rebate = new_total_fee_rebate;
    order_records.push(
        OrderRecord {
            ts: now,
            slot: slot,
            market_index: t.market_index,
            base_asset_amount: base_filled,
            quote_asset_amount: quote_filled,
            taker_fee: taker_fee,
            maker_rebate: maker_rebate,
            fee_to_market: fee_to_market,
            taker: clone_pubkey(taker_key),
            maker: Some(clone_pubkey(maker_key)),
            filler: clone_pubkey(filler_key),
        },
    );
    Ok((base_filled, quote_filled))
}


/// The swap direction a taker order's side implies: a long taker buys base
/// out of the AMM, a short taker sells base into it.
pub open spec fn spec_taker_swap_direction(direction: PositionDirection) -> SwapDirection {
    match direction {
        PositionDirection::Long => SwapDirection::Remove,
        PositionDirection::Short => SwapDirection::Add,
    }
}

/// The bounds under which everything an AMM fill commits is exact. Outside
/// them the fill reports a math error and commits nothing.
#[verifier::opaque]
pub open spec fn spec_amm_fill_ok(mkt0: Market, u0: User, oi: int, fs: FeeStructure) -> bool {
    let o = u0.orders@[oi];
    let s = o.spec_unfilled();
    let dir = spec_taker_swap_direction(o.direction);
    let qs = spec_swap_quote(mkt0.amm, s, dir);
    let surplus = spec_swap_surplus(mkt0.amm, s, dir);
    let mkt1 = Market { amm: spec_amm_after_swap(mkt0.amm, s, dir), ..mkt0 };
    let pi = spec_find_position(u0.positions@, o.market_index)->Some_0;
    let p0 = u0.positions@[pi];
    let dt = spec_signed_base(o.direction, s);
    let p1 = spec_position_after_trade(p0, dt, qs);
    let mk2 = spec_market_after_trade(mkt1, p0, dt, qs);
    let fee = spec_taker_fee(qs, fs);
    let pnl = spec_trade_pnl(p0, dt, qs) - fee;
    let p2 = MarketPosition { unsettled_pnl: (p1.unsettled_pnl + pnl) as i128, ..p1 };
    let mk3 = spec_market_after_pnl(mk2, pnl);
    let fee_total = fee + surplus;
    &&& spec_swap_ok(mkt0.amm, s, dir)
    &&& s <= i128::MAX
    &&& spec_trade_ok(p0, mkt1, dt, qs)
    &&& qs * fs.fee_numerator <= u128::MAX
    &&& fs.fee_denominator != 0
    &&& fee <= i128::MAX
    &&& i128::MIN <= spec_trade_pnl(p0, dt, qs) - fee <= i128::MAX
    &&& spec_pnl_ok(p1, mk2, pnl)
    &&& fee <= u64::MAX
    &&& u0.fees.total_fee_paid + fee <= u64::MAX
    &&& fee + surplus <= u128::MAX
    &&& mk3.amm.total_fee + fee_total <= u128::MAX
    &&& fee_total <= i128::MAX
    &&& i128::MIN <= mk3.amm.total_fee_minus_distributions + fee_total <= i128::MAX
    &&& fee_total <= i64::MAX
    &&& i64::MIN <= mk3.amm.net_revenue_since_last_funding + fee_total <= i64::MAX
    &&& spec_release_ok(p2, o.direction, s)
    &&& spec_position_after_release(p2, o.direction, s).open_orders >= 1
}

/// The resolution of one AMM fill attempt, mirroring its decision order: a
/// malformed order is a fault, nothing left to fill is a benign no-op, a
/// missing position record is a fault, and out-of-range arithmetic is a
/// fault; everything else fills.
pub open spec fn spec_amm_outcome(mkt0: Market, u0: User, oi: int, fs: FeeStructure) -> MatchOutcome {
    let o = u0.orders@[oi];
    if !o.is_well_formed() {
        MatchOutcome::Fault(ErrorCode::MathError)
    } else if o.spec_unfilled() == 0 {
        MatchOutcome::NoTrade
    } else if spec_find_position(u0.positions@, o.market_index) is None {
        MatchOutcome::Fault(ErrorCode::NoPositionInMarket)
    } else if !spec_amm_fill_ok(mkt0, u0, oi, fs) {
        MatchOutcome::Fault(ErrorCode::MathError)
    } else {
        MatchOutcome::Fill
    }
}

/// Fills the whole remaining size of a taker order against the AMM's
/// virtual reserves.
///
/// The taker settles the quote priced on the spread-side reserve pair; the
/// canonical reserves move along the curve invariant; the spread surplus
/// joins the taker fee in the market's fee pools. There is no counterparty,
/// so the AMM's net base exposure takes on the fill. The order always
/// consumes its whole remainder and closes. A fill commits as one unit; on
/// any fault nothing is changed.
#[verifier::rlimit(100)]
pub fn fulfill_order_with_amm(
    market: &mut Market,
    user: &mut User,
    order_index: usize,
    user_key: &Pubkey,
    filler_key: &Pubkey,
    fee_structure: &FeeStructure,
    now: i64,
    slot: u64,
    order_records: &mut Vec<OrderRecord>,
) -> (r: Result<(u128, u128), ErrorCode>)
    requires
        order_index < old(user).orders.len(),
    ensures
        spec_amm_outcome(*old(market), *old(user), order_index as int, *fee_structure)
            is NoTrade ==> {
            &&& r == Ok::<(u128, u128), ErrorCode>((0, 0))
            &&& *final(market) == *old(market)
            &&& final(user).spec_eq(*old(user))
            &&& final(order_records)@ == old(order_records)@
        },
        spec_amm_outcome(*old(market), *old(user), order_index as int, *fee_structure)
            is Fault ==> {
            &&& r == Err::<(u128, u128), ErrorCode>(
                spec_amm_outcome(
                    *old(market),
                    *old(user),
                    order_index as int,
                    *fee_structure,
                )->Fault_0,
            )
            &&& *final(market) == *old(market)
            &&& final(user).spec_eq(*old(user))
            &&& final(order_records)@ == old(order_records)@
        },
        spec_amm_outcome(*old(market), *old(user), order_index as int, *fee_structure)
            is Fill ==> ({
            let o = old(user).orders@[order_index as int];
            let s = o.spec_unfilled();
            let dir = spec_taker_swap_direction(o.direction);
            let qs = spec_swap_quote(old(market).amm, s, dir);
            let surplus = spec_swap_surplus(old(market).amm, s, dir);
            let mkt1 = Market { amm: spec_amm_after_swap(old(market).amm, s, dir), ..*old(market) };
            let pi = spec_find_position(old(user).positions@, o.market_index)->Some_0;
            let p0 = old(user).positions@[pi];
            let dt = spec_signed_base(o.direction, s);
            let p1 = spec_position_after_trade(p0, dt, qs);
            let mk2 = spec_market_after_trade(mkt1, p0, dt, qs);
            let fee = spec_taker_fee(qs, *fee_structure);
            let pnl = spec_trade_pnl(p0, dt, qs) - fee;
            let p2 = MarketPosition { unsettled_pnl: (p1.unsettled_pnl + pnl) as i128, ..p1 };
            let mk3 = spec_market_after_pnl(mk2, pnl);
            &&& r == Ok::<(u128, u128), ErrorCode>((s as u128, qs as u128))
            &&& *final(market) == spec_market_add_fees(mk3, fee + surplus)
            &&& final(user).orders@ == old(user).orders@.update(
                order_index as int,
                Order::spec_default(),
            )
            &&& final(user).positions@ == old(user).positions@.update(
                pi,
                spec_final_position(p2, o.direction, s, true),
            )
            &&& final(user).bank_balances@ == old(user).bank_balances@
            &&& final(user).fees == crate::user::UserFees {
                total_fee_paid: (old(user).fees.total_fee_paid + fee) as u64,
                ..old(user).fees
            }
            &&& final(order_records)@ == old(order_records)@.push(
                OrderRecord {
                    ts: now,
                    slot: slot,
                    market_index: o.market_index,
                    base_asset_amount: s as u128,
                    quote_asset_amount: qs as u128,
                    taker_fee: fee as u128,
                    maker_rebate: 0,
                    fee_to_market: (fee + surplus) as u128,
                    taker: *user_key,
                    maker: None,
                    filler: *filler_key,
                },
            )
            // The AMM takes on the whole fill as net directional exposure.
            &&& final(market).amm.net_base_asset_amount == old(
                market,
            ).amm.net_base_asset_amount + dt
            // Fee identity: the market accrues the taker fee plus the spread
            // surplus; there is no maker to rebate.
            &&& final(market).amm.total_fee == old(market).amm.total_fee + fee + surplus
        }),
{
    let o = user.orders[order_index];
    let ghost oc = spec_amm_outcome(*old(market), *old(user), order_index as int, *fee_structure);

    let unfilled = match o.get_base_asset_amount_unfilled() {
        Ok(v) => v,
        Err(ec) => {
            proof {
                assert(oc == MatchOutcome::Fault(ErrorCode::MathError));
            }
            return Err(ec);
        },
    };
    if unfilled == 0 {
        proof {
            assert(oc is NoTrade);
        }
        return Ok((0, 0));
    }

    // The fill itself, staged and committed as one unit.
    let result = apply_amm_fill(
        market,
        user,
        order_index,
        user_key,
        filler_key,
        fee_structure,
        now,
        slot,
        order_records,
        unfilled,
    );
    proof {
        reveal(spec_amm_fill_ok);
        match result {
            Ok(_) => {
                assert(oc is Fill);
            },
            Err(e) => {
                assert(oc == MatchOutcome::Fault(e));
            },
        }
    }
    result
}

/// The committed part of an AMM fill, entered once the order is well formed
/// with a positive remainder: swaps against the reserves, settles the
/// position, the fee totals and the market aggregates, closes the order,
/// and appends one record, all as one unit. On a missing position record or
/// a math fault nothing is changed.
#[verifier::rlimit(100)]
fn apply_amm_fill(
    market: &mut Market,
    user: &mut User,
    order_index: usize,
    user_key: &Pubkey,
    filler_key: &Pubkey,
    fee_structure: &FeeStructure,
    now: i64,
    slot: u64,
    order_records: &mut Vec<OrderRecord>,
    unfilled: u128,
) -> (r: Result<(u128, u128), ErrorCode>)
    requires
        order_index < old(user).orders.len(),
        old(user).orders@[order_index as int].is_well_formed(),
        unfilled == old(user).orders@[order_index as int].spec_unfilled(),
        unfilled > 0,
    ensures
        spec_find_position(
            old(user).positions@,
            old(user).orders@[order_index as int].market_index,
        ) is None ==> {
            &&& r == Err::<(u128, u128), ErrorCode>(ErrorCode::NoPositionInMarket)
            &&& *final(market) == *old(market)
            &&& final(user).spec_eq(*old(user))
            &&& final(order_records)@ == old(order_records)@
        },
        ({
            &&& spec_find_position(
                old(user).positions@,
                old(user).orders@[order_index as int].market_index,
            ) is Some
            &&& !spec_amm_fill_ok(*old(market), *old(user), order_index as int, *fee_structure)
        }) ==> {
            &&& r == Err::<(u128, u128), ErrorCode>(ErrorCode::MathError)
            &&& *final(market) == *old(market)
            &&& final(user).spec_eq(*old(user))
            &&& final(order_records)@ == old(order_records)@
        },
        ({
            &&& spec_find_position(
                old(user).positions@,
                old(user).orders@[order_index as int].market_index,
            ) is Some
            &&& spec_amm_fill_ok(*old(market), *old(user), order_index as int, *fee_structure)
        }) ==> ({
            let o = old(user).orders@[order_index as int];
            let s = o.spec_unfilled();
            let dir = spec_taker_swap_direction(o.direction);
            let qs = spec_swap_quote(old(market).amm, s, dir);
            let surplus = spec_swap_surplus(old(market).amm, s, dir);
            let mkt1 = Market { amm: spec_amm_after_swap(old(market).amm, s, dir), ..*old(market) };
            let pi = spec_find_position(old(user).positions@, o.market_index)->Some_0;
            let p0 = old(user).positions@[pi];
            let dt = spec_signed_base(o.direction, s);
            let p1 = spec_position_after_trade(p0, dt, qs);
            let mk2 = spec_market_after_trade(mkt1, p0, dt, qs);
            let fee = spec_taker_fee(qs, *fee_structure);
            let pnl = spec_trade_pnl(p0, dt, qs) - fee;
            let p2 = MarketPosition { unsettled_pnl: (p1.unsettled_pnl + pnl) as i128, ..p1 };
            let mk3 = spec_market_after_pnl(mk2, pnl);
            &&& r == Ok::<(u128, u128), ErrorCode>((s as u128, qs as u128))
            &&& *final(market) == spec_market_add_fees(mk3, fee + surplus)
            &&& final(user).orders@ == old(user).orders@.update(
                order_index as int,
                Order::spec_default(),
            )
            &&& final(user).positions@ == old(user).positions@.update(
                pi,
                spec_final_position(p2, o.direction, s, true),
            )
            &&& final(user).bank_balances@ == old(user).bank_balances@
            &&& final(user).fees == crate::user::UserFees {
                total_fee_paid: (old(user).fees.total_fee_paid + fee) as u64,
                ..old(user).fees
            }
            &&& final(order_records)@ == old(order_records)@.push(
                OrderRecord {
                    ts: now,
                    slot: slot,
                    market_index: o.market_index,
                    base_asset_amount: s as u128,
                    quote_asset_amount: qs as u128,
                    taker_fee: fee as u128,
                    maker_rebate: 0,
                    fee_to_market: (fee + surplus) as u128,
                    taker: *user_key,
                    maker: None,
                    filler: *filler_key,
                },
            )
        }),
{
    let o = user.orders[order_index];
    proof {
        reveal(spec_amm_fill_ok);
    }

    // The position that settles the fill.
    let position_index = match find_position_index(&user.positions, o.market_index) {
        Some(i) => i,
        None => { return Err(ErrorCode::NoPositionInMarket); },
    };

    let direction = match o.direction {
        PositionDirection::Long => SwapDirection::Remove,
        PositionDirection::Short => SwapDirection::Add,
    };

    // Stage every mutation on local copies; commit only when all of it is
    // known to be exact.
    let mut mkt = *market;
    let mut position = user.positions[position_index];

    let (quote_swapped, surplus) = match swap_base_asset(&mut mkt.amm, unfilled, direction) {
        Ok(v) => v,
        Err(ec) => { return Err(ec); },
    };

    let unfilled_i = match u128_to_i128(unfilled) {
        Ok(v) => v,
        Err(ec) => { return Err(ec); },
    };
    let delta: i128 = match o.direction {
        PositionDirection::Long => unfilled_i,
        PositionDirection::Short => -unfilled_i,
    };

    let realized = match update_position_and_market(&mut position, &mut mkt, delta, quote_swapped) {
        Ok(v) => v,
        Err(ec) => { return Err(ec); },
    };

    // The taker fee; the AMM leg has no maker to rebate.
    let fee_product = match mul_u128(quote_swapped, fee_structure.fee_numerator) {
        Ok(v) => v,
        Err(ec) => { return Err(ec); },
    };
    if fee_structure.fee_denominator == 0 {
        return Err(ErrorCode::MathError);
    }
    let fee = fee_product / fee_structure.fee_denominator;

    let fee_i = match u128_to_i128(fee) {
        Ok(v) => v,
        Err(ec) => { return Err(ec); },
    };
    let pnl = match sub_i128(realized, fee_i) {
        Ok(v) => v,
        Err(ec) => { return Err(ec); },
    };
    match update_unsettled_pnl(&mut position, &mut mkt, pnl) {
        Ok(_) => {},
        Err(ec) => { return Err(ec); },
    };

    // The user's lifetime fee total.
    let fee_64 = match u128_to_u64(fee) {
        Ok(v) => v,
        Err(ec) => { return Err(ec); },
    };
    let new_total_fee_paid = match add_u64(user.fees.total_fee_paid, fee_64) {
        Ok(v) => v,
        Err(ec) => { return Err(ec); },
    };

    // The market's fee pools accrue the fee and the spread surplus.
    let fee_total = match add_u128(fee, surplus) {
        Ok(v) => v,
        Err(ec) => { return Err(ec); },
    };
    let new_total_fee = match add_u128(mkt.amm.total_fee, fee_total) {
        Ok(v) => v,
        Err(ec) => { return Err(ec); },
    };
    let fee_total_i = match u128_to_i128(fee_total) {
        Ok(v) => v,
        Err(ec) => { return Err(ec); },
    };
    let new_tfmd = match add_i128(mkt.amm.total_fee_minus_distributions, fee_total_i) {
        Ok(v) => v,
        Err(ec) => { return Err(ec); },
    };
    let fee_total_64 = match u128_to_i64(fee_total) {
        Ok(v) => v,
        Err(ec) => { return Err(ec); },
    };
    let new_net_revenue = match add_i64(mkt.amm.net_revenue_since_last_funding, fee_total_64) {
        Ok(v) => v,
        Err(ec) => { return Err(ec); },
    };

    // Release the reservation; the order always consumes its remainder.
    match decrease_open_bids_and_asks(&mut position, o.direction, unfilled) {
        Ok(_) => {},
        Err(ec) => { return Err(ec); },
    };
    if position.open_orders == 0 {
        return Err(ErrorCode::MathError);
    }
    position.open_orders = position.open_orders - 1;

    // Commit.
    mkt.amm.total_fee = new_total_fee;
    mkt.amm.total_fee_minus_distributions = new_tfmd;
    mkt.amm.net_revenue_since_last_funding = new_net_revenue;
    *market = mkt;
    user.positions[position_index] = position;
    user.orders[order_index] = Order::default();
    user.fees.total_fee_paid = new_total_fee_paid;
    order_records.push(
        OrderRecord {
            ts: now,
            slot: slot,
            market_index: o.market_index,
            base_asset_amount: unfilled,
            quote_asset_amount: quote_swapped,
            taker_fee: fee,
            maker_rebate: 0,
            fee_to_market: fee_total,
            taker: clone_pubkey(user_key),
            maker: None,
            filler: clone_pubkey(filler_key),
        },
    );
    Ok((unfilled, quote_swapped))
}


/// Two optional users agree on every field.
pub open spec fn spec_user_opt_eq(a: Option<User>, b: Option<User>) -> bool {
    match (a, b) {
        (Some(x), Some(y)) => x.spec_eq(y),
        (None, None) => true,
        _ => false,
    }
}

/// The signed base a user holds in a market; zero without a position record.
pub open spec fn spec_position_base(u: User, market_index: u64) -> int {
    match spec_find_position(u.positions@, market_index) {
        Some(i) => u.positions@[i].base_asset_amount as int,
        None => 0,
    }
}

/// Whether the residual AMM leg runs for this taker order: something is left
/// to fill, and either the order is a market order whose auction window has
/// elapsed, or it is a limit order whose price (or the caller-supplied
/// override) crosses the AMM's current quote on the taker's side.
pub open spec fn spec_amm_leg_runs(o: Order, mkt: Market, slot: u64, limit_price: Option<u128>) -> bool {
    &&& o.spec_unfilled() > 0
    &&& match o.order_type {
        OrderType::Market => slot >= spec_auction_complete_slot(o),
        OrderType::Limit => {
            let lp = match limit_price {
                Some(p) => p as int,
                None => o.price as int,
            };
            match o.direction {
                PositionDirection::Long => lp >= spec_reserve_price(
                    mkt.amm.ask_quote_asset_reserve as int,
                    mkt.amm.ask_base_asset_reserve as int,
                    mkt.amm.peg_multiplier as int,
                ),
                PositionDirection::Short => lp <= spec_reserve_price(
                    mkt.amm.bid_quote_asset_reserve as int,
                    mkt.amm.bid_base_asset_reserve as int,
                    mkt.amm.peg_multiplier as int,
                ),
            }
        },
    }
}

/// How one maker-match leg relates the pre-trade state to the post-leg
/// state: either the attempt was a benign no-trade and nothing moved, or it
/// filled and every book moved exactly as `fulfill_order_with_match`
/// commits.
#[verifier::opaque]
pub open spec fn spec_match_leg_rel(
    mkt0: Market,
    t0: User,
    m0: User,
    ti: int,
    mi: int,
    fs: FeeStructure,
    slot: u64,
    mkt1: Market,
    t1: User,
    m1: User,
    s1: u128,
    q1: u128,
) -> bool {
    let oc = spec_match_outcome(mkt0, t0, m0, ti, mi, fs, slot);
    let t = t0.orders@[ti];
    let m = m0.orders@[mi];
    let s = spec_fill_base(m.spec_unfilled(), t.spec_unfilled());
    let q = spec_fill_quote(s, spec_limit_price(m, slot));
    let tf = spec_taker_fee(q, fs);
    let mr = spec_maker_rebate(q, fs);
    let ftm = tf - mr;
    let tpi = spec_find_position(t0.positions@, t.market_index)->Some_0;
    let mpi = spec_find_position(m0.positions@, t.market_index)->Some_0;
    let tp0 = t0.positions@[tpi];
    let mp0 = m0.positions@[mpi];
    let dt = spec_signed_base(t.direction, s);
    let legs = spec_match_legs(mkt0, tp0, mp0, dt, q, tf, mr);
    let t_closed = t.spec_unfilled() == s;
    let m_closed = m.spec_unfilled() == s;
    ||| {
        &&& oc is NoTrade
        &&& mkt1 == mkt0
        &&& t1.spec_eq(t0)
        &&& m1.spec_eq(m0)
        &&& s1 == 0
        &&& q1 == 0
    }
    ||| {
        &&& oc is Fill
        &&& s1 == s as u128
        &&& q1 == q as u128
        &&& mkt1 == spec_market_add_fees(legs.0, ftm)
        &&& t1.orders@ == t0.orders@.update(ti, spec_order_after_fill(t, s, q))
        &&& t1.positions@ == t0.positions@.update(
            tpi,
            spec_final_position(legs.1, t.direction, s, t_closed),
        )
        &&& t1.bank_balances@ == t0.bank_balances@
        &&& t1.fees == crate::user::UserFees {
            total_fee_paid: (t0.fees.total_fee_paid + tf) as u64,
            ..t0.fees
        }
        &&& m1.orders@ == m0.orders@.update(mi, spec_order_after_fill(m, s, q))
        &&& m1.positions@ == m0.positions@.update(
            mpi,
            spec_final_position(legs.2, m.direction, s, m_closed),
        )
        &&& m1.bank_balances@ == m0.bank_balances@
        &&& m1.fees == crate::user::UserFees {
            total_fee_rebate: (m0.fees.total_fee_rebate + mr) as u64,
            ..m0.fees
        }
    }
}

/// How the residual AMM leg relates the post-match state to the post-leg
/// state: either the leg did not run and nothing moved, or it filled the
/// whole remainder exactly as `fulfill_order_with_amm` commits.
pub open spec fn spec_amm_leg_rel(
    mkt1: Market,
    t1: User,
    ti: int,
    fs: FeeStructure,
    slot: u64,
    limit_price: Option<u128>,
    mkt2: Market,
    t2: User,
    s2: u128,
    q2: u128,
) -> bool {
    let o = t1.orders@[ti];
    if spec_amm_leg_runs(o, mkt1, slot, limit_price) {
        let s = o.spec_unfilled();
        let dir = spec_taker_swap_direction(o.direction);
        let qs = spec_swap_quote(mkt1.amm, s, dir);
        let surplus = spec_swap_surplus(mkt1.amm, s, dir);
        let mkt_swapped = Market { amm: spec_amm_after_swap(mkt1.amm, s, dir), ..mkt1 };
        let pi = spec_find_position(t1.positions@, o.market_index)->Some_0;
        let p0 = t1.positions@[pi];
        let dt = spec_signed_base(o.direction, s);
        let p1 = spec_position_after_trade(p0, dt, qs);
        let mk2 = spec_market_after_trade(mkt_swapped, p0, dt, qs);
        let fee = spec_taker_fee(qs, fs);
        let pnl = spec_trade_pnl(p0, dt, qs) - fee;
        let p2 = MarketPosition { unsettled_pnl: (p1.unsettled_pnl + pnl) as i128, ..p1 };
        let mk3 = spec_market_after_pnl(mk2, pnl);
        &&& spec_amm_outcome(mkt1, t1, ti, fs) is Fill
        &&& s2 == s as u128
        &&& q2 == qs as u128
        &&& mkt2 == spec_market_add_fees(mk3, fee + surplus)
        &&& t2.orders@ == t1.orders@.update(ti, Order::spec_default())
        &&& t2.positions@ == t1.positions@.update(
            pi,
            spec_final_position(p2, o.direction, s, true),
        )
        &&& t2.bank_balances@ == t1.bank_balances@
        &&& t2.fees == crate::user::UserFees {
            total_fee_paid: (t1.fees.total_fee_paid + fee) as u64,
            ..t1.fees
        }
    } else {
        &&& mkt2 == mkt1
        &&& t2.spec_eq(t1)
        &&& s2 == 0
        &&& q2 == 0
    }
}

/// Fulfills a taker order: the supplied maker first, then the AMM for the
/// remainder once the taker's auction permits it, then the margin guard.
///
/// Expected no-trade outcomes (an ineligible or non-crossing pair, nothing
/// to fill, a margin breach) return a zero fill with a success result. A
/// margin breach rolls every book — the taker's open order included — back
/// to its pre-trade snapshot. On a surfaced error nothing at all is
/// changed, and an error comes only from a named fault: invalid input, an
/// arithmetic fault in one of the legs, or a failed margin evaluation.
///
/// On success the result carries the total base filled and whether the move
/// grew the magnitude of the taker's position in this market.
#[verifier::rlimit(100)]
pub fn fulfill_order(
    taker: &mut User,
    taker_order_index: usize,
    taker_key: &Pubkey,
    maker: &mut Option<User>,
    maker_order_index: Option<usize>,
    maker_key: Option<&Pubkey>,
    filler: &mut Option<User>,
    filler_key: &Pubkey,
    bank_map: &BankMap,
    market_map: &mut MarketMap,
    oracle_map: &mut OracleMap,
    fee_structure: &FeeStructure,
    market_index: u64,
    limit_price: Option<u128>,
    now: i64,
    slot: u64,
) -> (r: Result<(u128, bool), ErrorCode>)
    requires
        taker_order_index < old(taker).orders.len(),
        (*old(maker)) is Some && maker_order_index is Some ==> maker_order_index->Some_0 < old(
            maker,
        )->Some_0.orders.len(),
    ensures
        r is Err ==> {
            &&& final(taker).spec_eq(*old(taker))
            &&& spec_user_opt_eq(*final(maker), *old(maker))
            &&& spec_user_opt_eq(*final(filler), *old(filler))
            &&& final(market_map).markets@ == old(market_map).markets@
        },
        old(taker).orders@[taker_order_index as int].status != crate::user::OrderStatus::Open
            ==> r == Err::<(u128, bool), ErrorCode>(ErrorCode::OrderNotOpen),
        ({
            &&& old(taker).orders@[taker_order_index as int].status
                == crate::user::OrderStatus::Open
            &&& old(taker).orders@[taker_order_index as int].market_index != market_index
        }) ==> r == Err::<(u128, bool), ErrorCode>(ErrorCode::InvalidOrderMarket),
        ({
            &&& old(taker).orders@[taker_order_index as int].status
                == crate::user::OrderStatus::Open
            &&& old(taker).orders@[taker_order_index as int].market_index == market_index
            &&& spec_find_market(old(market_map).markets@, market_index) is None
        }) ==> r == Err::<(u128, bool), ErrorCode>(ErrorCode::MarketNotFound),
        ({
            &&& old(taker).orders@[taker_order_index as int].status
                == crate::user::OrderStatus::Open
            &&& old(taker).orders@[taker_order_index as int].market_index == market_index
            &&& spec_find_market(old(market_map).markets@, market_index) is Some
            &&& !old(market_map).markets@[spec_find_market(
                old(market_map).markets@,
                market_index,
            )->Some_0].initialized
        }) ==> r == Err::<(u128, bool), ErrorCode>(ErrorCode::MarketNotInitialized),
        ({
            &&& old(taker).orders@[taker_order_index as int].status
                == crate::user::OrderStatus::Open
            &&& old(taker).orders@[taker_order_index as int].market_index == market_index
            &&& spec_find_market(old(market_map).markets@, market_index) is Some
            &&& old(market_map).markets@[spec_find_market(
                old(market_map).markets@,
                market_index,
            )->Some_0].initialized
            &&& (*old(maker)) is Some && maker_order_index is Some && maker_key is Some
            &&& !(*old(maker))->Some_0.orders@[maker_order_index->Some_0 as int].post_only
        }) ==> r == Err::<(u128, bool), ErrorCode>(ErrorCode::MakerOrderNotPostOnly),
        // Success is owed: an error comes only from a named fault. On every
        // other input the call returns Ok, so the contrapositive of this
        // clause obliges the fulfillment work.
        r is Err ==> ({
            let taker0 = *old(taker);
            let map0 = old(market_map).markets@;
            let midx = spec_find_market(map0, market_index)->Some_0;
            let market0 = map0[midx];
            let has_maker = (*old(maker)) is Some && maker_order_index is Some && maker_key
                is Some;
            let t = taker0.orders@[taker_order_index as int];
            ||| t.status != crate::user::OrderStatus::Open
            ||| t.market_index != market_index
            ||| spec_find_market(map0, market_index) is None
            ||| !market0.initialized
            ||| (has_maker && !(*old(maker))->Some_0.orders@[maker_order_index->Some_0 as int].post_only)
            ||| (has_maker && spec_match_outcome(
                market0,
                taker0,
                (*old(maker))->Some_0,
                taker_order_index as int,
                maker_order_index->Some_0 as int,
                *fee_structure,
                slot,
            ) is Fault)
            ||| exists|mkt1: Market, t1: User, m1: User, s1: u128, q1: u128, mkt2: Market, t2: User, s2: u128, q2: u128|
                #![trigger spec_match_leg_rel(
                    market0,
                    taker0,
                    (*old(maker))->Some_0,
                    taker_order_index as int,
                    maker_order_index->Some_0 as int,
                    *fee_structure,
                    slot,
                    mkt1,
                    t1,
                    m1,
                    s1,
                    q1,
                ), spec_amm_leg_rel(
                    mkt1,
                    t1,
                    taker_order_index as int,
                    *fee_structure,
                    slot,
                    limit_price,
                    mkt2,
                    t2,
                    s2,
                    q2,
                )]
            {
                &&& if has_maker {
                    spec_match_leg_rel(
                        market0,
                        taker0,
                        (*old(maker))->Some_0,
                        taker_order_index as int,
                        maker_order_index->Some_0 as int,
                        *fee_structure,
                        slot,
                        mkt1,
                        t1,
                        m1,
                        s1,
                        q1,
                    )
                } else {
                    &&& mkt1 == market0
                    &&& t1.spec_eq(taker0)
                    &&& s1 == 0
                    &&& q1 == 0
                }
                &&& {
                    ||| spec_residual_fault(
                        mkt1,
                        t1,
                        taker_order_index as int,
                        *fee_structure,
                        slot,
                        limit_price,
                    ) is Some
                    ||| {
                        &&& spec_amm_leg_rel(
                            mkt1,
                            t1,
                            taker_order_index as int,
                            *fee_structure,
                            slot,
                            limit_price,
                            mkt2,
                            t2,
                            s2,
                            q2,
                        )
                        &&& (s1 + s2 > u128::MAX || spec_margin_evaluation(
                            t2,
                            map0.update(midx, mkt2),
                            bank_map.banks@,
                            old(oracle_map).prices@,
                        ) is Err)
                    }
                }
            }
        }),
        r is Ok ==> ({
            let taker0 = *old(taker);
            let map0 = old(market_map).markets@;
            let midx = spec_find_market(map0, market_index)->Some_0;
            let market0 = map0[midx];
            let has_maker = (*old(maker)) is Some && maker_order_index is Some && maker_key is Some;
            let b = r->Ok_0.0;
            let risk = r->Ok_0.1;
            exists|mkt1: Market, t1: User, m1: User, mkt2: Market, t2: User, s1: u128, q1: u128, s2: u128, q2: u128|
                #![trigger spec_match_leg_rel(
                    market0,
                    taker0,
                    (*old(maker))->Some_0,
                    taker_order_index as int,
                    maker_order_index->Some_0 as int,
                    *fee_structure,
                    slot,
                    mkt1,
                    t1,
                    m1,
                    s1,
                    q1,
                ), spec_amm_leg_rel(
                    mkt1,
                    t1,
                    taker_order_index as int,
                    *fee_structure,
                    slot,
                    limit_price,
                    mkt2,
                    t2,
                    s2,
                    q2,
                )]
            {
                &&& if has_maker {
                    spec_match_leg_rel(
                        market0,
                        taker0,
                        (*old(maker))->Some_0,
                        taker_order_index as int,
                        maker_order_index->Some_0 as int,
                        *fee_structure,
                        slot,
                        mkt1,
                        t1,
                        m1,
                        s1,
                        q1,
                    )
                } else {
                    &&& mkt1 == market0
                    &&& t1.spec_eq(taker0)
                    &&& s1 == 0
                    &&& q1 == 0
                }
                &&& spec_amm_leg_rel(
                    mkt1,
                    t1,
                    taker_order_index as int,
                    *fee_structure,
                    slot,
                    limit_price,
                    mkt2,
                    t2,
                    s2,
                    q2,
                )
                &&& spec_margin_evaluation(
                    t2,
                    map0.update(midx, mkt2),
                    bank_map.banks@,
                    old(oracle_map).prices@,
                ) is Ok
                &&& if spec_margin_evaluation(
                    t2,
                    map0.update(midx, mkt2),
                    bank_map.banks@,
                    old(oracle_map).prices@,
                )->Ok_0 {
                    // Commit.
                    &&& final(taker).spec_eq(t2)
                    &&& (has_maker ==> (*final(maker)) is Some && (*final(maker))->Some_0.spec_eq(m1))
                    &&& (!has_maker ==> spec_user_opt_eq(*final(maker), *old(maker)))
                    &&& spec_user_opt_eq(*final(filler), *old(filler))
                    &&& final(market_map).markets@ == map0.update(midx, mkt2)
                    &&& b == s1 + s2
                    &&& risk == (crate::position::abs_int(spec_position_base(t2, market_index))
                        > crate::position::abs_int(spec_position_base(taker0, market_index)))
                } else {
                    // Margin breach: a benign zero fill, with every book
                    // restored to its pre-trade snapshot.
                    &&& final(taker).spec_eq(taker0)
                    &&& spec_user_opt_eq(*final(maker), *old(maker))
                    &&& spec_user_opt_eq(*final(filler), *old(filler))
                    &&& final(market_map).markets@ == map0
                    &&& b == 0
                    &&& risk == false
                }
            }
        }),
{
    let t = taker.orders[taker_order_index];

    // Validation: the order must be open, in the requested market, and the
    // market must be present and initialized.
    if t.status != OrderStatus::Open {
        return Err(ErrorCode::OrderNotOpen);
    }
    if t.market_index != market_index {
        return Err(ErrorCode::InvalidOrderMarket);
    }
    let market_before = match market_map.get_market(market_index) {
        Some(m) => m,
        None => { return Err(ErrorCode::MarketNotFound); },
    };
    if !market_before.initialized {
        return Err(ErrorCode::MarketNotInitialized);
    }

    let has_maker = maker.is_some() && maker_order_index.is_some() && maker_key.is_some();

    // A supplied maker must only add liquidity.
    if has_maker {
        let maker_idx = match maker_order_index {
            Some(i) => i,
            None => 0,
        };
        match maker {
            Some(m_user) => {
                if !m_user.orders[maker_idx].post_only {
                    return Err(ErrorCode::MakerOrderNotPostOnly);
                }
            },
            None => {},
        }
    }

    // Snapshots for the rollback path.
    let taker_snapshot = snapshot_user(taker);
    let maker_snapshot: Option<User> = match maker {
        Some(m_user) => Some(snapshot_user(m_user)),
        None => None,
    };

    let base_before: u128 = match find_position_index(&taker.positions, market_index) {
        Some(i) => crate::position::abs_i128(taker.positions[i].base_asset_amount),
        None => 0,
    };

    let mut mkt = market_before;
    let mut records: Vec<OrderRecord> = Vec::new();
    let ghost map0 = old(market_map).markets@;
    let ghost midx = spec_find_market(map0, market_index)->Some_0;

    // First leg: the supplied maker.
    let mut total_base: u128 = 0;
    let mut s1_exec: u128 = 0;
    let mut q1_exec: u128 = 0;
    if has_maker {
        let maker_idx = match maker_order_index {
            Some(i) => i,
            None => 0,
        };
        let mk_key = match maker_key {
            Some(k) => k,
            None => taker_key,
        };
        match maker {
            Some(m_user) => {
                match maker_match_leg(
                    &mut mkt,
                    taker,
                    taker_order_index,
                    taker_key,
                    m_user,
                    maker_idx,
                    mk_key,
                    filler,
                    filler_key,
                    now,
                    slot,
                    fee_structure,
                    oracle_map,
                    &mut records,
                ) {
                    Ok((s, q)) => {
                        s1_exec = s;
                        q1_exec = q;
                        total_base = s;
                    },
                    Err(ec) => { return Err(ec); },
                }
            },
            None => {},
        }
    }
    let ghost mkt1g = mkt;
    let ghost t1g = *taker;
    let ghost m1g: User = if (*maker) is Some {
        (*maker)->Some_0
    } else {
        *old(taker)
    };

    // Residual leg: the AMM, once the order and the auction window allow it.
    let mut s2_exec: u128 = 0;
    let mut q2_exec: u128 = 0;
    match residual_amm_leg(
        &mut mkt,
        taker,
        taker_order_index,
        taker_key,
        filler_key,
        fee_structure,
        limit_price,
        now,
        slot,
        &mut records,
    ) {
        Ok((s, q)) => {
            s2_exec = s;
            q2_exec = q;
        },
        Err(ec) => {
            proof {
                // Mention the relation instances so the quantified error
                // clause can pick these states as its witnesses.
                let trig1 = spec_match_leg_rel(
                    map0[midx],
                    *old(taker),
                    (*old(maker))->Some_0,
                    taker_order_index as int,
                    maker_order_index->Some_0 as int,
                    *fee_structure,
                    slot,
                    mkt1g,
                    t1g,
                    m1g,
                    s1_exec,
                    q1_exec,
                );
                if has_maker {
                    assert(trig1);
                }
                let trig2 = spec_amm_leg_rel(
                    mkt1g,
                    t1g,
                    taker_order_index as int,
                    *fee_structure,
                    slot,
                    limit_price,
                    mkt1g,
                    t1g,
                    0,
                    0,
                );
            }
            *taker = taker_snapshot;
            *maker = maker_snapshot;
            return Err(ec);
        },
    }
    total_base = match add_u128(total_base, s2_exec) {
        Ok(v) => v,
        Err(ec) => {
            proof {
                // Mention the relation instances so the quantified error
                // clause can pick these states as its witnesses.
                let trig1 = spec_match_leg_rel(
                    map0[midx],
                    *old(taker),
                    (*old(maker))->Some_0,
                    taker_order_index as int,
                    maker_order_index->Some_0 as int,
                    *fee_structure,
                    slot,
                    mkt1g,
                    t1g,
                    m1g,
                    s1_exec,
                    q1_exec,
                );
                if has_maker {
                    assert(trig1);
                }
                assert(spec_amm_leg_rel(
                    mkt1g,
                    t1g,
                    taker_order_index as int,
                    *fee_structure,
                    slot,
                    limit_price,
                    mkt,
                    *taker,
                    s2_exec,
                    q2_exec,
                ));
            }
            *taker = taker_snapshot;
            *maker = maker_snapshot;
            return Err(ec);
        },
    };
    proof {
        assert(mkt.market_index == market_index) by {
            reveal(spec_match_leg_rel);
            reveal(spec_amm_leg_rel);
            reveal(spec_match_fill_ok);
            reveal(spec_amm_fill_ok);
        }
    }
    let ghost mkt2g = mkt;
    let ghost t2g = *taker;

    // Tentatively commit the market and evaluate the margin guard.
    proof {
        lemma_find_market_update(map0, midx, mkt2g, market_index);
    }
    if !market_map.put_market(mkt) {
        *taker = taker_snapshot;
        *maker = maker_snapshot;
        return Err(ErrorCode::MarketNotFound);
    }
    let meets = match meets_initial_margin_requirement(taker, market_map, bank_map, oracle_map) {
        Ok(v) => v,
        Err(ec) => {
            let _restored = market_map.put_market(market_before);
            proof {
                assert(market_map.markets@ =~= map0);
            }
            proof {
                // Mention the relation instances so the quantified error
                // clause can pick these states as its witnesses.
                let trig1 = spec_match_leg_rel(
                    map0[midx],
                    *old(taker),
                    (*old(maker))->Some_0,
                    taker_order_index as int,
                    maker_order_index->Some_0 as int,
                    *fee_structure,
                    slot,
                    mkt1g,
                    t1g,
                    m1g,
                    s1_exec,
                    q1_exec,
                );
                if has_maker {
                    assert(trig1);
                }
                assert(spec_amm_leg_rel(
                    mkt1g,
                    t1g,
                    taker_order_index as int,
                    *fee_structure,
                    slot,
                    limit_price,
                    mkt2g,
                    t2g,
                    s2_exec,
                    q2_exec,
                ));
            }
            *taker = taker_snapshot;
            *maker = maker_snapshot;
            return Err(ec);
        },
    };

    if !meets {
        // Margin breach: a normal market condition, not an error. Restore
        // every book to its pre-trade snapshot and report a zero fill.
        let _restored = market_map.put_market(market_before);
        proof {
            assert(market_map.markets@ =~= map0);
        }
        *taker = taker_snapshot;
        *maker = maker_snapshot;
    proof {
        // Mention both relation instances so the quantified postcondition
        // can pick these states as its witnesses.
        let trig1 = spec_match_leg_rel(
            map0[midx],
            *old(taker),
            (*old(maker))->Some_0,
            taker_order_index as int,
            maker_order_index->Some_0 as int,
            *fee_structure,
            slot,
            mkt1g,
            t1g,
            m1g,
            s1_exec,
            q1_exec,
        );
        if has_maker {
            assert(trig1);
        }
        assert(spec_amm_leg_rel(
            mkt1g,
            t1g,
            taker_order_index as int,
            *fee_structure,
            slot,
            limit_price,
            mkt2g,
            t2g,
            s2_exec,
            q2_exec,
        ));
    }
        return Ok((0, false));
    }

    // Committed: report the filled base and whether the move grew the
    // taker's exposure.
    let base_after: u128 = match find_position_index(&taker.positions, market_index) {
        Some(i) => crate::position::abs_i128(taker.positions[i].base_asset_amount),
        None => 0,
    };
    proof {
        // Mention both relation instances so the quantified postcondition
        // can pick these states as its witnesses.
        let trig1 = spec_match_leg_rel(
            map0[midx],
            *old(taker),
            (*old(maker))->Some_0,
            taker_order_index as int,
            maker_order_index->Some_0 as int,
            *fee_structure,
            slot,
            mkt1g,
            t1g,
            m1g,
            s1_exec,
            q1_exec,
        );
        if has_maker {
            assert(trig1);
        }
        assert(spec_amm_leg_rel(
            mkt1g,
            t1g,
            taker_order_index as int,
            *fee_structure,
            slot,
            limit_price,
            mkt2g,
            t2g,
            s2_exec,
            q2_exec,
        ));
    }
    let risk_increasing = base_after > base_before;
    Ok((total_base, risk_increasing))
}


/// One maker-match leg as the orchestrator sees it: on success the books
/// relate to their prior state by `spec_match_leg_rel`; on a fault nothing
/// is changed.
fn maker_match_leg(
    market: &mut Market,
    taker: &mut User,
    taker_order_index: usize,
    taker_key: &Pubkey,
    maker: &mut User,
    maker_order_index: usize,
    maker_key: &Pubkey,
    filler: &mut Option<User>,
    filler_key: &Pubkey,
    now: i64,
    slot: u64,
    fee_structure: &FeeStructure,
    oracle_map: &mut OracleMap,
    order_records: &mut Vec<OrderRecord>,
) -> (r: Result<(u128, u128), ErrorCode>)
    requires
        taker_order_index < old(taker).orders.len(),
        maker_order_index < old(maker).orders.len(),
    ensures
        r matches Ok(sq) ==> spec_match_leg_rel(
            *old(market),
            *old(taker),
            *old(maker),
            taker_order_index as int,
            maker_order_index as int,
            *fee_structure,
            slot,
            *final(market),
            *final(taker),
            *final(maker),
            sq.0,
            sq.1,
        ),
        r is Err ==> {
            &&& *final(market) == *old(market)
            &&& final(taker).spec_eq(*old(taker))
            &&& final(maker).spec_eq(*old(maker))
        },
        spec_match_outcome(
            *old(market),
            *old(taker),
            *old(maker),
            taker_order_index as int,
            maker_order_index as int,
            *fee_structure,
            slot,
        ) is Fault ==> r == Err::<(u128, u128), ErrorCode>(
            spec_match_outcome(
                *old(market),
                *old(taker),
                *old(maker),
                taker_order_index as int,
                maker_order_index as int,
                *fee_structure,
                slot,
            )->Fault_0,
        ),
        !(spec_match_outcome(
            *old(market),
            *old(taker),
            *old(maker),
            taker_order_index as int,
            maker_order_index as int,
            *fee_structure,
            slot,
        ) is Fault) ==> r is Ok,
        final(taker).orders@.len() == old(taker).orders@.len(),
        *final(filler) == *old(filler),
        *final(oracle_map) == *old(oracle_map),
{
    let r = fulfill_order_with_match(
        market,
        taker,
        taker_order_index,
        taker_key,
        maker,
        maker_order_index,
        maker_key,
        filler,
        filler_key,
        now,
        slot,
        fee_structure,
        oracle_map,
        order_records,
    );
    proof {
        reveal(spec_match_leg_rel);
    }
    r
}

/// The fault, if any, that the residual AMM leg hits: a malformed order, a
/// mark price of the relevant spread side that cannot be computed for a
/// limit order with something left to fill, or a fault of the AMM fill
/// itself when the leg runs. `None` means the leg succeeds, whether or not
/// it fills anything.
pub open spec fn spec_residual_fault(
    mkt: Market,
    t1: User,
    ti: int,
    fs: FeeStructure,
    slot: u64,
    limit_price: Option<u128>,
) -> Option<ErrorCode> {
    let o = t1.orders@[ti];
    if !o.is_well_formed() {
        Some(ErrorCode::MathError)
    } else if o.spec_unfilled() == 0 {
        None
    } else if (o.order_type is Limit) && !(match o.direction {
        PositionDirection::Long => spec_reserve_price_ok(
            mkt.amm.ask_quote_asset_reserve as int,
            mkt.amm.ask_base_asset_reserve as int,
            mkt.amm.peg_multiplier as int,
        ),
        PositionDirection::Short => spec_reserve_price_ok(
            mkt.amm.bid_quote_asset_reserve as int,
            mkt.amm.bid_base_asset_reserve as int,
            mkt.amm.peg_multiplier as int,
        ),
    }) {
        Some(ErrorCode::MathError)
    } else if spec_amm_leg_runs(o, mkt, slot, limit_price) {
        match spec_amm_outcome(mkt, t1, ti, fs) {
            MatchOutcome::Fault(e) => Some(e),
            _ => None,
        }
    } else {
        None
    }
}

/// The residual AMM leg as the orchestrator sees it: decides whether the
/// order may fill against the AMM at all, fills the remainder when it may,
/// and on success relates the books to their prior state by
/// `spec_amm_leg_rel`; on a fault nothing is changed.
fn residual_amm_leg(
    market: &mut Market,
    taker: &mut User,
    taker_order_index: usize,
    taker_key: &Pubkey,
    filler_key: &Pubkey,
    fee_structure: &FeeStructure,
    limit_price: Option<u128>,
    now: i64,
    slot: u64,
    order_records: &mut Vec<OrderRecord>,
) -> (r: Result<(u128, u128), ErrorCode>)
    requires
        taker_order_index < old(taker).orders.len(),
    ensures
        r matches Ok(sq) ==> spec_amm_leg_rel(
            *old(market),
            *old(taker),
            taker_order_index as int,
            *fee_structure,
            slot,
            limit_price,
            *final(market),
            *final(taker),
            sq.0,
            sq.1,
        ),
        r is Err ==> {
            &&& *final(market) == *old(market)
            &&& final(taker).spec_eq(*old(taker))
        },
        spec_residual_fault(
            *old(market),
            *old(taker),
            taker_order_index as int,
            *fee_structure,
            slot,
            limit_price,
        ) is Some ==> r == Err::<(u128, u128), ErrorCode>(
            spec_residual_fault(
                *old(market),
                *old(taker),
                taker_order_index as int,
                *fee_structure,
                slot,
                limit_price,
            )->Some_0,
        ),
        spec_residual_fault(
            *old(market),
            *old(taker),
            taker_order_index as int,
            *fee_structure,
            slot,
            limit_price,
        ) is None ==> r is Ok,
{
    let o = taker.orders[taker_order_index];
    let unfilled = match o.get_base_asset_amount_unfilled() {
        Ok(v) => v,
        Err(ec) => { return Err(ec); },
    };
    let amm_runs: bool;
    if unfilled == 0 {
        amm_runs = false;
    } else {
        match o.order_type {
            OrderType::Market => {
                amm_runs = slot >= auction_complete_slot(&o);
            },
            OrderType::Limit => {
                let lp = match limit_price {
                    Some(p) => p,
                    None => o.price,
                };
                match o.direction {
                    PositionDirection::Long => {
                        let ask_price = match calculate_price(
                            market.amm.ask_quote_asset_reserve,
                            market.amm.ask_base_asset_reserve,
                            market.amm.peg_multiplier,
                        ) {
                            Ok(v) => v,
                            Err(ec) => { return Err(ec); },
                        };
                        amm_runs = lp >= ask_price;
                    },
                    PositionDirection::Short => {
                        let bid_price = match calculate_price(
                            market.amm.bid_quote_asset_reserve,
                            market.amm.bid_base_asset_reserve,
                            market.amm.peg_multiplier,
                        ) {
                            Ok(v) => v,
                            Err(ec) => { return Err(ec); },
                        };
                        amm_runs = lp <= bid_price;
                    },
                }
            },
        }
    }
    if !amm_runs {
        proof {
            reveal(spec_amm_leg_rel);
        }
        return Ok((0, 0));
    }
    let r = fulfill_order_with_amm(
        market,
        taker,
        taker_order_index,
        taker_key,
        filler_key,
        fee_structure,
        now,
        slot,
        order_records,
    );
    proof {
        reveal(spec_amm_leg_rel);
    }
    match r {
        Ok(v) => Ok(v),
        Err(ec) => Err(ec),
    }
}

} // verus!



