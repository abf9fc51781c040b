//! The market aggregate and its virtual AMM state, and the market collection
//! handed to a fulfillment call.

use vstd::prelude::*;

use crate::errors::ErrorCode;

verus! {

/// Virtual constant-product reserves and aggregate bookkeeping of one market.
///
/// The canonical reserve pair prices the mid market; the bid and ask pairs
/// carry the spread. `sqrt_k` is the square root of the curve invariant.
#[derive(Clone, Copy, Debug, PartialEq, Eq, Structural)]
pub struct AMM {
    pub base_asset_reserve: u128,
    pub quote_asset_reserve: u128,
    pub bid_base_asset_reserve: u128,
    pub bid_quote_asset_reserve: u128,
    pub ask_base_asset_reserve: u128,
    pub ask_quote_asset_reserve: u128,
    pub sqrt_k: u128,
    pub peg_multiplier: u128,
    /// Net base asset the users hold against the market, signed.
    pub net_base_asset_amount: i128,
    /// Cumulative quote traded by long positions.
    pub quote_asset_amount_long: u128,
    /// Cumulative quote traded by short positions.
    pub quote_asset_amount_short: u128,
    /// Cumulative fee revenue, including AMM spread surplus.
    pub total_fee: u128,
    /// Fee revenue minus what was distributed elsewhere.
    pub total_fee_minus_distributions: i128,
    /// Fee revenue accrued since the last funding settlement.
    pub net_revenue_since_last_funding: i64,
}

impl AMM {
    /// All reserves and counters zero.
    pub open spec fn spec_default() -> AMM {
        AMM {
            base_asset_reserve: 0,
            quote_asset_reserve: 0,
            bid_base_asset_reserve: 0,
            bid_quote_asset_reserve: 0,
            ask_base_asset_reserve: 0,
            ask_quote_asset_reserve: 0,
            sqrt_k: 0,
            peg_multiplier: 0,
            net_base_asset_amount: 0,
            quote_asset_amount_long: 0,
            quote_asset_amount_short: 0,
            total_fee: 0,
            total_fee_minus_distributions: 0,
            net_revenue_since_last_funding: 0,
        }
    }
}

impl Default for AMM {
    /// All reserves and counters zero.
    fn default() -> (r: AMM)
        ensures
            r == AMM::spec_default(),
    {
        AMM {
            base_asset_reserve: 0,
            quote_asset_reserve: 0,
            bid_base_asset_reserve: 0,
            bid_quote_asset_reserve: 0,
            ask_base_asset_reserve: 0,
            ask_quote_asset_reserve: 0,
            sqrt_k: 0,
            peg_multiplier: 0,
            net_base_asset_amount: 0,
            quote_asset_amount_long: 0,
            quote_asset_amount_short: 0,
            total_fee: 0,
            total_fee_minus_distributions: 0,
            net_revenue_since_last_funding: 0,
        }
    }
}

/// One perpetual market: its AMM state, aggregate exposure on each side, the
/// unsettled profit and loss pools, and the margin-ratio schedule.
#[derive(Clone, Copy, Debug, PartialEq, Eq, Structural)]
pub struct Market {
    pub market_index: u64,
    pub initialized: bool,
    pub amm: AMM,
    /// Aggregate base held by long positions; non-negative.
    pub base_asset_amount_long: i128,
    /// Aggregate base held by short positions; non-positive.
    pub base_asset_amount_short: i128,
    /// Aggregate positive unsettled profit across users.
    pub unsettled_profit: u128,
    /// Aggregate unsettled loss across users.
    pub unsettled_loss: u128,
    pub margin_ratio_initial: u32,
    pub margin_ratio_partial: u32,
    pub margin_ratio_maintenance: u32,
}

impl Market {
    /// An uninitialized market: every counter zero.
    pub open spec fn spec_default() -> Market {
        Market {
            market_index: 0,
            initialized: false,
            amm: AMM::spec_default(),
            base_asset_amount_long: 0,
            base_asset_amount_short: 0,
            unsettled_profit: 0,
            unsettled_loss: 0,
            margin_ratio_initial: 0,
            margin_ratio_partial: 0,
            margin_ratio_maintenance: 0,
        }
    }
}

impl Default for Market {
    /// An uninitialized market: every counter zero.
    fn default() -> (r: Market)
        ensures
            r == Market::spec_default(),
    {
        Market {
            market_index: 0,
            initialized: false,
            amm: AMM::default(),
            base_asset_amount_long: 0,
            base_asset_amount_short: 0,
            unsettled_profit: 0,
            unsettled_loss: 0,
            margin_ratio_initial: 0,
            margin_ratio_partial: 0,
            margin_ratio_maintenance: 0,
        }
    }
}

/// An optional index shifted by a constant offset.
pub open spec fn spec_shift_index(o: Option<int>, k: int) -> Option<int> {
    match o {
        Some(j) => Some(j + k),
        None => None,
    }
}

/// Position of a market index inside a market sequence: the first element
/// whose `market_index` matches, if any.
pub open spec fn spec_find_market(markets: Seq<Market>, market_index: u64) -> Option<int>
    decreases markets.len(),
{
    if markets.len() == 0 {
        None
    } else if markets[0].market_index == market_index {
        Some(0)
    } else {
        match spec_find_market(markets.skip(1), market_index) {
            Some(i) => Some(i + 1),
            None => None,
        }
    }
}

/// The markets available to one fulfillment call, already loaded and
/// validated by the caller. At most one market per market index is expected;
/// lookups return the first match.
#[derive(Clone, Debug, PartialEq, Eq)]
pub struct MarketMap {
    pub markets: Vec<Market>,
}

impl MarketMap {
    /// A collection holding a single market.
    pub fn load_one(market: Market) -> (r: MarketMap)
        ensures
            r.markets@ == seq![market],
    {
        let mut markets: Vec<Market> = Vec::new();
        markets.push(market);
        proof {
            assert(markets@ =~= seq![market]);
        }
        MarketMap { markets }
    }

    /// Index of the market with the given market index, if present.
    pub fn find(&self, market_index: u64) -> (r: Option<usize>)
        ensures
            r is Some ==> {
                &&& spec_find_market(self.markets@, market_index) == Some(r->Some_0 as int)
                &&& r->Some_0 < self.markets@.len()
                &&& self.markets@[r->Some_0 as int].market_index == market_index
            },
            r is None ==> spec_find_market(self.markets@, market_index) is None,
    {
        proof {
            assert(self.markets@.skip(0) =~= self.markets@);
        }
        let mut i: usize = 0;
        while i < self.markets.len()
            invariant
                i <= self.markets.len(),
                forall|x: int| 0 <= x < i ==> self.markets@[x].market_index != market_index,
                spec_find_market(self.markets@, market_index) == spec_shift_index(
                    spec_find_market(self.markets@.skip(i as int), market_index),
                    i as int,
                ),
            decreases self.markets.len() - i,
        {
            if self.markets[i].market_index == market_index {
                proof {
                    assert(self.markets@.skip(i as int)[0] == self.markets@[i as int]);
                }
                return Some(i);
            }
            proof {
                lemma_find_market_step(self.markets@, i as int, market_index);
            }
            i = i + 1;
        }
        proof {
            assert(self.markets@.skip(i as int).len() == 0);
        }
        None
    }

    /// A copy of the market with the given market index, if present.
    pub fn get_market(&self, market_index: u64) -> (r: Option<Market>)
        ensures
            r is Some ==> {
                &&& spec_find_market(self.markets@, market_index) is Some
                &&& 0 <= spec_find_market(self.markets@, market_index)->Some_0
                    < self.markets@.len()
                &&& r->Some_0 == self.markets@[spec_find_market(self.markets@, market_index)->Some_0]
                &&& r->Some_0.market_index == market_index
            },
            r is None ==> spec_find_market(self.markets@, market_index) is None,
    {
        match self.find(market_index) {
            Some(i) => Some(self.markets[i]),
            None => None,
        }
    }

    /// Replaces the market with the same market index by the given value.
    /// Returns false, changing nothing, when the index is not present.
    pub fn put_market(&mut self, market: Market) -> (r: bool)
        ensures
            r ==> {
                &&& spec_find_market(old(self).markets@, market.market_index) is Some
                &&& final(self).markets@ == old(self).markets@.update(
                    spec_find_market(old(self).markets@, market.market_index)->Some_0,
                    market,
                )
            },
            !r ==> {
                &&& spec_find_market(old(self).markets@, market.market_index) is None
                &&& final(self).markets@ == old(self).markets@
            },
    {
        match self.find(market.market_index) {
            Some(i) => {
                self.markets[i] = market;
                true
            }
            None => false,
        }
    }
}

/// Replacing the found market by one with the same market index leaves the
/// search result unchanged.
pub proof fn lemma_find_market_update(markets: Seq<Market>, i: int, m: Market, market_index: u64)
    requires
        spec_find_market(markets, market_index) == Some(i),
        m.market_index == market_index,
        0 <= i < markets.len(),
    ensures
        spec_find_market(markets.update(i, m), market_index) == Some(i),
    decreases markets.len(),
{
    if i == 0 {
        assert(markets.update(0, m)[0] == m);
    } else {
        assert(markets[0].market_index != market_index);
        assert(markets.update(i, m)[0] == markets[0]);
        assert(markets.skip(1).update(i - 1, m) =~= markets.update(i, m).skip(1));
        match spec_find_market(markets.skip(1), market_index) {
            Some(j) => {
                assert(j == i - 1);
                lemma_find_market_update(markets.skip(1), i - 1, m, market_index);
            },
            None => {
                assert(false);
            },
        }
    }
}

/// Stepping the search for a market index past a non-matching element keeps
/// the result, shifted by one.
proof fn lemma_find_market_step(markets: Seq<Market>, i: int, market_index: u64)
    requires
        0 <= i < markets.len(),
        markets[i].market_index != market_index,
    ensures
        spec_find_market(markets.skip(i), market_index) == spec_shift_index(
            spec_find_market(markets.skip(i + 1), market_index),
            1,
        ),
{
    assert(markets.skip(i)[0] == markets[i]);
    assert(markets.skip(i).skip(1) =~= markets.skip(i + 1));
}

} // verus!
