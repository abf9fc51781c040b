//! Oracle prices, consumed by the margin check only: a trade price never
//! comes from an oracle.

use vstd::prelude::*;

verus! {

/// One oracle price, in mark-price precision, keyed by an oracle identifier.
#[derive(Clone, Copy, Debug, PartialEq, Eq, Structural)]
pub struct OraclePriceEntry {
    pub oracle_id: u64,
    pub price: u128,
}

/// An optional index shifted by a constant offset.
pub open spec fn spec_shift_oracle_index(o: Option<int>, k: int) -> Option<int> {
    match o {
        Some(j) => Some(j + k),
        None => None,
    }
}

/// Position of an oracle identifier inside a price sequence: the first
/// element whose `oracle_id` matches, if any.
pub open spec fn spec_find_oracle(prices: Seq<OraclePriceEntry>, oracle_id: u64) -> Option<int>
    decreases prices.len(),
{
    if prices.len() == 0 {
        None
    } else if prices[0].oracle_id == oracle_id {
        Some(0)
    } else {
        spec_shift_oracle_index(spec_find_oracle(prices.skip(1), oracle_id), 1)
    }
}

/// Stepping the search past a non-matching element keeps the result,
/// shifted by one.
proof fn lemma_find_oracle_step(prices: Seq<OraclePriceEntry>, i: int, oracle_id: u64)
    requires
        0 <= i < prices.len(),
        prices[i].oracle_id != oracle_id,
    ensures
        spec_find_oracle(prices.skip(i), oracle_id) == spec_shift_oracle_index(
            spec_find_oracle(prices.skip(i + 1), oracle_id),
            1,
        ),
{
    assert(prices.skip(i)[0] == prices[i]);
    assert(prices.skip(i).skip(1) =~= prices.skip(i + 1));
}

/// The oracle prices available to one fulfillment call.
#[derive(Clone, Debug, PartialEq, Eq)]
pub struct OracleMap {
    pub prices: Vec<OraclePriceEntry>,
}

impl OracleMap {
    /// A map holding no prices.
    pub fn empty() -> (r: OracleMap)
        ensures
            r.prices@ == Seq::<OraclePriceEntry>::empty(),
    {
        OracleMap { prices: Vec::new() }
    }

    /// The price of the given oracle, if supplied.
    pub fn get_price(&self, oracle_id: u64) -> (r: Option<u128>)
        ensures
            r is Some ==> {
                &&& spec_find_oracle(self.prices@, oracle_id) is Some
                &&& r->Some_0 == self.prices@[spec_find_oracle(self.prices@, oracle_id)->Some_0].price
            },
            r is None ==> spec_find_oracle(self.prices@, oracle_id) is None,
    {
        proof {
            assert(self.prices@.skip(0) =~= self.prices@);
        }
        let mut i: usize = 0;
        while i < self.prices.len()
            invariant
                i <= self.prices.len(),
                spec_find_oracle(self.prices@, oracle_id) == spec_shift_oracle_index(
                    spec_find_oracle(self.prices@.skip(i as int), oracle_id),
                    i as int,
                ),
            decreases self.prices.len() - i,
        {
            if self.prices[i].oracle_id == oracle_id {
                proof {
                    assert(self.prices@.skip(i as int)[0] == self.prices@[i as int]);
                }
                return Some(self.prices[i].price);
            }
            proof {
                lemma_find_oracle_step(self.prices@, i as int, oracle_id);
            }
            i = i + 1;
        }
        proof {
            assert(self.prices@.skip(i as int).len() == 0);
        }
        None
    }
}

/// An oracle map with no prices: enough for margin checks whose banks are
/// priced as the quote asset.
pub fn get_oracle_map() -> (r: OracleMap)
    ensures
        r.prices@ == Seq::<OraclePriceEntry>::empty(),
{
    OracleMap::empty()
}

} // verus!
