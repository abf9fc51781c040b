//! Deposit banks: the collateral side of the margin check.

use vstd::prelude::*;

verus! {

/// Where a bank's token price comes from: the quote asset itself (price of
/// one), or an external price feed looked up by `oracle_id`.
#[derive(Clone, Copy, Debug, PartialEq, Eq, Structural)]
pub enum OracleSource {
    QuoteAsset,
    External,
}

/// One deposit bank: interest accumulator, token decimals, and the margin
/// weights its balances carry.
#[derive(Clone, Copy, Debug, PartialEq, Eq, Structural)]
pub struct Bank {
    pub bank_index: u64,
    pub oracle_source: OracleSource,
    pub oracle_id: u64,
    pub cumulative_deposit_interest: u128,
    pub decimals: u32,
    pub initial_asset_weight: u128,
    pub initial_liability_weight: u128,
}

impl Bank {
    /// A zeroed bank priced as the quote asset.
    pub open spec fn spec_default() -> Bank {
        Bank {
            bank_index: 0,
            oracle_source: OracleSource::QuoteAsset,
            oracle_id: 0,
            cumulative_deposit_interest: 0,
            decimals: 0,
            initial_asset_weight: 0,
            initial_liability_weight: 0,
        }
    }
}

impl Default for Bank {
    /// A zeroed bank priced as the quote asset.
    fn default() -> (r: Bank)
        ensures
            r == Bank::spec_default(),
    {
        Bank {
            bank_index: 0,
            oracle_source: OracleSource::QuoteAsset,
            oracle_id: 0,
            cumulative_deposit_interest: 0,
            decimals: 0,
            initial_asset_weight: 0,
            initial_liability_weight: 0,
        }
    }
}

/// An optional index shifted by a constant offset.
pub open spec fn spec_shift_bank_index(o: Option<int>, k: int) -> Option<int> {
    match o {
        Some(j) => Some(j + k),
        None => None,
    }
}

/// Position of a bank index inside a bank sequence: the first element whose
/// `bank_index` matches, if any.
pub open spec fn spec_find_bank(banks: Seq<Bank>, bank_index: u64) -> Option<int>
    decreases banks.len(),
{
    if banks.len() == 0 {
        None
    } else if banks[0].bank_index == bank_index {
        Some(0)
    } else {
        spec_shift_bank_index(spec_find_bank(banks.skip(1), bank_index), 1)
    }
}

/// Stepping the search past a non-matching element keeps the result,
/// shifted by one.
proof fn lemma_find_bank_step(banks: Seq<Bank>, i: int, bank_index: u64)
    requires
        0 <= i < banks.len(),
        banks[i].bank_index != bank_index,
    ensures
        spec_find_bank(banks.skip(i), bank_index) == spec_shift_bank_index(
            spec_find_bank(banks.skip(i + 1), bank_index),
            1,
        ),
{
    assert(banks.skip(i)[0] == banks[i]);
    assert(banks.skip(i).skip(1) =~= banks.skip(i + 1));
}

/// The deposit banks available to one fulfillment call.
#[derive(Clone, Debug, PartialEq, Eq)]
pub struct BankMap {
    pub banks: Vec<Bank>,
}

impl BankMap {
    /// A collection holding a single bank.
    pub fn load_one(bank: Bank) -> (r: BankMap)
        ensures
            r.banks@ == seq![bank],
    {
        let mut banks: Vec<Bank> = Vec::new();
        banks.push(bank);
        proof {
            assert(banks@ =~= seq![bank]);
        }
        BankMap { banks }
    }

    /// A copy of the bank with the given bank index, if present.
    pub fn get_bank(&self, bank_index: u64) -> (r: Option<Bank>)
        ensures
            r is Some ==> {
                &&& spec_find_bank(self.banks@, bank_index) is Some
                &&& r->Some_0 == self.banks@[spec_find_bank(self.banks@, bank_index)->Some_0]
                &&& r->Some_0.bank_index == bank_index
            },
            r is None ==> spec_find_bank(self.banks@, bank_index) is None,
    {
        proof {
            assert(self.banks@.skip(0) =~= self.banks@);
        }
        let mut i: usize = 0;
        while i < self.banks.len()
            invariant
                i <= self.banks.len(),
                spec_find_bank(self.banks@, bank_index) == spec_shift_bank_index(
                    spec_find_bank(self.banks@.skip(i as int), bank_index),
                    i as int,
                ),
            decreases self.banks.len() - i,
        {
            if self.banks[i].bank_index == bank_index {
                proof {
                    assert(self.banks@.skip(i as int)[0] == self.banks@[i as int]);
                }
                return Some(self.banks[i]);
            }
            proof {
                lemma_find_bank_step(self.banks@, i as int, bank_index);
            }
            i = i + 1;
        }
        proof {
            assert(self.banks@.skip(i as int).len() == 0);
        }
        None
    }
}

} // verus!
