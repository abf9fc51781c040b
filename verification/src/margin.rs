//! The post-trade margin guard.
//!
//! After a tentative fill is applied in memory, the taker's account health is
//! recomputed: weighted deposit collateral plus unsettled profit and loss
//! must cover the initial margin requirement of every open position, valued
//! by closing it against its market's canonical reserves. An insufficient
//! account is a normal market condition, not an error: the orchestrator
//! rolls the fill back and reports a zero fill.

use vstd::prelude::*;

use crate::amm::{calculate_base_asset_value, spec_base_asset_value, spec_base_asset_value_ok};
use crate::bank::{spec_find_bank, Bank, BankMap, OracleSource};
use crate::constants::{
    BANK_CUMULATIVE_INTEREST_PRECISION, BANK_WEIGHT_PRECISION, MARGIN_PRECISION,
    MARK_PRICE_PRECISION, QUOTE_PRECISION,
};
use crate::errors::ErrorCode;
use crate::market::{spec_find_market, Market, MarketMap};
use crate::math::{add_i128, mul_u128, u128_to_i128};
use crate::oracle::{spec_find_oracle, OracleMap, OraclePriceEntry};
use crate::position::MarketPosition;
use crate::user::{BankBalanceType, User, UserBankBalance};

verus! {

/// Ten to the `n`th power.
pub open spec fn spec_pow10(n: nat) -> int
    decreases n,
{
    if n == 0 {
        1
    } else {
        10 * spec_pow10((n - 1) as nat)
    }
}

/// Powers of ten are positive.
pub proof fn lemma_pow10_pos(n: nat)
    ensures
        spec_pow10(n) >= 1,
    decreases n,
{
    if n > 0 {
        lemma_pow10_pos((n - 1) as nat);
    }
}

/// Powers of ten grow with the exponent.
pub proof fn lemma_pow10_monotone(a: nat, b: nat)
    requires
        a <= b,
    ensures
        spec_pow10(a) <= spec_pow10(b),
    decreases b,
{
    if a < b {
        lemma_pow10_monotone(a, (b - 1) as nat);
        lemma_pow10_pos((b - 1) as nat);
    }
}

/// Ten to the `n`th power as a machine amount; a math error when it does not
/// fit.
pub fn pow10_u128(n: u32) -> (r: Result<u128, ErrorCode>)
    ensures
        spec_pow10(n as nat) <= u128::MAX ==> r == Ok::<u128, ErrorCode>(
            spec_pow10(n as nat) as u128,
        ),
        spec_pow10(n as nat) > u128::MAX ==> r == Err::<u128, ErrorCode>(ErrorCode::MathError),
{
    let mut acc: u128 = 1;
    let mut i: u32 = 0;
    while i < n
        invariant
            i <= n,
            acc == spec_pow10(i as nat),
        decreases n - i,
    {
        acc = match acc.checked_mul(10) {
            Some(v) => v,
            None => {
                proof {
                    assert(spec_pow10((i + 1) as nat) == 10 * spec_pow10(i as nat));
                    lemma_pow10_monotone((i + 1) as nat, n as nat);
                }
                return Err(ErrorCode::MathError);
            },
        };
        proof {
            assert(spec_pow10((i + 1) as nat) == 10 * spec_pow10(i as nat));
        }
        i = i + 1;
    }
    Ok(acc)
}

/// A balance with its bank's interest accrued, in the token's precision.
pub open spec fn spec_token_amount(balance: int, bank: Bank) -> int {
    balance * bank.cumulative_deposit_interest / BANK_CUMULATIVE_INTEREST_PRECISION as int
}

/// A token amount rescaled to quote precision.
pub open spec fn spec_quote_units(token: int, bank: Bank) -> int {
    token * QUOTE_PRECISION / spec_pow10(bank.decimals as nat)
}

/// The signed collateral contribution of one bank balance: interest accrued,
/// rescaled to quote precision, priced by the bank's oracle source, weighted
/// by the bank's asset or liability weight, and negated for a borrow.
pub open spec fn spec_balance_collateral(
    bal: UserBankBalance,
    banks: Seq<Bank>,
    oracles: Seq<OraclePriceEntry>,
) -> Result<int, ErrorCode> {
    match spec_find_bank(banks, bal.bank_index) {
        None => Err(ErrorCode::BankNotFound),
        Some(bi) => {
            let bank = banks[bi];
            if bal.balance * bank.cumulative_deposit_interest > u128::MAX {
                Err(ErrorCode::MathError)
            } else {
                let token = spec_token_amount(bal.balance as int, bank);
                if spec_pow10(bank.decimals as nat) > u128::MAX {
                    Err(ErrorCode::MathError)
                } else if token * QUOTE_PRECISION > u128::MAX {
                    Err(ErrorCode::MathError)
                } else {
                    let quote_units = spec_quote_units(token, bank);
                    let priced: Result<int, ErrorCode> = match bank.oracle_source {
                        OracleSource::QuoteAsset => Ok(quote_units),
                        OracleSource::External => match spec_find_oracle(oracles, bank.oracle_id) {
                            None => Err(ErrorCode::OracleNotFound),
                            Some(oi) => {
                                let price = oracles[oi].price as int;
                                if quote_units * price > u128::MAX {
                                    Err(ErrorCode::MathError)
                                } else {
                                    Ok(quote_units * price / MARK_PRICE_PRECISION as int)
                                }
                            },
                        },
                    };
                    match priced {
                        Err(e) => Err(e),
                        Ok(v) => {
                            let weight = match bal.balance_type {
                                BankBalanceType::Deposit => bank.initial_asset_weight as int,
                                BankBalanceType::Borrow => bank.initial_liability_weight as int,
                            };
                            if v * weight > u128::MAX {
                                Err(ErrorCode::MathError)
                            } else {
                                let weighted = v * weight / BANK_WEIGHT_PRECISION as int;
                                if weighted > i128::MAX {
                                    Err(ErrorCode::MathError)
                                } else {
                                    match bal.balance_type {
                                        BankBalanceType::Deposit => Ok(weighted),
                                        BankBalanceType::Borrow => Ok(-weighted),
                                    }
                                }
                            }
                        },
                    }
                }
            }
        },
    }
}

/// The signed collateral contribution of one bank balance.
pub fn balance_collateral(
    bal: &UserBankBalance,
    bank_map: &BankMap,
    oracle_map: &OracleMap,
) -> (r: Result<i128, ErrorCode>)
    ensures
        match spec_balance_collateral(*bal, bank_map.banks@, oracle_map.prices@) {
            Ok(v) => r == Ok::<i128, ErrorCode>(v as i128) && i128::MIN <= v <= i128::MAX,
            Err(e) => r == Err::<i128, ErrorCode>(e),
        },
{
    let bank = match bank_map.get_bank(bal.bank_index) {
        Some(b) => b,
        None => { return Err(ErrorCode::BankNotFound); },
    };
    let interest_product = match mul_u128(bal.balance, bank.cumulative_deposit_interest) {
        Ok(v) => v,
        Err(ec) => { return Err(ec); },
    };
    let token = interest_product / BANK_CUMULATIVE_INTEREST_PRECISION;
    let divisor = match pow10_u128(bank.decimals) {
        Ok(v) => v,
        Err(ec) => { return Err(ec); },
    };
    let quote_product = match mul_u128(token, QUOTE_PRECISION) {
        Ok(v) => v,
        Err(ec) => { return Err(ec); },
    };
    proof {
        lemma_pow10_pos(bank.decimals as nat);
    }
    let quote_units = quote_product / divisor;
    let priced: u128 = match bank.oracle_source {
        OracleSource::QuoteAsset => quote_units,
        OracleSource::External => {
            let price = match oracle_map.get_price(bank.oracle_id) {
                Some(p) => p,
                None => { return Err(ErrorCode::OracleNotFound); },
            };
            let priced_product = match mul_u128(quote_units, price) {
                Ok(v) => v,
                Err(ec) => { return Err(ec); },
            };
            priced_product / MARK_PRICE_PRECISION
        },
    };
    let weight = match bal.balance_type {
        BankBalanceType::Deposit => bank.initial_asset_weight,
        BankBalanceType::Borrow => bank.initial_liability_weight,
    };
    let weight_product = match mul_u128(priced, weight) {
        Ok(v) => v,
        Err(ec) => { return Err(ec); },
    };
    let weighted = weight_product / BANK_WEIGHT_PRECISION;
    let weighted_i = match u128_to_i128(weighted) {
        Ok(v) => v,
        Err(ec) => { return Err(ec); },
    };
    match bal.balance_type {
        BankBalanceType::Deposit => Ok(weighted_i),
        BankBalanceType::Borrow => Ok(-weighted_i),
    }
}

/// Folding the signed collateral contributions of the balances onto an
/// accumulator, failing on the first invalid balance or overflowing sum.
pub open spec fn spec_collateral_loop(
    balances: Seq<UserBankBalance>,
    banks: Seq<Bank>,
    oracles: Seq<OraclePriceEntry>,
    acc: int,
) -> Result<int, ErrorCode>
    decreases balances.len(),
{
    if balances.len() == 0 {
        Ok(acc)
    } else {
        match spec_balance_collateral(balances[0], banks, oracles) {
            Err(e) => Err(e),
            Ok(v) => if i128::MIN <= acc + v <= i128::MAX {
                spec_collateral_loop(balances.skip(1), banks, oracles, acc + v)
            } else {
                Err(ErrorCode::MathError)
            },
        }
    }
}

/// Folding the positions' unsettled profit and loss onto an accumulator.
pub open spec fn spec_pnl_loop(positions: Seq<MarketPosition>, acc: int) -> Result<int, ErrorCode>
    decreases positions.len(),
{
    if positions.len() == 0 {
        Ok(acc)
    } else {
        let v = positions[0].unsettled_pnl as int;
        if i128::MIN <= acc + v <= i128::MAX {
            spec_pnl_loop(positions.skip(1), acc + v)
        } else {
            Err(ErrorCode::MathError)
        }
    }
}

/// The initial margin one position requires: the quote value of closing it
/// against its market's canonical reserves, scaled by the market's initial
/// margin ratio. A flat position requires nothing.
pub open spec fn spec_position_requirement(p: MarketPosition, markets: Seq<Market>) -> Result<
    int,
    ErrorCode,
> {
    if p.base_asset_amount == 0 {
        Ok(0)
    } else {
        match spec_find_market(markets, p.market_index) {
            None => Err(ErrorCode::MarketNotFound),
            Some(mi) => {
                let m = markets[mi];
                if !spec_base_asset_value_ok(p.base_asset_amount as int, m.amm) {
                    Err(ErrorCode::MathError)
                } else {
                    let value = spec_base_asset_value(p.base_asset_amount as int, m.amm);
                    if value * m.margin_ratio_initial > u128::MAX {
                        Err(ErrorCode::MathError)
                    } else {
                        Ok(value * m.margin_ratio_initial / MARGIN_PRECISION as int)
                    }
                }
            },
        }
    }
}

/// The initial margin one position requires.
pub fn position_requirement(p: &MarketPosition, market_map: &MarketMap) -> (r: Result<
    u128,
    ErrorCode,
>)
    ensures
        match spec_position_requirement(*p, market_map.markets@) {
            Ok(v) => r == Ok::<u128, ErrorCode>(v as u128) && 0 <= v <= u128::MAX,
            Err(e) => r == Err::<u128, ErrorCode>(e),
        },
{
    if p.base_asset_amount == 0 {
        return Ok(0);
    }
    let market = match market_map.get_market(p.market_index) {
        Some(m) => m,
        None => { return Err(ErrorCode::MarketNotFound); },
    };
    let value = match calculate_base_asset_value(p.base_asset_amount, &market.amm) {
        Ok(v) => v,
        Err(ec) => { return Err(ec); },
    };
    let product = match mul_u128(value, market.margin_ratio_initial as u128) {
        Ok(v) => v,
        Err(ec) => { return Err(ec); },
    };
    Ok(product / MARGIN_PRECISION)
}

/// Folding the positions' margin requirements onto an accumulator.
pub open spec fn spec_requirement_loop(
    positions: Seq<MarketPosition>,
    markets: Seq<Market>,
    acc: int,
) -> Result<int, ErrorCode>
    decreases positions.len(),
{
    if positions.len() == 0 {
        Ok(acc)
    } else {
        match spec_position_requirement(positions[0], markets) {
            Err(e) => Err(e),
            Ok(v) => if acc + v <= u128::MAX {
                spec_requirement_loop(positions.skip(1), markets, acc + v)
            } else {
                Err(ErrorCode::MathError)
            },
        }
    }
}

/// The margin verdict on a user: weighted deposit collateral plus unsettled
/// profit and loss, against the summed initial margin requirements; `Ok` of
/// whether the account is sufficiently collateralized, or the first error
/// the evaluation hits.
pub open spec fn spec_margin_evaluation(
    user: User,
    markets: Seq<Market>,
    banks: Seq<Bank>,
    oracles: Seq<OraclePriceEntry>,
) -> Result<bool, ErrorCode> {
    match spec_collateral_loop(user.bank_balances@, banks, oracles, 0) {
        Err(e) => Err(e),
        Ok(deposits) => match spec_pnl_loop(user.positions@, deposits) {
            Err(e) => Err(e),
            Ok(collateral) => match spec_requirement_loop(user.positions@, markets, 0) {
                Err(e) => Err(e),
                Ok(requirement) => if requirement <= i128::MAX {
                    Ok(collateral >= requirement)
                } else {
                    Err(ErrorCode::MathError)
                },
            },
        },
    }
}

/// Whether the user meets the initial margin requirement, evaluated on the
/// current in-memory state.
pub fn meets_initial_margin_requirement(
    user: &User,
    market_map: &MarketMap,
    bank_map: &BankMap,
    oracle_map: &OracleMap,
) -> (r: Result<bool, ErrorCode>)
    ensures
        r == spec_margin_evaluation(
            *user,
            market_map.markets@,
            bank_map.banks@,
            oracle_map.prices@,
        ),
{
    proof {
        assert(user.bank_balances@.skip(0) =~= user.bank_balances@);
    }
    let mut deposits: i128 = 0;
    let mut i: usize = 0;
    while i < user.bank_balances.len()
        invariant
            i <= user.bank_balances.len(),
            spec_collateral_loop(user.bank_balances@, bank_map.banks@, oracle_map.prices@, 0)
                == spec_collateral_loop(
                user.bank_balances@.skip(i as int),
                bank_map.banks@,
                oracle_map.prices@,
                deposits as int,
            ),
        decreases user.bank_balances.len() - i,
    {
        proof {
            assert(user.bank_balances@.skip(i as int)[0] == user.bank_balances@[i as int]);
            assert(user.bank_balances@.skip(i as int).skip(1) =~= user.bank_balances@.skip(
                i as int + 1,
            ));
        }
        let v = match balance_collateral(&user.bank_balances[i], bank_map, oracle_map) {
            Ok(v) => v,
            Err(ec) => { return Err(ec); },
        };
        deposits = match add_i128(deposits, v) {
            Ok(v) => v,
            Err(ec) => { return Err(ec); },
        };
        i = i + 1;
    }

    proof {
        assert(user.bank_balances@.skip(i as int).len() == 0);
        assert(user.positions@.skip(0) =~= user.positions@);
    }
    let ghost deposits0: int = deposits as int;
    let mut collateral: i128 = deposits;
    let mut j: usize = 0;
    while j < user.positions.len()
        invariant
            j <= user.positions.len(),
            deposits0 == deposits as int,
            spec_collateral_loop(user.bank_balances@, bank_map.banks@, oracle_map.prices@, 0)
                == Ok::<int, ErrorCode>(deposits0),
            spec_pnl_loop(user.positions@, deposits0) == spec_pnl_loop(
                user.positions@.skip(j as int),
                collateral as int,
            ),
        decreases user.positions.len() - j,
    {
        proof {
            assert(user.positions@.skip(j as int)[0] == user.positions@[j as int]);
            assert(user.positions@.skip(j as int).skip(1) =~= user.positions@.skip(j as int + 1));
        }
        collateral = match add_i128(collateral, user.positions[j].unsettled_pnl) {
            Ok(v) => v,
            Err(ec) => { return Err(ec); },
        };
        j = j + 1;
    }

    proof {
        assert(user.positions@.skip(j as int).len() == 0);
        assert(user.positions@.skip(0) =~= user.positions@);
    }
    let ghost collateral0: int = collateral as int;
    let mut requirement: u128 = 0;
    let mut k: usize = 0;
    while k < user.positions.len()
        invariant
            k <= user.positions.len(),
            collateral0 == collateral as int,
            spec_collateral_loop(user.bank_balances@, bank_map.banks@, oracle_map.prices@, 0)
                == Ok::<int, ErrorCode>(deposits0),
            spec_pnl_loop(user.positions@, deposits0) == Ok::<int, ErrorCode>(collateral0),
            spec_requirement_loop(user.positions@, market_map.markets@, 0)
                == spec_requirement_loop(
                user.positions@.skip(k as int),
                market_map.markets@,
                requirement as int,
            ),
        decreases user.positions.len() - k,
    {
        proof {
            assert(user.positions@.skip(k as int)[0] == user.positions@[k as int]);
            assert(user.positions@.skip(k as int).skip(1) =~= user.positions@.skip(k as int + 1));
        }
        let v = match position_requirement(&user.positions[k], market_map) {
            Ok(v) => v,
            Err(ec) => { return Err(ec); },
        };
        requirement = match crate::math::add_u128(requirement, v) {
            Ok(v) => v,
            Err(ec) => { return Err(ec); },
        };
        k = k + 1;
    }

    proof {
        assert(user.positions@.skip(k as int).len() == 0);
    }
    let requirement_i = match u128_to_i128(requirement) {
        Ok(v) => v,
        Err(ec) => { return Err(ec); },
    };
    Ok(collateral >= requirement_i)
}

} // verus!
