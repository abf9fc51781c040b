//! Constant-product swaps against the market's virtual reserves.
//!
//! A fill against the AMM moves the base reserve by the fill size and
//! recomputes the quote reserve from the curve invariant `sqrt_k * sqrt_k`.
//! The quote the taker settles is computed against the bid- or ask-side
//! reserve pair (which carries the spread); the canonical reserve pair is
//! what the market state keeps, and the difference between the two quote
//! amounts is a surplus that accrues to the market's fee pool. A long taker
//! pays one extra quote unit, so truncation never favors the user.

use vstd::prelude::*;

use crate::constants::{AMM_TIMES_PEG_TO_QUOTE_PRECISION_RATIO, PRICE_TO_PEG_PRECISION_RATIO};
use crate::errors::ErrorCode;
use crate::market::AMM;
use crate::math::{add_u128, mul_u128, sub_u128};
use crate::position::abs_int;

verus! {

/// Which way the taker's fill moves the AMM's base reserve: `Add` when the
/// taker sells base to the AMM, `Remove` when the taker buys base from it.
#[derive(Clone, Copy, Debug, PartialEq, Eq, Structural)]
pub enum SwapDirection {
    Add,
    Remove,
}

/// The curve invariant: the square of `sqrt_k`.
pub open spec fn spec_invariant(sqrt_k: int) -> int {
    sqrt_k * sqrt_k
}

/// The base reserve after swapping `base` in the given direction.
pub open spec fn spec_new_base_reserve(base_reserve: int, base: int, direction: SwapDirection) -> int {
    match direction {
        SwapDirection::Add => base_reserve + base,
        SwapDirection::Remove => base_reserve - base,
    }
}

/// The quote reserve the invariant forces for the new base reserve,
/// truncated toward zero.
pub open spec fn spec_new_quote_reserve(
    base: int,
    base_reserve: int,
    direction: SwapDirection,
    sqrt_k: int,
) -> int {
    spec_invariant(sqrt_k) / spec_new_base_reserve(base_reserve, base, direction)
}

/// When the reserve swap is exact: the invariant fits the machine width and
/// the new base reserve is a positive in-range amount.
pub open spec fn spec_swap_output_ok(
    base: int,
    base_reserve: int,
    direction: SwapDirection,
    sqrt_k: int,
) -> bool {
    &&& spec_invariant(sqrt_k) <= u128::MAX
    &&& spec_new_base_reserve(base_reserve, base, direction) > 0
    &&& spec_new_base_reserve(base_reserve, base, direction) <= u128::MAX
}

/// The reserve pair after swapping `swap_base` against the reserve side
/// `base_reserve`, under the invariant fixed by `sqrt_k`. Returns the new
/// quote reserve and the new base reserve.
pub fn calculate_swap_output(
    swap_base: u128,
    base_reserve: u128,
    direction: SwapDirection,
    sqrt_k: u128,
) -> (r: Result<(u128, u128), ErrorCode>)
    ensures
        spec_swap_output_ok(swap_base as int, base_reserve as int, direction, sqrt_k as int) ==> r
            == Ok::<(u128, u128), ErrorCode>(
            (
                spec_new_quote_reserve(
                    swap_base as int,
                    base_reserve as int,
                    direction,
                    sqrt_k as int,
                ) as u128,
                spec_new_base_reserve(base_reserve as int, swap_base as int, direction) as u128,
            ),
        ),
        !spec_swap_output_ok(swap_base as int, base_reserve as int, direction, sqrt_k as int) ==> r
            == Err::<(u128, u128), ErrorCode>(ErrorCode::MathError),
{
    let invariant_k = match mul_u128(sqrt_k, sqrt_k) {
        Ok(v) => v,
        Err(ec) => { return Err(ec); },
    };
    let new_base = match direction {
        SwapDirection::Add => {
            match add_u128(base_reserve, swap_base) {
                Ok(v) => v,
                Err(ec) => { return Err(ec); },
            }
        },
        SwapDirection::Remove => {
            match sub_u128(base_reserve, swap_base) {
                Ok(v) => v,
                Err(ec) => { return Err(ec); },
            }
        },
    };
    if new_base == 0 {
        return Err(ErrorCode::MathError);
    }
    let new_quote = invariant_k / new_base;
    Ok((new_quote, new_base))
}

/// A quote-reserve delta converted to a quote-asset amount, truncated.
pub open spec fn spec_reserve_to_asset(delta: int, peg: int) -> int {
    delta * peg / AMM_TIMES_PEG_TO_QUOTE_PRECISION_RATIO as int
}

/// The quote amount one swap settles: the quote-reserve move scaled by the
/// peg, plus one unit when the taker buys base, so truncation favors the
/// market.
pub open spec fn spec_quote_swapped(
    quote_before: int,
    quote_after: int,
    direction: SwapDirection,
    peg: int,
) -> int {
    match direction {
        SwapDirection::Add => spec_reserve_to_asset(quote_before - quote_after, peg),
        SwapDirection::Remove => spec_reserve_to_asset(quote_after - quote_before, peg) + 1,
    }
}

/// When the settled quote amount is exact: the reserve moved in the
/// direction the swap implies and the scaling product fits the machine
/// width.
pub open spec fn spec_quote_swapped_ok(
    quote_before: int,
    quote_after: int,
    direction: SwapDirection,
    peg: int,
) -> bool {
    match direction {
        SwapDirection::Add => {
            &&& quote_after <= quote_before
            &&& (quote_before - quote_after) * peg <= u128::MAX
        },
        SwapDirection::Remove => {
            &&& quote_before <= quote_after
            &&& (quote_after - quote_before) * peg <= u128::MAX
            &&& spec_reserve_to_asset(quote_after - quote_before, peg) + 1 <= u128::MAX
        },
    }
}

/// The quote-asset amount settled by a swap that moved the quote reserve
/// from `quote_before` to `quote_after`.
pub fn calculate_quote_asset_amount_swapped(
    quote_before: u128,
    quote_after: u128,
    direction: SwapDirection,
    peg_multiplier: u128,
) -> (r: Result<u128, ErrorCode>)
    ensures
        spec_quote_swapped_ok(quote_before as int, quote_after as int, direction, peg_multiplier as int)
            ==> r == Ok::<u128, ErrorCode>(
            spec_quote_swapped(
                quote_before as int,
                quote_after as int,
                direction,
                peg_multiplier as int,
            ) as u128,
        ),
        spec_quote_swapped_ok(quote_before as int, quote_after as int, direction, peg_multiplier as int)
            ==> 0 <= spec_quote_swapped(
            quote_before as int,
            quote_after as int,
            direction,
            peg_multiplier as int,
        ) <= u128::MAX,
        !spec_quote_swapped_ok(
            quote_before as int,
            quote_after as int,
            direction,
            peg_multiplier as int,
        ) ==> r == Err::<u128, ErrorCode>(ErrorCode::MathError),
{
    match direction {
        SwapDirection::Add => {
            let delta = match sub_u128(quote_before, quote_after) {
                Ok(v) => v,
                Err(ec) => { return Err(ec); },
            };
            let product = match mul_u128(delta, peg_multiplier) {
                Ok(v) => v,
                Err(ec) => { return Err(ec); },
            };
            Ok(product / AMM_TIMES_PEG_TO_QUOTE_PRECISION_RATIO)
        },
        SwapDirection::Remove => {
            let delta = match sub_u128(quote_after, quote_before) {
                Ok(v) => v,
                Err(ec) => { return Err(ec); },
            };
            let product = match mul_u128(delta, peg_multiplier) {
                Ok(v) => v,
                Err(ec) => { return Err(ec); },
            };
            let scaled = product / AMM_TIMES_PEG_TO_QUOTE_PRECISION_RATIO;
            match add_u128(scaled, 1) {
                Ok(v) => Ok(v),
                Err(ec) => Err(ec),
            }
        },
    }
}

/// The spread-side base reserve a fill settles against: the ask pair when
/// the taker buys, the bid pair when the taker sells.
pub open spec fn spec_spread_base_reserve(amm: AMM, direction: SwapDirection) -> int {
    match direction {
        SwapDirection::Remove => amm.ask_base_asset_reserve as int,
        SwapDirection::Add => amm.bid_base_asset_reserve as int,
    }
}

/// The spread-side quote reserve a fill settles against.
pub open spec fn spec_spread_quote_reserve(amm: AMM, direction: SwapDirection) -> int {
    match direction {
        SwapDirection::Remove => amm.ask_quote_asset_reserve as int,
        SwapDirection::Add => amm.bid_quote_asset_reserve as int,
    }
}

/// The quote amount the taker settles for a fill of `base`, priced on the
/// spread-side reserves.
pub open spec fn spec_swap_quote(amm: AMM, base: int, direction: SwapDirection) -> int {
    spec_quote_swapped(
        spec_spread_quote_reserve(amm, direction),
        spec_new_quote_reserve(
            base,
            spec_spread_base_reserve(amm, direction),
            direction,
            amm.sqrt_k as int,
        ),
        direction,
        amm.peg_multiplier as int,
    )
}

/// The quote amount the same fill would settle on the canonical reserves.
pub open spec fn spec_swap_quote_no_spread(amm: AMM, base: int, direction: SwapDirection) -> int {
    spec_quote_swapped(
        amm.quote_asset_reserve as int,
        spec_new_quote_reserve(base, amm.base_asset_reserve as int, direction, amm.sqrt_k as int),
        direction,
        amm.peg_multiplier as int,
    )
}

/// What the spread earns the market on this fill: the taker settles the
/// spread-side quote, the canonical books move by the mid quote, and the
/// difference accrues to the fee pool.
pub open spec fn spec_swap_surplus(amm: AMM, base: int, direction: SwapDirection) -> int {
    match direction {
        SwapDirection::Remove => spec_swap_quote(amm, base, direction) - spec_swap_quote_no_spread(
            amm,
            base,
            direction,
        ),
        SwapDirection::Add => spec_swap_quote_no_spread(amm, base, direction) - spec_swap_quote(
            amm,
            base,
            direction,
        ),
    }
}

/// The canonical reserves after the fill; every other AMM field is kept.
pub open spec fn spec_amm_after_swap(amm: AMM, base: int, direction: SwapDirection) -> AMM {
    AMM {
        base_asset_reserve: spec_new_base_reserve(
            amm.base_asset_reserve as int,
            base,
            direction,
        ) as u128,
        quote_asset_reserve: spec_new_quote_reserve(
            base,
            amm.base_asset_reserve as int,
            direction,
            amm.sqrt_k as int,
        ) as u128,
        ..amm
    }
}

/// When the whole fill is exact: both the spread-side and the canonical swap
/// are in range and the spread does not favor the taker over the canonical
/// curve.
pub open spec fn spec_swap_ok(amm: AMM, base: int, direction: SwapDirection) -> bool {
    &&& spec_swap_output_ok(
        base,
        spec_spread_base_reserve(amm, direction),
        direction,
        amm.sqrt_k as int,
    )
    &&& spec_quote_swapped_ok(
        spec_spread_quote_reserve(amm, direction),
        spec_new_quote_reserve(
            base,
            spec_spread_base_reserve(amm, direction),
            direction,
            amm.sqrt_k as int,
        ),
        direction,
        amm.peg_multiplier as int,
    )
    &&& spec_swap_output_ok(base, amm.base_asset_reserve as int, direction, amm.sqrt_k as int)
    &&& spec_quote_swapped_ok(
        amm.quote_asset_reserve as int,
        spec_new_quote_reserve(base, amm.base_asset_reserve as int, direction, amm.sqrt_k as int),
        direction,
        amm.peg_multiplier as int,
    )
    &&& spec_swap_surplus(amm, base, direction) >= 0
}

/// Swaps `base` against the AMM: settles the taker's quote on the
/// spread-side reserves, moves the canonical reserves along the invariant,
/// and returns the settled quote and the spread surplus owed to the fee
/// pool. On a math error the reserves are unchanged.
pub fn swap_base_asset(amm: &mut AMM, base: u128, direction: SwapDirection) -> (r: Result<
    (u128, u128),
    ErrorCode,
>)
    ensures
        spec_swap_ok(*old(amm), base as int, direction) ==> {
            &&& r == Ok::<(u128, u128), ErrorCode>(
                (
                    spec_swap_quote(*old(amm), base as int, direction) as u128,
                    spec_swap_surplus(*old(amm), base as int, direction) as u128,
                ),
            )
            &&& *final(amm) == spec_amm_after_swap(*old(amm), base as int, direction)
            &&& 0 <= spec_swap_quote(*old(amm), base as int, direction) <= u128::MAX
            &&& 0 <= spec_swap_surplus(*old(amm), base as int, direction) <= u128::MAX
        },
        !spec_swap_ok(*old(amm), base as int, direction) ==> {
            &&& r == Err::<(u128, u128), ErrorCode>(ErrorCode::MathError)
            &&& *final(amm) == *old(amm)
        },
{
    let spread_base = match direction {
        SwapDirection::Remove => amm.ask_base_asset_reserve,
        SwapDirection::Add => amm.bid_base_asset_reserve,
    };
    let spread_quote = match direction {
        SwapDirection::Remove => amm.ask_quote_asset_reserve,
        SwapDirection::Add => amm.bid_quote_asset_reserve,
    };

    let (new_spread_quote, _new_spread_base) = match calculate_swap_output(
        base,
        spread_base,
        direction,
        amm.sqrt_k,
    ) {
        Ok(v) => v,
        Err(ec) => { return Err(ec); },
    };
    let quote_with_spread = match calculate_quote_asset_amount_swapped(
        spread_quote,
        new_spread_quote,
        direction,
        amm.peg_multiplier,
    ) {
        Ok(v) => v,
        Err(ec) => { return Err(ec); },
    };

    let (new_quote_reserve, new_base_reserve) = match calculate_swap_output(
        base,
        amm.base_asset_reserve,
        direction,
        amm.sqrt_k,
    ) {
        Ok(v) => v,
        Err(ec) => { return Err(ec); },
    };
    let quote_without_spread = match calculate_quote_asset_amount_swapped(
        amm.quote_asset_reserve,
        new_quote_reserve,
        direction,
        amm.peg_multiplier,
    ) {
        Ok(v) => v,
        Err(ec) => { return Err(ec); },
    };

    let surplus = match direction {
        SwapDirection::Remove => {
            match sub_u128(quote_with_spread, quote_without_spread) {
                Ok(v) => v,
                Err(ec) => { return Err(ec); },
            }
        },
        SwapDirection::Add => {
            match sub_u128(quote_without_spread, quote_with_spread) {
                Ok(v) => v,
                Err(ec) => { return Err(ec); },
            }
        },
    };

    amm.base_asset_reserve = new_base_reserve;
    amm.quote_asset_reserve = new_quote_reserve;
    Ok((quote_with_spread, surplus))
}

/// The mark price implied by a reserve pair and the peg.
pub open spec fn spec_reserve_price(quote_reserve: int, base_reserve: int, peg: int) -> int {
    quote_reserve * peg * PRICE_TO_PEG_PRECISION_RATIO as int / base_reserve
}

/// When the mark price is exact.
pub open spec fn spec_reserve_price_ok(quote_reserve: int, base_reserve: int, peg: int) -> bool {
    &&& quote_reserve * peg <= u128::MAX
    &&& quote_reserve * peg * PRICE_TO_PEG_PRECISION_RATIO as int <= u128::MAX
    &&& base_reserve != 0
}

/// The price implied by a reserve pair, in mark-price precision.
pub fn calculate_price(quote_reserve: u128, base_reserve: u128, peg_multiplier: u128) -> (r: Result<
    u128,
    ErrorCode,
>)
    ensures
        spec_reserve_price_ok(quote_reserve as int, base_reserve as int, peg_multiplier as int)
            ==> r == Ok::<u128, ErrorCode>(
            spec_reserve_price(quote_reserve as int, base_reserve as int, peg_multiplier as int) as u128,
        ),
        spec_reserve_price_ok(quote_reserve as int, base_reserve as int, peg_multiplier as int)
            ==> 0 <= spec_reserve_price(
            quote_reserve as int,
            base_reserve as int,
            peg_multiplier as int,
        ) <= u128::MAX,
        !spec_reserve_price_ok(quote_reserve as int, base_reserve as int, peg_multiplier as int)
            ==> r == Err::<u128, ErrorCode>(ErrorCode::MathError),
{
    let pegged = match mul_u128(quote_reserve, peg_multiplier) {
        Ok(v) => v,
        Err(ec) => { return Err(ec); },
    };
    let scaled = match mul_u128(pegged, PRICE_TO_PEG_PRECISION_RATIO) {
        Ok(v) => v,
        Err(ec) => { return Err(ec); },
    };
    if base_reserve == 0 {
        return Err(ErrorCode::MathError);
    }
    Ok(scaled / base_reserve)
}

/// The quote value of closing a signed base position against the canonical
/// reserves: a long sells into the AMM, a short buys back from it.
pub open spec fn spec_base_asset_value(base: int, amm: AMM) -> int {
    if base == 0 {
        0
    } else {
        let direction = if base > 0 {
            SwapDirection::Add
        } else {
            SwapDirection::Remove
        };
        spec_quote_swapped(
            amm.quote_asset_reserve as int,
            spec_new_quote_reserve(
                abs_int(base),
                amm.base_asset_reserve as int,
                direction,
                amm.sqrt_k as int,
            ),
            direction,
            amm.peg_multiplier as int,
        )
    }
}

/// When the close-out value is exact.
pub open spec fn spec_base_asset_value_ok(base: int, amm: AMM) -> bool {
    base == 0 || {
        let direction = if base > 0 {
            SwapDirection::Add
        } else {
            SwapDirection::Remove
        };
        &&& spec_swap_output_ok(
            abs_int(base),
            amm.base_asset_reserve as int,
            direction,
            amm.sqrt_k as int,
        )
        &&& spec_quote_swapped_ok(
            amm.quote_asset_reserve as int,
            spec_new_quote_reserve(
                abs_int(base),
                amm.base_asset_reserve as int,
                direction,
                amm.sqrt_k as int,
            ),
            direction,
            amm.peg_multiplier as int,
        )
    }
}

/// The quote value of closing a signed base position against the canonical
/// reserves, used by the margin check.
pub fn calculate_base_asset_value(base: i128, amm: &AMM) -> (r: Result<u128, ErrorCode>)
    ensures
        spec_base_asset_value_ok(base as int, *amm) ==> r == Ok::<u128, ErrorCode>(
            spec_base_asset_value(base as int, *amm) as u128,
        ),
        !spec_base_asset_value_ok(base as int, *amm) ==> r == Err::<u128, ErrorCode>(
            ErrorCode::MathError,
        ),
{
    if base == 0 {
        return Ok(0);
    }
    let direction = if base > 0 {
        SwapDirection::Add
    } else {
        SwapDirection::Remove
    };
    let magnitude = crate::position::abs_i128(base);
    let (new_quote_reserve, _new_base_reserve) = match calculate_swap_output(
        magnitude,
        amm.base_asset_reserve,
        direction,
        amm.sqrt_k,
    ) {
        Ok(v) => v,
        Err(ec) => { return Err(ec); },
    };
    calculate_quote_asset_amount_swapped(
        amm.quote_asset_reserve,
        new_quote_reserve,
        direction,
        amm.peg_multiplier,
    )
}

} // verus!
