//! The virtual automated market maker: a constant-product pricing curve
//! held inside each market, plus the funding-rate accumulators the position
//! engines snapshot at open time.
//!
//! The position engines never price a trade themselves; they consult the
//! outcome functions of this module and commit the new reserves together
//! with the rest of a trade's effects, so that a failing trade leaves the
//! curve untouched.

use vstd::prelude::*;

use crate::error::Error;
use crate::math::abs_val;
use crate::math::cast_to_i128;
use crate::math::cast_to_i128_outcome;
use crate::math::fits_u128;

verus! {

/// Which side of the curve a swap feeds: `Add` puts the named asset into
/// its reserve, `Remove` takes it out.
#[derive(Clone, Copy, Debug, PartialEq, Eq, Structural)]
pub enum SwapDirection {
    Add,
    Remove,
}

/// Virtual AMM state: the two reserves of the constant-product curve and
/// the cumulative funding rates recorded per trade direction.
#[derive(Clone, Copy, Debug, PartialEq, Eq, Structural)]
pub struct Amm {
    pub base_asset_reserve: u128,
    pub quote_asset_reserve: u128,
    pub cumulative_funding_rate_long: i128,
    pub cumulative_funding_rate_short: i128,
}

/// The outcome of swapping a quote-asset amount against the curve: the new
/// base reserve, the new quote reserve, and the signed base-asset delta
/// handed to the trader (positive when base leaves the reserve).
pub open spec fn quote_swap_outcome(
    amm: Amm,
    quote_asset_amount: u128,
    direction: SwapDirection,
) -> Result<(u128, u128, i128), Error> {
    let new_quote = match direction {
        SwapDirection::Add => amm.quote_asset_reserve + quote_asset_amount,
        SwapDirection::Remove => amm.quote_asset_reserve - quote_asset_amount,
    };
    if !fits_u128(new_quote) {
        Err(Error::ArithmeticOverflow)
    } else if !fits_u128(amm.base_asset_reserve * amm.quote_asset_reserve) {
        Err(Error::ArithmeticOverflow)
    } else if new_quote == 0 {
        Err(Error::ArithmeticOverflow)
    } else {
        let new_base = amm.base_asset_reserve * amm.quote_asset_reserve / new_quote;
        match cast_to_i128_outcome(amm.base_asset_reserve) {
            Err(e) => Err(e),
            Ok(base_before) => match cast_to_i128_outcome(new_base as u128) {
                Err(e) => Err(e),
                Ok(base_after) => Ok(
                    ((new_base as u128, new_quote as u128, (base_before - base_after) as i128)),
                ),
            },
        }
    }
}

/// The outcome of swapping a base-asset amount against the curve: the new
/// base reserve, the new quote reserve, and the unsigned quote-asset value
/// that changed hands.
pub open spec fn base_swap_outcome(
    amm: Amm,
    base_asset_amount: u128,
    direction: SwapDirection,
) -> Result<(u128, u128, u128), Error> {
    let new_base = match direction {
        SwapDirection::Add => amm.base_asset_reserve + base_asset_amount,
        SwapDirection::Remove => amm.base_asset_reserve - base_asset_amount,
    };
    if !fits_u128(new_base) {
        Err(Error::ArithmeticOverflow)
    } else if !fits_u128(amm.base_asset_reserve * amm.quote_asset_reserve) {
        Err(Error::ArithmeticOverflow)
    } else if new_base == 0 {
        Err(Error::ArithmeticOverflow)
    } else {
        let new_quote = amm.base_asset_reserve * amm.quote_asset_reserve / new_base;
        Ok(
            ((
                new_base as u128,
                new_quote as u128,
                abs_val(amm.quote_asset_reserve - new_quote) as u128,
            )),
        )
    }
}

/// Prices a quote-asset swap without committing it: returns the new
/// reserves and the signed base-asset delta, or the failure the curve's
/// checked arithmetic ran into. The curve itself is not touched.
pub fn calculate_quote_asset_swap(
    amm: &Amm,
    quote_asset_amount: u128,
    direction: SwapDirection,
) -> (r: Result<(u128, u128, i128), Error>)
    ensures
        r == quote_swap_outcome(*amm, quote_asset_amount, direction),
{
    let new_quote_opt = match direction {
        SwapDirection::Add => amm.quote_asset_reserve.checked_add(quote_asset_amount),
        SwapDirection::Remove => amm.quote_asset_reserve.checked_sub(quote_asset_amount),
    };
    let new_quote = match new_quote_opt {
        Some(v) => v,
        None => {
            return Err(Error::ArithmeticOverflow);
        },
    };
    let invariant_k = match amm.base_asset_reserve.checked_mul(amm.quote_asset_reserve) {
        Some(v) => v,
        None => {
            return Err(Error::ArithmeticOverflow);
        },
    };
    if new_quote == 0 {
        return Err(Error::ArithmeticOverflow);
    }
    let new_base = invariant_k / new_quote;
    let base_before = match cast_to_i128(amm.base_asset_reserve) {
        Ok(v) => v,
        Err(e) => {
            return Err(e);
        },
    };
    let base_after = match cast_to_i128(new_base) {
        Ok(v) => v,
        Err(e) => {
            return Err(e);
        },
    };
    Ok((new_base, new_quote, base_before - base_after))
}

/// Prices a base-asset swap without committing it: returns the new reserves
/// and the unsigned quote-asset value that would change hands. The curve
/// itself is not touched.
pub fn calculate_base_asset_swap(
    amm: &Amm,
    base_asset_amount: u128,
    direction: SwapDirection,
) -> (r: Result<(u128, u128, u128), Error>)
    ensures
        r == base_swap_outcome(*amm, base_asset_amount, direction),
{
    let new_base_opt = match direction {
        SwapDirection::Add => amm.base_asset_reserve.checked_add(base_asset_amount),
        SwapDirection::Remove => amm.base_asset_reserve.checked_sub(base_asset_amount),
    };
    let new_base = match new_base_opt {
        Some(v) => v,
        None => {
            return Err(Error::ArithmeticOverflow);
        },
    };
    let invariant_k = match amm.base_asset_reserve.checked_mul(amm.quote_asset_reserve) {
        Some(v) => v,
        None => {
            return Err(Error::ArithmeticOverflow);
        },
    };
    if new_base == 0 {
        return Err(Error::ArithmeticOverflow);
    }
    let new_quote = invariant_k / new_base;
    let quote_swapped = if amm.quote_asset_reserve >= new_quote {
        amm.quote_asset_reserve - new_quote
    } else {
        new_quote - amm.quote_asset_reserve
    };
    Ok((new_base, new_quote, quote_swapped))
}

/// Swaps a quote-asset amount against the curve, committing the new
/// reserves, and returns the signed base-asset delta. On failure the curve
/// is left exactly as it was. The timestamp and the precomputed mark price
/// are accepted for interface stability; this curve prices from its
/// reserves alone.
pub fn swap_quote_asset(
    amm: &mut Amm,
    quote_asset_amount: u128,
    direction: SwapDirection,
    now: i64,
    precomputed_mark_price: Option<u128>,
) -> (r: Result<i128, Error>)
    ensures
        match quote_swap_outcome(*old(amm), quote_asset_amount, direction) {
            Ok(o) => r == Ok::<i128, Error>(o.2) && final(amm).base_asset_reserve == o.0
                && final(amm).quote_asset_reserve == o.1
                && final(amm).cumulative_funding_rate_long == old(
                amm,
            ).cumulative_funding_rate_long && final(amm).cumulative_funding_rate_short == old(
                amm,
            ).cumulative_funding_rate_short,
            Err(e) => r == Err::<i128, Error>(e) && *final(amm) == *old(amm),
        },
{
    match calculate_quote_asset_swap(amm, quote_asset_amount, direction) {
        Ok((new_base, new_quote, delta)) => {
            amm.base_asset_reserve = new_base;
            amm.quote_asset_reserve = new_quote;
            Ok(delta)
        },
        Err(e) => Err(e),
    }
}

/// Swaps a base-asset amount against the curve, committing the new
/// reserves, and returns the unsigned quote-asset value that changed hands.
/// On failure the curve is left exactly as it was. The timestamp is
/// accepted for interface stability; this curve prices from its reserves
/// alone.
pub fn swap_base_asset(
    amm: &mut Amm,
    base_asset_amount: u128,
    direction: SwapDirection,
    now: i64,
) -> (r: Result<u128, Error>)
    ensures
        match base_swap_outcome(*old(amm), base_asset_amount, direction) {
            Ok(o) => r == Ok::<u128, Error>(o.2) && final(amm).base_asset_reserve == o.0
                && final(amm).quote_asset_reserve == o.1
                && final(amm).cumulative_funding_rate_long == old(
                amm,
            ).cumulative_funding_rate_long && final(amm).cumulative_funding_rate_short == old(
                amm,
            ).cumulative_funding_rate_short,
            Err(e) => r == Err::<u128, Error>(e) && *final(amm) == *old(amm),
        },
{
    match calculate_base_asset_swap(amm, base_asset_amount, direction) {
        Ok((new_base, new_quote, quote_swapped)) => {
            amm.base_asset_reserve = new_base;
            amm.quote_asset_reserve = new_quote;
            Ok(quote_swapped)
        },
        Err(e) => Err(e),
    }
}

} // verus!
