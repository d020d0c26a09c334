//! Shared arithmetic helpers: range predicates, checked casts, the
//! collateral update, and the profit-and-loss computation.

use vstd::prelude::*;

use crate::amm::SwapDirection;
use crate::error::Error;

verus! {

/// Whether a mathematical integer fits in `i128`.
pub open spec fn fits_i128(x: int) -> bool {
    i128::MIN <= x <= i128::MAX
}

/// Whether a mathematical integer fits in `u128`.
pub open spec fn fits_u128(x: int) -> bool {
    0 <= x <= u128::MAX
}

/// The absolute value of a mathematical integer.
pub open spec fn abs_val(x: int) -> int {
    if x >= 0 {
        x
    } else {
        -x
    }
}

/// The outcome of the checked conversion of a `u128` into an `i128`.
pub open spec fn cast_to_i128_outcome(v: u128) -> Result<i128, Error> {
    if v <= i128::MAX {
        Ok(v as i128)
    } else {
        Err(Error::CastFailure)
    }
}

/// Checked conversion of a `u128` into an `i128`; values above `i128::MAX`
/// are refused rather than truncated.
pub fn cast_to_i128(v: u128) -> (r: Result<i128, Error>)
    ensures
        r == cast_to_i128_outcome(v),
{
    if v <= i128::MAX as u128 {
        Ok(v as i128)
    } else {
        Err(Error::CastFailure)
    }
}

/// The magnitude of an `i128`, as a `u128`; total, also at `i128::MIN`.
pub fn unsigned_abs_i128(x: i128) -> (r: u128)
    ensures
        r == abs_val(x as int),
{
    if x >= 0 {
        x as u128
    } else if x == i128::MIN {
        170141183460469231731687303715884105728u128
    } else {
        (-x) as u128
    }
}

/// The outcome of applying a signed profit or loss to a signed collateral
/// balance: the checked sum, or an arithmetic-overflow failure.
pub open spec fn updated_collateral_outcome(collateral: i128, pnl: i128) -> Result<i128, Error> {
    if fits_i128(collateral + pnl) {
        Ok((collateral + pnl) as i128)
    } else {
        Err(Error::ArithmeticOverflow)
    }
}

/// Applies a signed profit or loss to a collateral balance. Fails only on
/// arithmetic overflow, and then changes nothing.
pub fn calculate_updated_collateral(collateral: i128, pnl: i128) -> (r: Result<i128, Error>)
    ensures
        r == updated_collateral_outcome(collateral, pnl),
{
    match collateral.checked_add(pnl) {
        Some(v) => Ok(v),
        None => Err(Error::ArithmeticOverflow),
    }
}

/// The outcome of the profit-and-loss computation for an unwound exposure:
/// the swap proceeds minus the cost basis when the closing swap added to the
/// quote reserve, and the mirror image when it removed from it.
pub open spec fn pnl_outcome(
    base_asset_value: u128,
    quote_asset_amount: u128,
    swap_direction: SwapDirection,
) -> Result<i128, Error> {
    match swap_direction {
        SwapDirection::Add => {
            if base_asset_value > i128::MAX {
                Err(Error::CastFailure)
            } else if quote_asset_amount > i128::MAX {
                Err(Error::CastFailure)
            } else {
                Ok((base_asset_value - quote_asset_amount) as i128)
            }
        },
        SwapDirection::Remove => {
            if quote_asset_amount > i128::MAX {
                Err(Error::CastFailure)
            } else if base_asset_value > i128::MAX {
                Err(Error::CastFailure)
            } else {
                Ok((quote_asset_amount - base_asset_value) as i128)
            }
        },
    }
}

/// Computes the signed profit or loss realized by unwinding exposure worth
/// `base_asset_value` in quote terms against a cost basis of
/// `quote_asset_amount`, given the direction of the closing swap.
pub fn calculate_pnl(
    base_asset_value: u128,
    quote_asset_amount: u128,
    swap_direction: SwapDirection,
) -> (r: Result<i128, Error>)
    ensures
        r == pnl_outcome(base_asset_value, quote_asset_amount, swap_direction),
{
    match swap_direction {
        SwapDirection::Add => {
            let value = match cast_to_i128(base_asset_value) {
                Ok(v) => v,
                Err(e) => {
                    return Err(e);
                },
            };
            let basis = match cast_to_i128(quote_asset_amount) {
                Ok(v) => v,
                Err(e) => {
                    return Err(e);
                },
            };
            Ok(value - basis)
        },
        SwapDirection::Remove => {
            let basis = match cast_to_i128(quote_asset_amount) {
                Ok(v) => v,
                Err(e) => {
                    return Err(e);
                },
            };
            let value = match cast_to_i128(base_asset_value) {
                Ok(v) => v,
                Err(e) => {
                    return Err(e);
                },
            };
            Ok(basis - value)
        },
    }
}

} // verus!
