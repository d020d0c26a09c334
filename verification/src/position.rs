//! The four position engines and the slot manager.
//!
//! Each engine's behaviour — success and failure alike — is fixed by an
//! open spec outcome function; the executable body computes every checked
//! step into locals first and commits only when all of them succeeded, so
//! that a failing call leaves the market, the position and the user exactly
//! as they were.

use vstd::prelude::*;

use crate::amm::Amm;
use crate::amm::SwapDirection;
use crate::amm::base_swap_outcome;
use crate::amm::calculate_base_asset_swap;
use crate::amm::calculate_quote_asset_swap;
use crate::amm::quote_swap_outcome;
use crate::error::Error;
use crate::math::abs_val;
use crate::math::calculate_pnl;
use crate::math::calculate_updated_collateral;
use crate::math::cast_to_i128;
use crate::math::fits_i128;
use crate::math::fits_u128;
use crate::math::pnl_outcome;
use crate::math::unsigned_abs_i128;
use crate::math::updated_collateral_outcome;
use crate::state::Market;
use crate::state::MarketPosition;
use crate::state::User;
use crate::state::UserPositions;
use crate::state::fresh_position;

verus! {

/// Which way a trade leans: a long buys base-asset exposure, a short sells
/// it.
#[derive(Clone, Copy, Debug, PartialEq, Eq, Structural)]
pub enum PositionDirection {
    Long,
    Short,
}

impl Default for PositionDirection {
    /// The default trade direction is long.
    fn default() -> (r: Self)
        ensures
            r == PositionDirection::Long,
    {
        PositionDirection::Long
    }
}

/// Claims the first available slot of the user's fixed-capacity list for
/// the given market, zero-initializing its trading fields, and returns its
/// index; fails when every slot is taken.
pub fn add_new_position(user_positions: &mut UserPositions, market_index: u64) -> (r: Result<
    usize,
    Error,
>)
    ensures
        match r {
            Ok(i) => i < old(user_positions).positions@.len() && old(
                user_positions,
            ).positions@[i as int].spec_is_available() && (forall|j: int|
                0 <= j < i ==> !old(user_positions).positions@[j].spec_is_available())
                && final(user_positions).positions@ == old(user_positions).positions@.update(
                i as int,
                fresh_position(market_index),
            ),
            Err(e) => e == Error::MaxPositionsReached && (forall|j: int|
                0 <= j < old(user_positions).positions@.len() ==> !old(
                    user_positions,
                ).positions@[j].spec_is_available()) && *final(user_positions) == *old(
                user_positions,
            ),
        },
{
    let n = user_positions.positions.len();
    let mut i: usize = 0;
    while i < n
        invariant
            n == user_positions.positions@.len(),
            i <= n,
            forall|j: int| 0 <= j < i ==> !user_positions.positions@[j].spec_is_available(),
            *user_positions == *old(user_positions),
        decreases n - i,
    {
        if user_positions.positions[i].is_available() {
            user_positions.positions.set(i, fresh_position_exec(market_index));
            return Ok(i);
        }
        i = i + 1;
    }
    Err(Error::MaxPositionsReached)
}

/// Builds a zero-initialized slot claimed for the given market.
fn fresh_position_exec(market_index: u64) -> (r: MarketPosition)
    ensures
        r == fresh_position(market_index),
{
    MarketPosition {
        market_index,
        base_asset_amount: 0,
        quote_asset_amount: 0,
        last_cumulative_funding_rate: 0,
        last_funding_rate_ts: 0,
        open_orders: 0,
    }
}

/// The swap direction of a quote-denominated trade: a long adds quote
/// asset to the curve's reserve to acquire base exposure, a short removes
/// it.
pub open spec fn quote_swap_direction(direction: PositionDirection) -> SwapDirection {
    match direction {
        PositionDirection::Long => SwapDirection::Add,
        PositionDirection::Short => SwapDirection::Remove,
    }
}

/// The swap direction of a base-denominated trade: the mapping is inverted
/// relative to the quote-denominated one because the two call shapes
/// address opposite legs of the same curve.
pub open spec fn base_swap_direction(direction: PositionDirection) -> SwapDirection {
    match direction {
        PositionDirection::Long => SwapDirection::Remove,
        PositionDirection::Short => SwapDirection::Add,
    }
}

/// The funding-rate snapshot a position carries after a trade: opening a
/// flat position records the market's cumulative rate for the trade's
/// direction, any other trade keeps the snapshot already held.
pub open spec fn opened_funding_rate(
    m: Market,
    p: MarketPosition,
    direction: PositionDirection,
) -> i128 {
    if p.base_asset_amount == 0 {
        match direction {
            PositionDirection::Long => m.amm.cumulative_funding_rate_long,
            PositionDirection::Short => m.amm.cumulative_funding_rate_short,
        }
    } else {
        p.last_cumulative_funding_rate
    }
}

/// The market's open-interest count after a trade that may open a flat
/// position, before any range check.
pub open spec fn opened_open_interest(m: Market, p: MarketPosition) -> int {
    if p.base_asset_amount == 0 {
        m.open_interest + 1
    } else {
        m.open_interest as int
    }
}

/// The shared accumulation step of every engine: the signed base-asset
/// delta is added to the position's and the market's net exposure, and to
/// whichever of the long and short buckets the position's post-update sign
/// selects. Any value out of `i128` range fails the whole step.
pub open spec fn accumulated_base(m: Market, p: MarketPosition, delta: i128) -> Result<
    (Market, MarketPosition),
    Error,
> {
    let p_base = p.base_asset_amount + delta;
    if !fits_i128(p_base) {
        Err(Error::ArithmeticOverflow)
    } else {
        let m_base = m.base_asset_amount + delta;
        if !fits_i128(m_base) {
            Err(Error::ArithmeticOverflow)
        } else if p_base > 0 {
            let m_long = m.base_asset_amount_long + delta;
            if !fits_i128(m_long) {
                Err(Error::ArithmeticOverflow)
            } else {
                Ok(
                    ((
                        Market {
                            base_asset_amount: m_base as i128,
                            base_asset_amount_long: m_long as i128,
                            ..m
                        },
                        MarketPosition { base_asset_amount: p_base as i128, ..p },
                    )),
                )
            }
        } else {
            let m_short = m.base_asset_amount_short + delta;
            if !fits_i128(m_short) {
                Err(Error::ArithmeticOverflow)
            } else {
                Ok(
                    ((
                        Market {
                            base_asset_amount: m_base as i128,
                            base_asset_amount_short: m_short as i128,
                            ..m
                        },
                        MarketPosition { base_asset_amount: p_base as i128, ..p },
                    )),
                )
            }
        }
    }
}

/// The complete outcome of a quote-denominated increase: the market and
/// position after the trade and the signed base-asset delta acquired, or
/// the first failure of the trade's checked arithmetic.
pub open spec fn increase_outcome(
    m: Market,
    p: MarketPosition,
    direction: PositionDirection,
    quote_asset_amount: u128,
) -> Result<(Market, MarketPosition, i128), Error> {
    if quote_asset_amount == 0 {
        Ok(((m, p, 0i128)))
    } else {
        let funding = opened_funding_rate(m, p, direction);
        let oi = opened_open_interest(m, p);
        if !fits_u128(oi) {
            Err(Error::ArithmeticOverflow)
        } else if !fits_u128(p.quote_asset_amount + quote_asset_amount) {
            Err(Error::ArithmeticOverflow)
        } else {
            match quote_swap_outcome(m.amm, quote_asset_amount, quote_swap_direction(direction)) {
                Err(e) => Err(e),
                Ok(swap) => {
                    let m1 = Market {
                        amm: Amm {
                            base_asset_reserve: swap.0,
                            quote_asset_reserve: swap.1,
                            ..m.amm
                        },
                        open_interest: oi as u128,
                        ..m
                    };
                    let p1 = MarketPosition {
                        quote_asset_amount: (p.quote_asset_amount + quote_asset_amount) as u128,
                        last_cumulative_funding_rate: funding,
                        ..p
                    };
                    match accumulated_base(m1, p1, swap.2) {
                        Err(e) => Err(e),
                        Ok(mp) => Ok(((mp.0, mp.1, swap.2))),
                    }
                },
            }
        }
    }
}

/// Grows a position by a quote-asset budget: an opening trade snapshots
/// the funding rate and raises the open-interest count, the budget is
/// swapped for base exposure, and the resulting delta is accumulated into
/// the position and the market aggregates. A zero budget is a no-op that
/// returns a zero delta. On failure nothing is changed.
pub fn increase(
    direction: PositionDirection,
    quote_asset_amount: u128,
    market: &mut Market,
    market_position: &mut MarketPosition,
    now: i64,
) -> (r: Result<i128, Error>)
    ensures
        match increase_outcome(*old(market), *old(market_position), direction, quote_asset_amount) {
            Ok(o) => r == Ok::<i128, Error>(o.2) && *final(market) == o.0 && *final(market_position)
                == o.1,
            Err(e) => r == Err::<i128, Error>(e) && *final(market) == *old(market)
                && *final(market_position) == *old(market_position),
        },
{
    if quote_asset_amount == 0 {
        return Ok(0);
    }
    // An opening trade snapshots the funding rate and raises open interest.
    let mut new_funding = market_position.last_cumulative_funding_rate;
    let mut new_open_interest = market.open_interest;
    if market_position.base_asset_amount == 0 {
        new_funding = match direction {
            PositionDirection::Long => market.amm.cumulative_funding_rate_long,
            PositionDirection::Short => market.amm.cumulative_funding_rate_short,
        };
        new_open_interest = match market.open_interest.checked_add(1) {
            Some(v) => v,
            None => {
                return Err(Error::ArithmeticOverflow);
            },
        };
    }
    let new_position_quote = match market_position.quote_asset_amount.checked_add(
        quote_asset_amount,
    ) {
        Some(v) => v,
        None => {
            return Err(Error::ArithmeticOverflow);
        },
    };
    let swap_direction = match direction {
        PositionDirection::Long => SwapDirection::Add,
        PositionDirection::Short => SwapDirection::Remove,
    };
    let (new_base_reserve, new_quote_reserve, base_asset_acquired) =
        match calculate_quote_asset_swap(&market.amm, quote_asset_amount, swap_direction) {
        Ok(t) => t,
        Err(e) => {
            return Err(e);
        },
    };
    let committed = match commit_accumulated_base(market, market_position, base_asset_acquired) {
        Ok(t) => t,
        Err(e) => {
            return Err(e);
        },
    };
    market.amm.base_asset_reserve = new_base_reserve;
    market.amm.quote_asset_reserve = new_quote_reserve;
    market.open_interest = new_open_interest;
    market_position.quote_asset_amount = new_position_quote;
    market_position.last_cumulative_funding_rate = new_funding;
    apply_accumulated_base(market, market_position, committed);
    Ok(base_asset_acquired)
}

/// The complete outcome of a base-denominated increase: the market and
/// position after the trade, or the first failure of the trade's checked
/// arithmetic. The trade fixes the base-asset delta and takes the quote
/// cost the curve reports.
pub open spec fn increase_with_base_outcome(
    m: Market,
    p: MarketPosition,
    direction: PositionDirection,
    base_asset_amount: u128,
) -> Result<(Market, MarketPosition), Error> {
    if base_asset_amount == 0 {
        Ok(((m, p)))
    } else {
        let funding = opened_funding_rate(m, p, direction);
        let oi = opened_open_interest(m, p);
        if !fits_u128(oi) {
            Err(Error::ArithmeticOverflow)
        } else {
            match base_swap_outcome(m.amm, base_asset_amount, base_swap_direction(direction)) {
                Err(e) => Err(e),
                Ok(swap) => {
                    if !fits_u128(p.quote_asset_amount + swap.2) {
                        Err(Error::ArithmeticOverflow)
                    } else if base_asset_amount > i128::MAX {
                        Err(Error::CastFailure)
                    } else {
                        let delta: i128 = match direction {
                            PositionDirection::Long => base_asset_amount as i128,
                            PositionDirection::Short => (-(base_asset_amount as int)) as i128,
                        };
                        let m1 = Market {
                            amm: Amm {
                                base_asset_reserve: swap.0,
                                quote_asset_reserve: swap.1,
                                ..m.amm
                            },
                            open_interest: oi as u128,
                            ..m
                        };
                        let p1 = MarketPosition {
                            quote_asset_amount: (p.quote_asset_amount + swap.2) as u128,
                            last_cumulative_funding_rate: funding,
                            ..p
                        };
                        accumulated_base(m1, p1, delta)
                    }
                },
            }
        }
    }
}

/// Grows a position by a base-asset target: an opening trade snapshots the
/// funding rate and raises the open-interest count, the fixed base delta is
/// swapped and the curve's reported quote cost is added to the cost basis,
/// and the signed delta is accumulated into the position and the market
/// aggregates. A zero target is a no-op. On failure nothing is changed.
pub fn increase_with_base_asset_amount(
    direction: PositionDirection,
    base_asset_amount: u128,
    market: &mut Market,
    market_position: &mut MarketPosition,
    now: i64,
) -> (r: Result<(), Error>)
    ensures
        match increase_with_base_outcome(
            *old(market),
            *old(market_position),
            direction,
            base_asset_amount,
        ) {
            Ok(o) => r == Ok::<(), Error>(()) && *final(market) == o.0 && *final(market_position)
                == o.1,
            Err(e) => r == Err::<(), Error>(e) && *final(market) == *old(market)
                && *final(market_position) == *old(market_position),
        },
{
    if base_asset_amount == 0 {
        return Ok(());
    }
    // An opening trade snapshots the funding rate and raises open interest.
    let mut new_funding = market_position.last_cumulative_funding_rate;
    let mut new_open_interest = market.open_interest;
    if market_position.base_asset_amount == 0 {
        new_funding = match direction {
            PositionDirection::Long => market.amm.cumulative_funding_rate_long,
            PositionDirection::Short => market.amm.cumulative_funding_rate_short,
        };
        new_open_interest = match market.open_interest.checked_add(1) {
            Some(v) => v,
            None => {
                return Err(Error::ArithmeticOverflow);
            },
        };
    }
    let swap_direction = match direction {
        PositionDirection::Long => SwapDirection::Remove,
        PositionDirection::Short => SwapDirection::Add,
    };
    let (new_base_reserve, new_quote_reserve, quote_asset_swapped) =
        match calculate_base_asset_swap(&market.amm, base_asset_amount, swap_direction) {
        Ok(t) => t,
        Err(e) => {
            return Err(e);
        },
    };
    let new_position_quote = match market_position.quote_asset_amount.checked_add(
        quote_asset_swapped,
    ) {
        Some(v) => v,
        None => {
            return Err(Error::ArithmeticOverflow);
        },
    };
    let base_magnitude = match cast_to_i128(base_asset_amount) {
        Ok(v) => v,
        Err(e) => {
            return Err(e);
        },
    };
    let delta: i128 = match direction {
        PositionDirection::Long => base_magnitude,
        PositionDirection::Short => -base_magnitude,
    };
    let committed = match commit_accumulated_base(market, market_position, delta) {
        Ok(t) => t,
        Err(e) => {
            return Err(e);
        },
    };
    market.amm.base_asset_reserve = new_base_reserve;
    market.amm.quote_asset_reserve = new_quote_reserve;
    market.open_interest = new_open_interest;
    market_position.quote_asset_amount = new_position_quote;
    market_position.last_cumulative_funding_rate = new_funding;
    apply_accumulated_base(market, market_position, committed);
    Ok(())
}

/// The values the shared accumulation step commits: the position's new
/// exposure, the market's new net exposure, and the one rebucketed total.
struct AccumulatedBase {
    position_base: i128,
    market_base: i128,
    bucket_total: i128,
}

/// Computes the shared accumulation step without committing it.
fn commit_accumulated_base(market: &Market, market_position: &MarketPosition, delta: i128) -> (r:
    Result<AccumulatedBase, Error>)
    ensures
        match accumulated_base(*market, *market_position, delta) {
            Ok(mp) => r is Ok && ({
                let a = r->Ok_0;
                a.position_base == mp.1.base_asset_amount && a.market_base == mp.0.base_asset_amount
                    && (mp.1.base_asset_amount > 0 ==> a.bucket_total
                    == mp.0.base_asset_amount_long) && (mp.1.base_asset_amount <= 0
                    ==> a.bucket_total == mp.0.base_asset_amount_short)
            }),
            Err(e) => r == Err::<AccumulatedBase, Error>(e),
        },
{
    let position_base = match market_position.base_asset_amount.checked_add(delta) {
        Some(v) => v,
        None => {
            return Err(Error::ArithmeticOverflow);
        },
    };
    let market_base = match market.base_asset_amount.checked_add(delta) {
        Some(v) => v,
        None => {
            return Err(Error::ArithmeticOverflow);
        },
    };
    let bucket_total = if position_base > 0 {
        match market.base_asset_amount_long.checked_add(delta) {
            Some(v) => v,
            None => {
                return Err(Error::ArithmeticOverflow);
            },
        }
    } else {
        match market.base_asset_amount_short.checked_add(delta) {
            Some(v) => v,
            None => {
                return Err(Error::ArithmeticOverflow);
            },
        }
    };
    Ok(AccumulatedBase { position_base, market_base, bucket_total })
}

/// Writes a computed accumulation step into the market and the position.
fn apply_accumulated_base(
    market: &mut Market,
    market_position: &mut MarketPosition,
    committed: AccumulatedBase,
)
    ensures
        final(market).base_asset_amount == committed.market_base,
        final(market_position).base_asset_amount == committed.position_base,
        committed.position_base > 0 ==> final(market).base_asset_amount_long
            == committed.bucket_total && final(market).base_asset_amount_short == old(
            market,
        ).base_asset_amount_short,
        committed.position_base <= 0 ==> final(market).base_asset_amount_short
            == committed.bucket_total && final(market).base_asset_amount_long == old(
            market,
        ).base_asset_amount_long,
        final(market).amm == old(market).amm,
        final(market).open_interest == old(market).open_interest,
        final(market_position).market_index == old(market_position).market_index,
        final(market_position).quote_asset_amount == old(market_position).quote_asset_amount,
        final(market_position).last_cumulative_funding_rate == old(
            market_position,
        ).last_cumulative_funding_rate,
        final(market_position).last_funding_rate_ts == old(market_position).last_funding_rate_ts,
        final(market_position).open_orders == old(market_position).open_orders,
{
    market_position.base_asset_amount = committed.position_base;
    market.base_asset_amount = committed.market_base;
    if committed.position_base > 0 {
        market.base_asset_amount_long = committed.bucket_total;
    } else {
        market.base_asset_amount_short = committed.bucket_total;
    }
}

/// The proportional unwind shared by both reduce engines, applied after
/// the base delta has been accumulated: the magnitude of exposure removed,
/// the pro-rata slice of cost basis it closes (integer division,
/// truncating), and the position's remaining cost basis. `p` is the
/// position before the trade, `p_base_after` its exposure after.
pub open spec fn closed_cost_basis(p: MarketPosition, p_base_after: i128) -> Result<
    (u128, u128),
    Error,
> {
    let diff = p.base_asset_amount - p_base_after;
    if !fits_i128(diff) {
        Err(Error::ArithmeticOverflow)
    } else {
        let change = abs_val(diff);
        if !fits_u128(p.quote_asset_amount * change) {
            Err(Error::ArithmeticOverflow)
        } else if abs_val(p.base_asset_amount as int) == 0 {
            Err(Error::ArithmeticOverflow)
        } else {
            let closed = p.quote_asset_amount * change / abs_val(p.base_asset_amount as int);
            if closed > p.quote_asset_amount {
                Err(Error::ArithmeticOverflow)
            } else {
                Ok(((closed as u128, (p.quote_asset_amount - closed) as u128)))
            }
        }
    }
}

/// The complete outcome of a quote-denominated reduce: the market, the
/// position, and the user's collateral after the trade, and the signed
/// base-asset delta the swap produced, or the first failure of the trade's
/// checked arithmetic. Open interest drops by one exactly when the trade
/// leaves the position flat; realized profit or loss is signed by the
/// post-trade position sign.
pub open spec fn reduce_outcome(
    m: Market,
    p: MarketPosition,
    collateral: i128,
    direction: PositionDirection,
    quote_asset_swap_amount: u128,
) -> Result<(Market, MarketPosition, i128, i128), Error> {
    match quote_swap_outcome(m.amm, quote_asset_swap_amount, quote_swap_direction(direction)) {
        Err(e) => Err(e),
        Ok(swap) => {
            let m1 = Market {
                amm: Amm { base_asset_reserve: swap.0, quote_asset_reserve: swap.1, ..m.amm },
                ..m
            };
            match accumulated_base(m1, p, swap.2) {
                Err(e) => Err(e),
                Ok(mp) => {
                    let oi = mp.0.open_interest - (
                    if mp.1.base_asset_amount == 0 {
                        1int
                    } else {
                        0int
                    });
                    if oi < 0 {
                        Err(Error::ArithmeticOverflow)
                    } else {
                        match closed_cost_basis(p, mp.1.base_asset_amount) {
                            Err(e) => Err(e),
                            Ok(basis) => {
                                let pnl_r = if mp.1.base_asset_amount > 0 {
                                    if quote_asset_swap_amount > i128::MAX {
                                        Err(Error::CastFailure)
                                    } else if basis.0 > i128::MAX {
                                        Err(Error::CastFailure)
                                    } else {
                                        Ok((quote_asset_swap_amount - basis.0) as i128)
                                    }
                                } else {
                                    if basis.0 > i128::MAX {
                                        Err(Error::CastFailure)
                                    } else if quote_asset_swap_amount > i128::MAX {
                                        Err(Error::CastFailure)
                                    } else {
                                        Ok((basis.0 - quote_asset_swap_amount) as i128)
                                    }
                                };
                                match pnl_r {
                                    Err(e) => Err(e),
                                    Ok(pnl) => match updated_collateral_outcome(collateral, pnl) {
                                        Err(e) => Err(e),
                                        Ok(c2) => Ok(
                                            ((
                                                Market { open_interest: oi as u128, ..mp.0 },
                                                MarketPosition {
                                                    quote_asset_amount: basis.1,
                                                    ..mp.1
                                                },
                                                c2,
                                                swap.2,
                                            )),
                                        ),
                                    },
                                }
                            },
                        }
                    }
                },
            }
        },
    }
}

/// Shrinks a position by a quote-asset swap amount, realizing profit or
/// loss on the closed fraction into the user's collateral. The cost basis
/// is allocated pro rata to the fraction of exposure removed; open
/// interest drops by one exactly when the position ends flat. On failure
/// nothing is changed.
pub fn reduce(
    direction: PositionDirection,
    quote_asset_swap_amount: u128,
    user: &mut User,
    market: &mut Market,
    market_position: &mut MarketPosition,
    now: i64,
    precomputed_mark_price: Option<u128>,
) -> (r: Result<i128, Error>)
    ensures
        match reduce_outcome(
            *old(market),
            *old(market_position),
            old(user).collateral,
            direction,
            quote_asset_swap_amount,
        ) {
            Ok(o) => r == Ok::<i128, Error>(o.3) && *final(market) == o.0 && *final(market_position)
                == o.1 && final(user).collateral == o.2,
            Err(e) => r == Err::<i128, Error>(e) && *final(market) == *old(market)
                && *final(market_position) == *old(market_position) && *final(user) == *old(user),
        },
{
    let swap_direction = match direction {
        PositionDirection::Long => SwapDirection::Add,
        PositionDirection::Short => SwapDirection::Remove,
    };
    let (new_base_reserve, new_quote_reserve, base_asset_swapped) =
        match calculate_quote_asset_swap(&market.amm, quote_asset_swap_amount, swap_direction) {
        Ok(t) => t,
        Err(e) => {
            return Err(e);
        },
    };
    let committed = match commit_accumulated_base(market, market_position, base_asset_swapped) {
        Ok(t) => t,
        Err(e) => {
            return Err(e);
        },
    };
    let open_interest_drop: u128 = if committed.position_base == 0 {
        1
    } else {
        0
    };
    let new_open_interest = match market.open_interest.checked_sub(open_interest_drop) {
        Some(v) => v,
        None => {
            return Err(Error::ArithmeticOverflow);
        },
    };
    let (quote_closed, new_position_quote) = match commit_closed_cost_basis(
        market_position,
        committed.position_base,
    ) {
        Ok(t) => t,
        Err(e) => {
            return Err(e);
        },
    };
    let pnl = if committed.position_base > 0 {
        let proceeds = match cast_to_i128(quote_asset_swap_amount) {
            Ok(v) => v,
            Err(e) => {
                return Err(e);
            },
        };
        let basis = match cast_to_i128(quote_closed) {
            Ok(v) => v,
            Err(e) => {
                return Err(e);
            },
        };
        proceeds - basis
    } else {
        let basis = match cast_to_i128(quote_closed) {
            Ok(v) => v,
            Err(e) => {
                return Err(e);
            },
        };
        let proceeds = match cast_to_i128(quote_asset_swap_amount) {
            Ok(v) => v,
            Err(e) => {
                return Err(e);
            },
        };
        basis - proceeds
    };
    let new_collateral = match calculate_updated_collateral(user.collateral, pnl) {
        Ok(v) => v,
        Err(e) => {
            return Err(e);
        },
    };
    market.amm.base_asset_reserve = new_base_reserve;
    market.amm.quote_asset_reserve = new_quote_reserve;
    market.open_interest = new_open_interest;
    market_position.quote_asset_amount = new_position_quote;
    apply_accumulated_base(market, market_position, committed);
    user.collateral = new_collateral;
    Ok(base_asset_swapped)
}

/// Computes the proportional unwind without committing it: the slice of
/// cost basis closed and the cost basis that remains on the position.
fn commit_closed_cost_basis(market_position: &MarketPosition, position_base_after: i128) -> (r:
    Result<(u128, u128), Error>)
    ensures
        r == closed_cost_basis(*market_position, position_base_after),
{
    let diff = match market_position.base_asset_amount.checked_sub(position_base_after) {
        Some(v) => v,
        None => {
            return Err(Error::ArithmeticOverflow);
        },
    };
    let change = unsigned_abs_i128(diff);
    let scaled = match market_position.quote_asset_amount.checked_mul(change) {
        Some(v) => v,
        None => {
            return Err(Error::ArithmeticOverflow);
        },
    };
    let magnitude_before = unsigned_abs_i128(market_position.base_asset_amount);
    let closed = match scaled.checked_div(magnitude_before) {
        Some(v) => v,
        None => {
            return Err(Error::ArithmeticOverflow);
        },
    };
    let remaining = match market_position.quote_asset_amount.checked_sub(closed) {
        Some(v) => v,
        None => {
            return Err(Error::ArithmeticOverflow);
        },
    };
    Ok((closed, remaining))
}

/// The complete outcome of a base-denominated reduce: the market, the
/// position, and the user's collateral after the trade, or the first
/// failure of the trade's checked arithmetic. Unlike the
/// quote-denominated reduce, the realized profit-or-loss sign test uses
/// the trade's direction rather than the resulting position sign.
pub open spec fn reduce_with_base_outcome(
    m: Market,
    p: MarketPosition,
    collateral: i128,
    direction: PositionDirection,
    base_asset_amount: u128,
) -> Result<(Market, MarketPosition, i128), Error> {
    match base_swap_outcome(m.amm, base_asset_amount, base_swap_direction(direction)) {
        Err(e) => Err(e),
        Ok(swap) => {
            if base_asset_amount > i128::MAX {
                Err(Error::CastFailure)
            } else {
                let delta: i128 = match direction {
                    PositionDirection::Long => base_asset_amount as i128,
                    PositionDirection::Short => (-(base_asset_amount as int)) as i128,
                };
                let m1 = Market {
                    amm: Amm { base_asset_reserve: swap.0, quote_asset_reserve: swap.1, ..m.amm },
                    ..m
                };
                match accumulated_base(m1, p, delta) {
                    Err(e) => Err(e),
                    Ok(mp) => {
                        let oi = mp.0.open_interest - (
                        if mp.1.base_asset_amount == 0 {
                            1int
                        } else {
                            0int
                        });
                        if oi < 0 {
                            Err(Error::ArithmeticOverflow)
                        } else {
                            match closed_cost_basis(p, mp.1.base_asset_amount) {
                                Err(e) => Err(e),
                                Ok(basis) => {
                                    let pnl_r = if direction is Short {
                                        if swap.2 > i128::MAX {
                                            Err(Error::CastFailure)
                                        } else if basis.0 > i128::MAX {
                                            Err(Error::CastFailure)
                                        } else {
                                            Ok((swap.2 - basis.0) as i128)
                                        }
                                    } else {
                                        if basis.0 > i128::MAX {
                                            Err(Error::CastFailure)
                                        } else if swap.2 > i128::MAX {
                                            Err(Error::CastFailure)
                                        } else {
                                            Ok((basis.0 - swap.2) as i128)
                                        }
                                    };
                                    match pnl_r {
                                        Err(e) => Err(e),
                                        Ok(pnl) => match updated_collateral_outcome(
                                            collateral,
                                            pnl,
                                        ) {
                                            Err(e) => Err(e),
                                            Ok(c2) => Ok(
                                                ((
                                                    Market { open_interest: oi as u128, ..mp.0 },
                                                    MarketPosition {
                                                        quote_asset_amount: basis.1,
                                                        ..mp.1
                                                    },
                                                    c2,
                                                )),
                                            ),
                                        },
                                    }
                                },
                            }
                        }
                    },
                }
            }
        },
    }
}

/// Shrinks a position by a fixed base-asset amount, realizing profit or
/// loss on the closed fraction into the user's collateral. The profit-or-
/// loss sign test uses the trade's direction. On failure nothing is
/// changed.
pub fn reduce_with_base_asset_amount(
    direction: PositionDirection,
    base_asset_amount: u128,
    user: &mut User,
    market: &mut Market,
    market_position: &mut MarketPosition,
    now: i64,
) -> (r: Result<(), Error>)
    ensures
        match reduce_with_base_outcome(
            *old(market),
            *old(market_position),
            old(user).collateral,
            direction,
            base_asset_amount,
        ) {
            Ok(o) => r == Ok::<(), Error>(()) && *final(market) == o.0 && *final(market_position)
                == o.1 && final(user).collateral == o.2,
            Err(e) => r == Err::<(), Error>(e) && *final(market) == *old(market)
                && *final(market_position) == *old(market_position) && *final(user) == *old(user),
        },
{
    let swap_direction = match direction {
        PositionDirection::Long => SwapDirection::Remove,
        PositionDirection::Short => SwapDirection::Add,
    };
    let (new_base_reserve, new_quote_reserve, quote_asset_swapped) =
        match calculate_base_asset_swap(&market.amm, base_asset_amount, swap_direction) {
        Ok(t) => t,
        Err(e) => {
            return Err(e);
        },
    };
    let base_magnitude = match cast_to_i128(base_asset_amount) {
        Ok(v) => v,
        Err(e) => {
            return Err(e);
        },
    };
    let delta: i128 = match direction {
        PositionDirection::Long => base_magnitude,
        PositionDirection::Short => -base_magnitude,
    };
    let committed = match commit_accumulated_base(market, market_position, delta) {
        Ok(t) => t,
        Err(e) => {
            return Err(e);
        },
    };
    let open_interest_drop: u128 = if committed.position_base == 0 {
        1
    } else {
        0
    };
    let new_open_interest = match market.open_interest.checked_sub(open_interest_drop) {
        Some(v) => v,
        None => {
            return Err(Error::ArithmeticOverflow);
        },
    };
    let (quote_closed, new_position_quote) = match commit_closed_cost_basis(
        market_position,
        committed.position_base,
    ) {
        Ok(t) => t,
        Err(e) => {
            return Err(e);
        },
    };
    let is_short = match direction {
        PositionDirection::Long => false,
        PositionDirection::Short => true,
    };
    let pnl = if is_short {
        let proceeds = match cast_to_i128(quote_asset_swapped) {
            Ok(v) => v,
            Err(e) => {
                return Err(e);
            },
        };
        let basis = match cast_to_i128(quote_closed) {
            Ok(v) => v,
            Err(e) => {
                return Err(e);
            },
        };
        proceeds - basis
    } else {
        let basis = match cast_to_i128(quote_closed) {
            Ok(v) => v,
            Err(e) => {
                return Err(e);
            },
        };
        let proceeds = match cast_to_i128(quote_asset_swapped) {
            Ok(v) => v,
            Err(e) => {
                return Err(e);
            },
        };
        basis - proceeds
    };
    let new_collateral = match calculate_updated_collateral(user.collateral, pnl) {
        Ok(v) => v,
        Err(e) => {
            return Err(e);
        },
    };
    market.amm.base_asset_reserve = new_base_reserve;
    market.amm.quote_asset_reserve = new_quote_reserve;
    market.open_interest = new_open_interest;
    market_position.quote_asset_amount = new_position_quote;
    apply_accumulated_base(market, market_position, committed);
    user.collateral = new_collateral;
    Ok(())
}

/// The complete outcome of a full close: the market, the flat position,
/// and the user's collateral after the unwind, together with the swap's
/// quote-asset value and the pre-reset base exposure, or the first failure
/// of the unwind's checked arithmetic. Closing a flat position is a no-op
/// returning zeroes.
pub open spec fn close_outcome(m: Market, p: MarketPosition, collateral: i128) -> Result<
    (Market, MarketPosition, i128, u128, i128),
    Error,
> {
    if p.base_asset_amount == 0 {
        Ok(((m, p, collateral, 0u128, 0i128)))
    } else {
        let dir = if p.base_asset_amount > 0 {
            SwapDirection::Add
        } else {
            SwapDirection::Remove
        };
        match base_swap_outcome(m.amm, abs_val(p.base_asset_amount as int) as u128, dir) {
            Err(e) => Err(e),
            Ok(swap) => match pnl_outcome(swap.2, p.quote_asset_amount, dir) {
                Err(e) => Err(e),
                Ok(pnl) => match updated_collateral_outcome(collateral, pnl) {
                    Err(e) => Err(e),
                    Ok(c2) => {
                        if m.open_interest == 0 {
                            Err(Error::ArithmeticOverflow)
                        } else {
                            let m_base = m.base_asset_amount - p.base_asset_amount;
                            if !fits_i128(m_base) {
                                Err(Error::ArithmeticOverflow)
                            } else if p.base_asset_amount > 0 {
                                let m_long = m.base_asset_amount_long - p.base_asset_amount;
                                if !fits_i128(m_long) {
                                    Err(Error::ArithmeticOverflow)
                                } else {
                                    Ok(
                                        ((
                                            Market {
                                                amm: Amm {
                                                    base_asset_reserve: swap.0,
                                                    quote_asset_reserve: swap.1,
                                                    ..m.amm
                                                },
                                                base_asset_amount: m_base as i128,
                                                base_asset_amount_long: m_long as i128,
                                                open_interest: (m.open_interest - 1) as u128,
                                                ..m
                                            },
                                            closed_position(p),
                                            c2,
                                            swap.2,
                                            p.base_asset_amount,
                                        )),
                                    )
                                }
                            } else {
                                let m_short = m.base_asset_amount_short - p.base_asset_amount;
                                if !fits_i128(m_short) {
                                    Err(Error::ArithmeticOverflow)
                                } else {
                                    Ok(
                                        ((
                                            Market {
                                                amm: Amm {
                                                    base_asset_reserve: swap.0,
                                                    quote_asset_reserve: swap.1,
                                                    ..m.amm
                                                },
                                                base_asset_amount: m_base as i128,
                                                base_asset_amount_short: m_short as i128,
                                                open_interest: (m.open_interest - 1) as u128,
                                                ..m
                                            },
                                            closed_position(p),
                                            c2,
                                            swap.2,
                                            p.base_asset_amount,
                                        )),
                                    )
                                }
                            }
                        }
                    },
                },
            },
        }
    }
}

/// A position slot after a full close: every trading field reset, the slot
/// implicitly available again.
pub open spec fn closed_position(p: MarketPosition) -> MarketPosition {
    MarketPosition {
        base_asset_amount: 0,
        quote_asset_amount: 0,
        last_cumulative_funding_rate: 0,
        last_funding_rate_ts: 0,
        ..p
    }
}

/// Fully unwinds a position's base exposure to zero in one step, realizing
/// all remaining profit or loss into the user's collateral, resetting the
/// slot, lowering open interest by one, and removing the prior exposure
/// from the market's net total and from the bucket its sign belongs to.
/// Returns the swap's quote-asset value and the pre-reset base exposure.
/// Closing a flat position is a no-op. On failure nothing is changed.
pub fn close(
    user: &mut User,
    market: &mut Market,
    market_position: &mut MarketPosition,
    now: i64,
) -> (r: Result<(u128, i128), Error>)
    ensures
        match close_outcome(*old(market), *old(market_position), old(user).collateral) {
            Ok(o) => r == Ok::<(u128, i128), Error>((o.3, o.4)) && *final(market) == o.0
                && *final(market_position) == o.1 && final(user).collateral == o.2,
            Err(e) => r == Err::<(u128, i128), Error>(e) && *final(market) == *old(market)
                && *final(market_position) == *old(market_position) && *final(user) == *old(user),
        },
{
    if market_position.base_asset_amount == 0 {
        return Ok((0, 0));
    }
    let swap_direction = if market_position.base_asset_amount > 0 {
        SwapDirection::Add
    } else {
        SwapDirection::Remove
    };
    let magnitude = unsigned_abs_i128(market_position.base_asset_amount);
    let (new_base_reserve, new_quote_reserve, base_asset_value) = match calculate_base_asset_swap(
        &market.amm,
        magnitude,
        swap_direction,
    ) {
        Ok(t) => t,
        Err(e) => {
            return Err(e);
        },
    };
    let pnl = match calculate_pnl(
        base_asset_value,
        market_position.quote_asset_amount,
        swap_direction,
    ) {
        Ok(v) => v,
        Err(e) => {
            return Err(e);
        },
    };
    let new_collateral = match calculate_updated_collateral(user.collateral, pnl) {
        Ok(v) => v,
        Err(e) => {
            return Err(e);
        },
    };
    let new_open_interest = match market.open_interest.checked_sub(1) {
        Some(v) => v,
        None => {
            return Err(Error::ArithmeticOverflow);
        },
    };
    let new_market_base = match market.base_asset_amount.checked_sub(
        market_position.base_asset_amount,
    ) {
        Some(v) => v,
        None => {
            return Err(Error::ArithmeticOverflow);
        },
    };
    let prior_base_asset_amount = market_position.base_asset_amount;
    if market_position.base_asset_amount > 0 {
        let new_long = match market.base_asset_amount_long.checked_sub(
            market_position.base_asset_amount,
        ) {
            Some(v) => v,
            None => {
                return Err(Error::ArithmeticOverflow);
            },
        };
        market.base_asset_amount_long = new_long;
    } else {
        let new_short = match market.base_asset_amount_short.checked_sub(
            market_position.base_asset_amount,
        ) {
            Some(v) => v,
            None => {
                return Err(Error::ArithmeticOverflow);
            },
        };
        market.base_asset_amount_short = new_short;
    }
    market.amm.base_asset_reserve = new_base_reserve;
    market.amm.quote_asset_reserve = new_quote_reserve;
    market.open_interest = new_open_interest;
    market.base_asset_amount = new_market_base;
    market_position.base_asset_amount = 0;
    market_position.quote_asset_amount = 0;
    market_position.last_cumulative_funding_rate = 0;
    market_position.last_funding_rate_ts = 0;
    user.collateral = new_collateral;
    Ok((base_asset_value, prior_base_asset_amount))
}

/// Finds the slot already tracking the given market; fails when the user
/// carries no exposure there.
pub fn get_position_index(user_positions: &UserPositions, market_index: u64) -> (r: Result<
    usize,
    Error,
>)
    ensures
        match r {
            Ok(i) => i < user_positions.positions@.len()
                && user_positions.positions@[i as int].spec_is_for(market_index) && (forall|j: int|
                0 <= j < i ==> !user_positions.positions@[j].spec_is_for(market_index)),
            Err(e) => e == Error::NoPositionInMarket && (forall|j: int|
                0 <= j < user_positions.positions@.len()
                    ==> !user_positions.positions@[j].spec_is_for(market_index)),
        },
{
    let n = user_positions.positions.len();
    let mut i: usize = 0;
    while i < n
        invariant
            n == user_positions.positions@.len(),
            i <= n,
            forall|j: int| 0 <= j < i ==> !user_positions.positions@[j].spec_is_for(market_index),
        decreases n - i,
    {
        if user_positions.positions[i].is_for(market_index) {
            return Ok(i);
        }
        i = i + 1;
    }
    Err(Error::NoPositionInMarket)
}

} // verus!
