//! Market-level laws proved of the engine outcomes: the aggregate
//! invariant, open-interest counting, the open-then-close collateral
//! round trip, and overflow rejection.

use vstd::arithmetic::div_mod::lemma_div_is_ordered;
use vstd::arithmetic::div_mod::lemma_div_is_ordered_by_denominator;
use vstd::arithmetic::div_mod::lemma_div_multiples_vanish;
use vstd::arithmetic::div_mod::lemma_fundamental_div_mod;
use vstd::arithmetic::div_mod::lemma_mod_bound;
use vstd::arithmetic::mul::lemma_mul_inequality;
use vstd::arithmetic::mul::lemma_mul_is_commutative;
use vstd::prelude::*;

use crate::amm::SwapDirection;
use crate::amm::base_swap_outcome;
use crate::amm::quote_swap_outcome;
use crate::error::Error;
use crate::position::PositionDirection;
use crate::position::accumulated_base;
use crate::position::close_outcome;
use crate::position::increase_outcome;
use crate::position::increase_with_base_outcome;
use crate::position::reduce_outcome;
use crate::position::reduce_with_base_outcome;
use crate::state::Market;
use crate::state::MarketPosition;

verus! {

/// How much one position contributes to a market's open-interest count.
pub open spec fn open_position_count(p: MarketPosition) -> int {
    if p.base_asset_amount != 0 {
        1
    } else {
        0
    }
}

/// The shared accumulation step keeps the aggregate invariant: the same
/// signed delta lands in the position's exposure, the market's net
/// exposure, and exactly one of the two buckets, so the net total still
/// splits into the buckets afterwards.
pub proof fn lemma_accumulated_base_aggregates(
    m: Market,
    p: MarketPosition,
    delta: i128,
    m2: Market,
    p2: MarketPosition,
)
    requires
        m.aggregates_consistent(),
        accumulated_base(m, p, delta) == Ok::<(Market, MarketPosition), Error>((m2, p2)),
    ensures
        m2.aggregates_consistent(),
        p2.base_asset_amount == p.base_asset_amount + delta,
        m2.base_asset_amount == m.base_asset_amount + delta,
        m2.open_interest == m.open_interest,
{
}

/// A quote-denominated increase keeps the aggregate invariant, and moves
/// the market's net exposure by exactly the delta it adds to the position.
pub proof fn lemma_increase_preserves_aggregates(
    m: Market,
    p: MarketPosition,
    direction: PositionDirection,
    quote_asset_amount: u128,
    m2: Market,
    p2: MarketPosition,
    delta: i128,
)
    requires
        m.aggregates_consistent(),
        increase_outcome(m, p, direction, quote_asset_amount) == Ok::<
            (Market, MarketPosition, i128),
            Error,
        >((m2, p2, delta)),
    ensures
        m2.aggregates_consistent(),
        m2.base_asset_amount - m.base_asset_amount == p2.base_asset_amount - p.base_asset_amount,
{
}

/// A base-denominated increase keeps the aggregate invariant, and moves
/// the market's net exposure by exactly the delta it adds to the position.
pub proof fn lemma_increase_with_base_preserves_aggregates(
    m: Market,
    p: MarketPosition,
    direction: PositionDirection,
    base_asset_amount: u128,
    m2: Market,
    p2: MarketPosition,
)
    requires
        m.aggregates_consistent(),
        increase_with_base_outcome(m, p, direction, base_asset_amount) == Ok::<
            (Market, MarketPosition),
            Error,
        >((m2, p2)),
    ensures
        m2.aggregates_consistent(),
        m2.base_asset_amount - m.base_asset_amount == p2.base_asset_amount - p.base_asset_amount,
{
}

/// A quote-denominated reduce keeps the aggregate invariant, and moves
/// the market's net exposure by exactly the delta it applies to the
/// position.
pub proof fn lemma_reduce_preserves_aggregates(
    m: Market,
    p: MarketPosition,
    collateral: i128,
    direction: PositionDirection,
    quote_asset_swap_amount: u128,
    m2: Market,
    p2: MarketPosition,
    c2: i128,
    delta: i128,
)
    requires
        m.aggregates_consistent(),
        reduce_outcome(m, p, collateral, direction, quote_asset_swap_amount) == Ok::<
            (Market, MarketPosition, i128, i128),
            Error,
        >((m2, p2, c2, delta)),
    ensures
        m2.aggregates_consistent(),
        m2.base_asset_amount - m.base_asset_amount == p2.base_asset_amount - p.base_asset_amount,
        p2.base_asset_amount == p.base_asset_amount + delta,
{
}

/// A base-denominated reduce keeps the aggregate invariant, and moves the
/// market's net exposure by exactly the delta it applies to the position.
pub proof fn lemma_reduce_with_base_preserves_aggregates(
    m: Market,
    p: MarketPosition,
    collateral: i128,
    direction: PositionDirection,
    base_asset_amount: u128,
    m2: Market,
    p2: MarketPosition,
    c2: i128,
)
    requires
        m.aggregates_consistent(),
        reduce_with_base_outcome(m, p, collateral, direction, base_asset_amount) == Ok::<
            (Market, MarketPosition, i128),
            Error,
        >((m2, p2, c2)),
    ensures
        m2.aggregates_consistent(),
        m2.base_asset_amount - m.base_asset_amount == p2.base_asset_amount - p.base_asset_amount,
{
}

/// A full close keeps the aggregate invariant: the position's entire prior
/// exposure leaves the market's net total and the bucket its sign selected.
pub proof fn lemma_close_preserves_aggregates(
    m: Market,
    p: MarketPosition,
    collateral: i128,
    m2: Market,
    p2: MarketPosition,
    c2: i128,
    value: u128,
    prior: i128,
)
    requires
        m.aggregates_consistent(),
        close_outcome(m, p, collateral) == Ok::<(Market, MarketPosition, i128, u128, i128), Error>(
            (m2, p2, c2, value, prior),
        ),
    ensures
        m2.aggregates_consistent(),
        m2.base_asset_amount == m.base_asset_amount - p.base_asset_amount,
        p2.base_asset_amount == 0,
        prior == p.base_asset_amount,
{
}

/// A quote-denominated increase raises open interest by one exactly when
/// it opens a flat position with a non-zero budget; and, as long as the
/// trade does not degenerately leave the position flat, the change in open
/// interest equals the change in the number of open positions.
pub proof fn lemma_increase_open_interest(
    m: Market,
    p: MarketPosition,
    direction: PositionDirection,
    quote_asset_amount: u128,
    m2: Market,
    p2: MarketPosition,
    delta: i128,
)
    requires
        increase_outcome(m, p, direction, quote_asset_amount) == Ok::<
            (Market, MarketPosition, i128),
            Error,
        >((m2, p2, delta)),
    ensures
        m2.open_interest == m.open_interest + (
        if p.base_asset_amount == 0 && quote_asset_amount != 0 {
            1int
        } else {
            0int
        }),
        p2.base_asset_amount != 0 || quote_asset_amount == 0 ==> m2.open_interest
            - m.open_interest == open_position_count(p2) - open_position_count(p),
{
}

/// A base-denominated increase raises open interest by one exactly when
/// it opens a flat position with a non-zero target; and, as long as the
/// trade does not degenerately leave the position flat, the change in open
/// interest equals the change in the number of open positions.
pub proof fn lemma_increase_with_base_open_interest(
    m: Market,
    p: MarketPosition,
    direction: PositionDirection,
    base_asset_amount: u128,
    m2: Market,
    p2: MarketPosition,
)
    requires
        increase_with_base_outcome(m, p, direction, base_asset_amount) == Ok::<
            (Market, MarketPosition),
            Error,
        >((m2, p2)),
    ensures
        m2.open_interest == m.open_interest + (
        if p.base_asset_amount == 0 && base_asset_amount != 0 {
            1int
        } else {
            0int
        }),
        p2.base_asset_amount != 0 || base_asset_amount == 0 ==> m2.open_interest - m.open_interest
            == open_position_count(p2) - open_position_count(p),
{
}

/// A quote-denominated reduce lowers open interest by one exactly when it
/// leaves the position flat — a full close achieved through partial
/// mechanics, identical in effect to calling close — and, started from an
/// open position, its open-interest change equals the change in the number
/// of open positions.
pub proof fn lemma_reduce_open_interest(
    m: Market,
    p: MarketPosition,
    collateral: i128,
    direction: PositionDirection,
    quote_asset_swap_amount: u128,
    m2: Market,
    p2: MarketPosition,
    c2: i128,
    delta: i128,
)
    requires
        reduce_outcome(m, p, collateral, direction, quote_asset_swap_amount) == Ok::<
            (Market, MarketPosition, i128, i128),
            Error,
        >((m2, p2, c2, delta)),
    ensures
        m2.open_interest == m.open_interest - (
        if p2.base_asset_amount == 0 {
            1int
        } else {
            0int
        }),
        p2.base_asset_amount == 0 ==> m2.open_interest + 1 == m.open_interest,
        p.base_asset_amount != 0 ==> m2.open_interest - m.open_interest == open_position_count(p2)
            - open_position_count(p),
{
}

/// A base-denominated reduce lowers open interest by one exactly when it
/// leaves the position flat, and, started from an open position, its
/// open-interest change equals the change in the number of open positions.
pub proof fn lemma_reduce_with_base_open_interest(
    m: Market,
    p: MarketPosition,
    collateral: i128,
    direction: PositionDirection,
    base_asset_amount: u128,
    m2: Market,
    p2: MarketPosition,
    c2: i128,
)
    requires
        reduce_with_base_outcome(m, p, collateral, direction, base_asset_amount) == Ok::<
            (Market, MarketPosition, i128),
            Error,
        >((m2, p2, c2)),
    ensures
        m2.open_interest == m.open_interest - (
        if p2.base_asset_amount == 0 {
            1int
        } else {
            0int
        }),
        p2.base_asset_amount == 0 ==> m2.open_interest + 1 == m.open_interest,
        p.base_asset_amount != 0 ==> m2.open_interest - m.open_interest == open_position_count(p2)
            - open_position_count(p),
{
}

/// A close lowers open interest by one exactly when the position was
/// open, leaves everything untouched when it was flat, and always changes
/// open interest by the change in the number of open positions.
pub proof fn lemma_close_open_interest(
    m: Market,
    p: MarketPosition,
    collateral: i128,
    m2: Market,
    p2: MarketPosition,
    c2: i128,
    value: u128,
    prior: i128,
)
    requires
        close_outcome(m, p, collateral) == Ok::<(Market, MarketPosition, i128, u128, i128), Error>(
            (m2, p2, c2, value, prior),
        ),
    ensures
        p.base_asset_amount != 0 ==> m2.open_interest + 1 == m.open_interest,
        p.base_asset_amount == 0 ==> m2 == m && p2 == p && c2 == collateral,
        m2.open_interest - m.open_interest == open_position_count(p2) - open_position_count(p),
        p2.spec_is_available(),
{
}

/// Opening a position from a clean flat slot and closing it right away
/// brings the collateral back to its starting value shifted by exactly
/// the difference between the closing swap's quote value and the quote
/// budget spent — the only drift is what the curve's truncating integer
/// arithmetic moved between the two swaps.
pub proof fn lemma_open_close_round_trip(
    m: Market,
    p: MarketPosition,
    direction: PositionDirection,
    quote_asset_amount: u128,
    collateral: i128,
    m1: Market,
    p1: MarketPosition,
    delta: i128,
    m2: Market,
    p2: MarketPosition,
    c2: i128,
    value: u128,
    prior: i128,
)
    requires
        p.spec_is_available(),
        p.quote_asset_amount == 0,
        increase_outcome(m, p, direction, quote_asset_amount) == Ok::<
            (Market, MarketPosition, i128),
            Error,
        >((m1, p1, delta)),
        delta != 0,
        close_outcome(m1, p1, collateral) == Ok::<(Market, MarketPosition, i128, u128, i128), Error>(
            (m2, p2, c2, value, prior),
        ),
    ensures
        delta > 0 ==> c2 == collateral + value - quote_asset_amount,
        delta < 0 ==> c2 == collateral + quote_asset_amount - value,
        p2.spec_is_available() && p2.quote_asset_amount == 0,
        prior == delta,
{
}

/// On this curve the drift of an immediate round trip is never against
/// the trader: a long opened from a clean flat slot and closed at once,
/// with no other trade in between, fetches at least the quote budget that
/// was spent, because both truncating divisions round the curve's
/// invariant downwards. Together with the round-trip law above, the
/// collateral therefore never comes back lower than it started.
pub proof fn lemma_immediate_round_trip_no_loss(
    m: Market,
    p: MarketPosition,
    quote_asset_amount: u128,
    collateral: i128,
    m1: Market,
    p1: MarketPosition,
    delta: i128,
    m2: Market,
    p2: MarketPosition,
    c2: i128,
    value: u128,
    prior: i128,
)
    requires
        p.spec_is_available(),
        p.quote_asset_amount == 0,
        increase_outcome(m, p, PositionDirection::Long, quote_asset_amount) == Ok::<
            (Market, MarketPosition, i128),
            Error,
        >((m1, p1, delta)),
        delta != 0,
        close_outcome(m1, p1, collateral) == Ok::<(Market, MarketPosition, i128, u128, i128), Error>(
            (m2, p2, c2, value, prior),
        ),
    ensures
        value >= quote_asset_amount,
        c2 >= collateral,
{
    let b0 = m.amm.base_asset_reserve as int;
    let q0 = m.amm.quote_asset_reserve as int;
    let q = quote_asset_amount as int;
    let k = b0 * q0;
    let nq = q0 + q;
    let nb = k / nq;
    // a zero budget would have been the no-op with a zero delta
    assert(q != 0);
    assert(quote_swap_outcome(m.amm, quote_asset_amount, SwapDirection::Add) is Ok);
    assert(nq > 0);
    assert(delta == b0 - nb);
    assert(p1.base_asset_amount == delta);
    assert(p1.quote_asset_amount == quote_asset_amount);
    assert(m1.amm.base_asset_reserve == nb);
    assert(m1.amm.quote_asset_reserve == nq);
    // the opening swap cannot hand out more base than the reserve holds
    assert(nb <= b0) by {
        lemma_mul_is_commutative(b0, q0);
        lemma_mul_inequality(q0, nq, b0);
        lemma_mul_is_commutative(q0, b0);
        lemma_mul_is_commutative(nq, b0);
        lemma_div_is_ordered(k, nq * b0, nq);
        lemma_div_multiples_vanish(b0, nq);
    }
    assert(delta > 0);
    // the closing swap returns the full exposure to the base reserve
    assert(base_swap_outcome(m1.amm, delta as u128, SwapDirection::Add) is Ok);
    let k2 = nb * nq;
    let back_base = nb + delta;
    assert(back_base == b0);
    let back_quote = k2 / b0;
    // the opening division already rounded the invariant downwards
    assert(k2 <= k) by {
        lemma_fundamental_div_mod(k, nq);
        lemma_mod_bound(k, nq);
        lemma_mul_is_commutative(nb, nq);
    }
    // so the quote reserve comes back to no more than it held at first
    assert(back_quote <= q0) by {
        lemma_div_is_ordered(k2, k, b0);
        lemma_div_multiples_vanish(q0, b0);
    }
    assert(value == nq - back_quote);
    assert(value >= q);
}

/// The mirror image for a short: opened from a clean flat slot and
/// closed at once, the short's closing swap costs at most the quote
/// budget that opened it, so the collateral never comes back lower than
/// it started on this side of the curve either.
pub proof fn lemma_immediate_short_round_trip_no_loss(
    m: Market,
    p: MarketPosition,
    quote_asset_amount: u128,
    collateral: i128,
    m1: Market,
    p1: MarketPosition,
    delta: i128,
    m2: Market,
    p2: MarketPosition,
    c2: i128,
    value: u128,
    prior: i128,
)
    requires
        p.spec_is_available(),
        p.quote_asset_amount == 0,
        increase_outcome(m, p, PositionDirection::Short, quote_asset_amount) == Ok::<
            (Market, MarketPosition, i128),
            Error,
        >((m1, p1, delta)),
        delta != 0,
        close_outcome(m1, p1, collateral) == Ok::<(Market, MarketPosition, i128, u128, i128), Error>(
            (m2, p2, c2, value, prior),
        ),
    ensures
        value <= quote_asset_amount,
        c2 >= collateral,
{
    let b0 = m.amm.base_asset_reserve as int;
    let q0 = m.amm.quote_asset_reserve as int;
    let q = quote_asset_amount as int;
    let k = b0 * q0;
    let nq = q0 - q;
    let nb = k / nq;
    // a zero budget would have been the no-op with a zero delta
    assert(q != 0);
    assert(quote_swap_outcome(m.amm, quote_asset_amount, SwapDirection::Remove) is Ok);
    assert(nq > 0);
    assert(delta == b0 - nb);
    assert(p1.base_asset_amount == delta);
    assert(p1.quote_asset_amount == quote_asset_amount);
    assert(m1.amm.base_asset_reserve == nb);
    assert(m1.amm.quote_asset_reserve == nq);
    // shrinking the quote reserve can only grow the base reserve
    assert(nb >= b0) by {
        lemma_div_is_ordered_by_denominator(k, nq, q0);
        lemma_mul_is_commutative(b0, q0);
        lemma_div_multiples_vanish(b0, q0);
    }
    assert(delta < 0);
    // the closing swap takes the full exposure back out of the reserve
    assert(base_swap_outcome(m1.amm, (-delta) as u128, SwapDirection::Remove) is Ok);
    let k2 = nb * nq;
    let back_base = nb + delta;
    assert(back_base == b0);
    assert(b0 > 0);
    let back_quote = k2 / b0;
    // the opening division already rounded the invariant downwards
    assert(k2 <= k) by {
        lemma_fundamental_div_mod(k, nq);
        lemma_mod_bound(k, nq);
        lemma_mul_is_commutative(nb, nq);
    }
    // buying the exposure back costs no more than the reserve gave up
    assert(back_quote <= q0) by {
        lemma_div_is_ordered(k2, k, b0);
        lemma_mul_is_commutative(b0, q0);
        lemma_div_multiples_vanish(q0, b0);
    }
    assert(back_quote >= nq) by {
        lemma_mul_inequality(b0, nb, nq);
        lemma_mul_is_commutative(b0, nq);
        lemma_div_is_ordered(b0 * nq, k2, b0);
        lemma_div_multiples_vanish(nq, b0);
    }
    assert(value == back_quote - nq);
    assert(value <= q);
}

/// A quote budget that would push the position's cost basis past the
/// unsigned range is refused with an arithmetic overflow — never wrapped
/// or truncated.
pub proof fn lemma_increase_quote_overflow(
    m: Market,
    p: MarketPosition,
    direction: PositionDirection,
    quote_asset_amount: u128,
)
    requires
        quote_asset_amount != 0,
        p.quote_asset_amount + quote_asset_amount > u128::MAX,
    ensures
        increase_outcome(m, p, direction, quote_asset_amount) == Err::<
            (Market, MarketPosition, i128),
            Error,
        >(Error::ArithmeticOverflow),
{
}

} // verus!
