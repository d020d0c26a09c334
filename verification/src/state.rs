//! The data model: a market's shared aggregates, a user's per-market
//! position slot, the fixed-capacity slot list, and the user's collateral.

use vstd::prelude::*;

use crate::amm::Amm;

verus! {

/// One tradable instrument's shared state: the pricing curve and the
/// market-wide aggregate exposure mutated by every trade.
#[derive(Clone, Copy, Debug, PartialEq, Eq, Structural)]
pub struct Market {
    /// Virtual AMM state owned by this market.
    pub amm: Amm,
    /// Signed net base-asset exposure across all traders in this market.
    pub base_asset_amount: i128,
    /// Running total of the contributions whose position is currently long.
    pub base_asset_amount_long: i128,
    /// Running total of the contributions whose position is currently short.
    pub base_asset_amount_short: i128,
    /// Count of non-flat positions in this market.
    pub open_interest: u128,
}

impl Market {
    /// The aggregate invariant: the net exposure splits exactly into the
    /// long and the short bucket.
    pub open spec fn aggregates_consistent(self) -> bool {
        self.base_asset_amount == self.base_asset_amount_long + self.base_asset_amount_short
    }
}

/// One user's exposure to one market. A slot is flat (and thereby
/// available) exactly when its base-asset amount is zero.
#[derive(Clone, Copy, Debug, PartialEq, Eq, Structural)]
pub struct MarketPosition {
    /// Which market this slot tracks.
    pub market_index: u64,
    /// Signed exposure: positive is long, negative is short, zero is flat.
    pub base_asset_amount: i128,
    /// Notional cost basis attributed to the open base-asset exposure.
    pub quote_asset_amount: u128,
    /// Funding-rate snapshot taken when the position was opened.
    pub last_cumulative_funding_rate: i128,
    /// Timestamp companion to the funding-rate snapshot.
    pub last_funding_rate_ts: i64,
    /// Count of resting orders referencing this slot; never mutated here.
    pub open_orders: u128,
}

impl MarketPosition {
    /// A slot is available when it carries no exposure.
    pub open spec fn spec_is_available(self) -> bool {
        self.base_asset_amount == 0
    }

    /// Whether this slot is free to be claimed for a new market.
    pub fn is_available(&self) -> (r: bool)
        ensures
            r == self.spec_is_available(),
    {
        self.base_asset_amount == 0
    }

    /// A slot tracks a market when it carries exposure there.
    pub open spec fn spec_is_for(self, market_index: u64) -> bool {
        self.market_index == market_index && !self.spec_is_available()
    }

    /// Whether this slot currently tracks the given market.
    pub fn is_for(&self, market_index: u64) -> (r: bool)
        ensures
            r == self.spec_is_for(market_index),
    {
        self.market_index == market_index && self.base_asset_amount != 0
    }
}

/// A zero-initialized slot claimed for the given market.
pub open spec fn fresh_position(market_index: u64) -> MarketPosition {
    MarketPosition {
        market_index,
        base_asset_amount: 0,
        quote_asset_amount: 0,
        last_cumulative_funding_rate: 0,
        last_funding_rate_ts: 0,
        open_orders: 0,
    }
}

/// A user's fixed-capacity, ordered list of position slots. The list is
/// never grown or shrunk by this crate; a trade only rewrites slots.
#[derive(Clone, Debug, PartialEq, Eq)]
pub struct UserPositions {
    pub positions: Vec<MarketPosition>,
}

/// A user's account-level state: the collateral balance, the sole
/// destination for realized profit and loss.
#[derive(Clone, Copy, Debug, PartialEq, Eq, Structural)]
pub struct User {
    /// Signed collateral, in quote-asset units.
    pub collateral: i128,
}

} // verus!
