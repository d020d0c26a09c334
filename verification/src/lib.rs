//! A position-accounting engine for a leveraged-trading ledger.
//!
//! The engine tracks each trader's exposure to synthetic markets priced by a
//! virtual automated market maker, and keeps the trader's collateral, the
//! realized profit and loss, and the market-wide aggregates (net exposure,
//! long and short buckets, open-interest count) consistent as positions are
//! opened, enlarged, shrunk, and closed.
//!
//! Every public operation carries a full functional contract: its outcome,
//! success and failure alike, is given by a spec-level outcome function, and
//! a failing call leaves every structure it was handed unchanged. All
//! arithmetic is checked; no operation wraps, truncates, or panics.

pub mod amm;
pub mod error;
pub mod laws;
pub mod math;
pub mod position;
pub mod state;
