//! Failure kinds shared by every engine of the crate.

use vstd::prelude::*;

verus! {

/// Why an operation was refused. Every failure aborts the whole call:
/// no partial mutation of the structures handed in is observable.
#[derive(Clone, Copy, Debug, PartialEq, Eq, Structural)]
pub enum Error {
    /// No available slot is left in the user's fixed-capacity position list.
    MaxPositionsReached,
    /// The user has no position tracking the requested market.
    NoPositionInMarket,
    /// A checked add, sub, mul or div would overflow, underflow, or divide
    /// by zero.
    ArithmeticOverflow,
    /// A signed/unsigned conversion does not fit the destination type.
    CastFailure,
}

} // verus!
