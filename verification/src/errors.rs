//! Reasons an operation can be rejected.
//!
//! Every failure is synchronous and leaves the records untouched; the caller
//! may retry after correcting the input or waiting for a state transition.

use vstd::prelude::*;

verus! {

#[derive(Clone, Copy, PartialEq, Eq, Structural, Debug)]
pub enum ErrorCode {
    /// The market question exceeds the length bound.
    QuestionTooLong,
    /// The fee rate exceeds the maximum of 10%.
    FeeTooHigh,
    /// The close time is not far enough in the future.
    CloseTooSoon,
    /// The market no longer accepts stakes (wrong status or past close time).
    MarketClosed,
    /// The close time has not been reached yet.
    TooEarlyToClose,
    /// The operation was attempted in the wrong lifecycle state.
    InvalidStatus,
    /// The caller is not the market's resolver.
    NotResolver,
    /// The side is not one of Yes or No.
    InvalidSide,
    /// The side index does not match the side.
    InvalidSeed,
    /// The position is not on the winning side.
    NotWinningSide,
    /// The position has already been claimed.
    AlreadyClaimed,
    /// The caller does not own the position.
    NotOwner,
    /// The caller is not the market's authority.
    NotAuthority,
    /// The position belongs to a different market.
    InvalidMarket,
    /// No value was staked on the market, or none on the winning side.
    EmptyPot,
    /// A 64-bit balance or total would overflow or underflow.
    MathOverflow,
    /// The stake is below the minimum threshold.
    MinStake,
}

} // verus!
