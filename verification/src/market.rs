//! Market and position records.
//!
//! A market moves strictly forward through `Open -> Closed -> Resolved`. A
//! position accumulates one owner's stake on one side of one market and is
//! claimed at most once. Principals (authority, resolver, owners) and record
//! addresses are opaque to the settlement core and carried as plain 64-bit
//! identities; the host's keyed storage guarantees they are injective.

use vstd::prelude::*;

verus! {

/// Longest accepted market question, in bytes of its UTF-8 encoding.
pub const QUESTION_MAX_LEN: usize = 160;

/// Byte length of a text as stored: the length of its UTF-8 encoding.
pub open spec fn byte_len(s: Seq<char>) -> int {
    vstd::utf8::encode_utf8(s).len() as int
}

/// Highest accepted fee rate, in basis points (10%).
pub const MAX_FEE_BPS: u16 = 1000;

/// Basis points in the whole: fees are `pot * fee_bps / BPS_DENOMINATOR`.
pub const BPS_DENOMINATOR: u64 = 10_000;

/// A market must stay open at least this long after creation.
pub const MIN_CLOSE_DELAY: i64 = 60;

/// Smallest accepted stake, in minimal value units.
pub const MIN_STAKE: u64 = 50_000;

/// Lifecycle states, in order; no transition skips a state or goes back.
#[derive(Clone, Copy, PartialEq, Eq, Structural, Debug)]
pub enum MarketStatus {
    Open,
    Closed,
    Resolved,
}

/// A side of the market, or `Unset`.
///
/// Before resolution the `winner` field is meaningless and holds `Unset`.
/// After resolution `Unset` means the market was voided: every position is
/// refunded its stake, fee-free.
#[derive(Clone, Copy, PartialEq, Eq, Structural, Debug)]
pub enum Outcome {
    Unset,
    Yes,
    No,
}

/// One market's configuration, running totals and lifecycle state.
#[derive(Debug)]
pub struct Market {
    /// Owner principal; may withdraw accumulated fees, nothing more.
    pub authority: u64,
    /// Principal authorized to set the outcome once the market is closed.
    pub resolver: u64,
    pub status: MarketStatus,
    /// Protocol fee rate in basis points, fixed at creation.
    pub fee_bps: u16,
    /// Timestamp from which the market no longer accepts stakes.
    pub close_time: i64,
    /// Resolved outcome; `Unset` until resolution, and `Unset` after a void
    /// resolution.
    pub winner: Outcome,
    /// Running sum of all stakes placed on Yes.
    pub total_yes: u64,
    /// Running sum of all stakes placed on No.
    pub total_no: u64,
    /// Descriptive text, at most `QUESTION_MAX_LEN` bytes.
    pub question: String,
}

impl Market {
    /// Bounds that creation establishes and no later operation disturbs.
    pub open spec fn well_formed(self) -> bool {
        &&& self.fee_bps <= MAX_FEE_BPS
        &&& byte_len(self.question@) <= QUESTION_MAX_LEN
    }

    /// Total value staked across both sides.
    pub open spec fn pot(self) -> int {
        self.total_yes + self.total_no
    }

    /// Running total of the side recorded as the winner.
    pub open spec fn winner_total(self) -> int {
        if self.winner is Yes {
            self.total_yes as int
        } else {
            self.total_no as int
        }
    }
}

/// One owner's cumulative stake on one side of one market.
///
/// Created lazily on the first stake for its `(market, owner, side)` key; a
/// fresh record has `amount == 0` and is initialized by that first stake.
#[derive(Clone, Copy, PartialEq, Eq, Structural, Debug)]
pub struct Position {
    /// Address of the market this position belongs to.
    pub market: u64,
    /// Principal that staked and may claim.
    pub owner: u64,
    /// Side the stake is on, fixed at first stake.
    pub side: Outcome,
    /// Cumulative stake; non-decreasing until claimed.
    pub amount: u64,
    /// One-way flag: set exactly once, by a successful claim.
    pub claimed: bool,
}

impl Position {
    /// The market's running totals are sums of position amounts per side, so
    /// a single position never exceeds the total of its side.
    pub open spec fn consistent_with(self, m: Market) -> bool {
        &&& self.side is Yes ==> self.amount <= m.total_yes
        &&& self.side is No ==> self.amount <= m.total_no
    }
}

} // verus!
