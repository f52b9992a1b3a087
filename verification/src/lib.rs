//! Settlement core of a binary-outcome prediction market.
//!
//! Value staked on the Yes or No side of a market is escrowed in two
//! outcome-labeled vaults; a third vault collects the protocol fee. Once the
//! market is resolved, each winning position claims a pro-rata share of the
//! fee-adjusted pot, computed entirely in checked integer arithmetic. The
//! surrounding ledger runtime (durable keyed storage, signer authentication,
//! the wall clock, and the raw value-transfer primitive) is out of scope:
//! callers hand every operation the records it touches, the caller identity,
//! and the current time as plain values.

pub mod errors;
pub mod market;
pub mod vault;
pub mod events;
pub mod engine;
pub mod laws;
