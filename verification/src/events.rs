//! Append-only log of state-change notifications for external observers.

use vstd::prelude::*;
use crate::market::Outcome;

verus! {

/// A stake was accepted.
#[derive(Clone, Copy, PartialEq, Eq, Structural, Debug)]
pub struct Placed {
    pub owner: u64,
    pub market: u64,
    pub side: Outcome,
    pub amount: u64,
}

/// An outcome was recorded.
#[derive(Clone, Copy, PartialEq, Eq, Structural, Debug)]
pub struct Resolved {
    pub market: u64,
    pub winner: Outcome,
}

/// A decisive payout was made.
#[derive(Clone, Copy, PartialEq, Eq, Structural, Debug)]
pub struct Claimed {
    pub owner: u64,
    pub market: u64,
    pub amount: u64,
}

/// One entry of the event log.
#[derive(Clone, Copy, PartialEq, Eq, Structural, Debug)]
pub enum Event {
    Placed(Placed),
    Resolved(Resolved),
    Claimed(Claimed),
}

/// Events in emission order; entries are only ever appended.
#[derive(Debug)]
pub struct EventLog {
    pub events: Vec<Event>,
}

impl View for EventLog {
    type V = Seq<Event>;

    open spec fn view(&self) -> Seq<Event> {
        self.events@
    }
}

impl EventLog {
    /// An empty log.
    pub fn new() -> (log: EventLog)
        ensures
            log@ == Seq::<Event>::empty(),
    {
        EventLog { events: Vec::new() }
    }

    /// Appends one entry.
    pub fn emit(&mut self, e: Event)
        ensures
            final(self)@ == old(self)@.push(e),
    {
        self.events.push(e);
    }
}

} // verus!
