//! The aggregator: the single owner of the last-known counter pair.
//!
//! The aggregator's loop multiplexes three event sources — a value from
//! producer A, a value from producer B, a query trigger — with no fixed
//! priority among them. Its whole behaviour is the transition below:
//! the state after one event and the action it owes in return. The
//! embedding program runs the loop itself (the multiplexed wait cannot
//! be verified); every decision the loop takes goes through
//! `handle_event` and is proved against `spec_step` / `spec_action`.

use vstd::prelude::*;

use crate::bridge::answer_query;
use crate::snapshot::Snapshot;

verus! {

/// The only shared state of the whole system: the value most recently
/// received from each producer. It is owned by the aggregator's single
/// execution context alone, so no lock guards it.
#[derive(Clone, Copy, Debug, PartialEq, Eq, Structural)]
pub struct AggregatorState {
    pub last_a: u64,
    pub last_b: u64,
}

/// One event the aggregator's multiplexed wait can deliver.
#[derive(Clone, Copy, Debug, PartialEq, Eq, Structural)]
pub enum AggEvent {
    /// Producer A emitted a new cumulative value.
    UpdateA(u64),
    /// Producer B emitted a new cumulative value.
    UpdateB(u64),
    /// Producer A's channel is permanently closed. The slot freezes:
    /// its last value keeps being served, unchanged, forever.
    ClosedA,
    /// Producer B's channel is permanently closed; the slot freezes.
    ClosedB,
    /// A payload-free query trigger arrived.
    Query,
}

/// What the aggregator owes after servicing one event.
#[derive(Clone, Copy, Debug, PartialEq, Eq, Structural)]
pub enum AggAction {
    /// Nothing to deliver; keep waiting.
    Continue,
    /// Answer the pending query with this snapshot, immediately,
    /// without waiting for fresher producer data.
    Respond(Snapshot),
}

/// The aggregator's state at startup: both slots at 0.
pub open spec fn spec_init() -> AggregatorState {
    AggregatorState { last_a: 0, last_b: 0 }
}

/// The state after servicing one event: a producer value overwrites its
/// slot and nothing else; a closed channel and a query change nothing.
pub open spec fn spec_step(s: AggregatorState, e: AggEvent) -> AggregatorState {
    match e {
        AggEvent::UpdateA(v) => AggregatorState { last_a: v, last_b: s.last_b },
        AggEvent::UpdateB(v) => AggregatorState { last_a: s.last_a, last_b: v },
        AggEvent::ClosedA => s,
        AggEvent::ClosedB => s,
        AggEvent::Query => s,
    }
}

/// The snapshot a query observes in state `s`: exactly the held pair.
pub open spec fn spec_snapshot(s: AggregatorState) -> Snapshot {
    Snapshot { value_a: s.last_a, value_b: s.last_b }
}

/// The action owed for one event: a query is answered at once with the
/// current pair; every other event is serviced silently.
pub open spec fn spec_action(s: AggregatorState, e: AggEvent) -> AggAction {
    match e {
        AggEvent::Query => AggAction::Respond(spec_snapshot(s)),
        _ => AggAction::Continue,
    }
}

impl AggregatorState {
    /// The startup state: both slots at 0.
    pub fn new() -> (r: AggregatorState)
        ensures
            r == spec_init(),
    {
        AggregatorState { last_a: 0, last_b: 0 }
    }

    /// Services one event: the state moves exactly by `spec_step` and
    /// the returned action is exactly `spec_action`.
    pub fn handle_event(&mut self, e: AggEvent) -> (act: AggAction)
        ensures
            *final(self) == spec_step(*old(self), e),
            act == spec_action(*old(self), e),
    {
        match e {
            AggEvent::UpdateA(v) => {
                self.last_a = v;
                AggAction::Continue
            },
            AggEvent::UpdateB(v) => {
                self.last_b = v;
                AggAction::Continue
            },
            AggEvent::ClosedA => AggAction::Continue,
            AggEvent::ClosedB => AggAction::Continue,
            AggEvent::Query => AggAction::Respond(
                Snapshot { value_a: self.last_a, value_b: self.last_b },
            ),
        }
    }

    /// One whole turn of the aggregator's loop body: services the
    /// event and, where it was a query, answers it at once on the
    /// response channel. The state moves exactly by `spec_step`; the
    /// action taken is exactly `spec_action`; `delivered` reports
    /// whether a response that was owed reached its caller — a caller
    /// that abandoned its query costs one `false` and nothing more.
    pub fn service_event(
        &mut self,
        e: AggEvent,
        responder: &crossbeam_channel::Sender<(u64, u64)>,
    ) -> (r: (AggAction, bool))
        ensures
            *final(self) == spec_step(*old(self), e),
            r.0 == spec_action(*old(self), e),
            r.0 is Continue ==> r.1,
    {
        let act = self.handle_event(e);
        let delivered = match &act {
            AggAction::Respond(snap) => answer_query(responder, *snap),
            AggAction::Continue => true,
        };
        (act, delivered)
    }

    /// The pair a query would observe right now.
    pub fn snapshot(&self) -> (r: Snapshot)
        ensures
            r == spec_snapshot(*self),
    {
        Snapshot { value_a: self.last_a, value_b: self.last_b }
    }
}

} // verus!
