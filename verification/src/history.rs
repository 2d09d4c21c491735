//! Laws of whole runs of the aggregator.
//!
//! A run is the sequence of events the aggregator has serviced, oldest
//! first. Since the aggregator is the sole owner of its state and
//! services events one at a time, every concurrent execution of the
//! system is one such sequence; the lemmas below are therefore laws of
//! every interleaving of producer updates and queries.

use vstd::prelude::*;

use crate::aggregator::{spec_action, spec_init, spec_snapshot, spec_step, AggAction, AggEvent,
    AggregatorState};

verus! {

/// The state after servicing a whole sequence of events, starting from
/// the startup state.
pub open spec fn spec_run(es: Seq<AggEvent>) -> AggregatorState
    decreases es.len(),
{
    if es.len() == 0 {
        spec_init()
    } else {
        spec_step(spec_run(es.drop_last()), es.last())
    }
}

/// The value most recently emitted by producer A within `es`, or the
/// initial 0 where A emitted nothing.
pub open spec fn spec_latest_a(es: Seq<AggEvent>) -> u64
    decreases es.len(),
{
    if es.len() == 0 {
        0u64
    } else if es.last() is UpdateA {
        es.last()->UpdateA_0
    } else {
        spec_latest_a(es.drop_last())
    }
}

/// The value most recently emitted by producer B within `es`, or the
/// initial 0 where B emitted nothing.
pub open spec fn spec_latest_b(es: Seq<AggEvent>) -> u64
    decreases es.len(),
{
    if es.len() == 0 {
        0u64
    } else if es.last() is UpdateB {
        es.last()->UpdateB_0
    } else {
        spec_latest_b(es.drop_last())
    }
}

/// No producer update occurs in `es` (queries and closures may).
pub open spec fn no_updates(es: Seq<AggEvent>) -> bool {
    forall|i: int|
        0 <= i < es.len() ==> !((#[trigger] es[i]) is UpdateA) && !(es[i] is UpdateB)
}

/// No update from producer A occurs in `es`.
pub open spec fn no_a_updates(es: Seq<AggEvent>) -> bool {
    forall|i: int| 0 <= i < es.len() ==> !((#[trigger] es[i]) is UpdateA)
}

/// Producer A's emissions within `es` are non-decreasing in the order
/// they occur. (Each producer's channel delivers in emission order, and
/// the producer's totals strictly increase, so every real run has this.)
pub open spec fn a_emissions_nondecreasing(es: Seq<AggEvent>) -> bool {
    forall|i: int, j: int|
        0 <= i <= j < es.len() && (#[trigger] es[i]) is UpdateA && (#[trigger] es[j]) is UpdateA
            ==> es[i]->UpdateA_0 <= es[j]->UpdateA_0
}

/// Producer B's emissions within `es` are non-decreasing in order.
pub open spec fn b_emissions_nondecreasing(es: Seq<AggEvent>) -> bool {
    forall|i: int, j: int|
        0 <= i <= j < es.len() && (#[trigger] es[i]) is UpdateB && (#[trigger] es[j]) is UpdateB
            ==> es[i]->UpdateB_0 <= es[j]->UpdateB_0
}

/// Law: after any run, each held slot is exactly the most recently
/// emitted value on that producer's channel — no value is served out of
/// order within one producer's stream.
pub proof fn lemma_holds_latest(es: Seq<AggEvent>)
    ensures
        spec_run(es).last_a == spec_latest_a(es),
        spec_run(es).last_b == spec_latest_b(es),
    decreases es.len(),
{
    if es.len() > 0 {
        lemma_holds_latest(es.drop_last());
    }
}

/// Law: events that carry no producer update leave the state exactly as
/// it was — queries and channel closures never move a slot.
pub proof fn lemma_quiet_preserves_state(es: Seq<AggEvent>, quiet: Seq<AggEvent>)
    requires
        no_updates(quiet),
    ensures
        spec_run(es + quiet) == spec_run(es),
    decreases quiet.len(),
{
    if quiet.len() == 0 {
        assert(es + quiet =~= es);
    } else {
        let shorter = quiet.drop_last();
        assert((es + quiet).drop_last() =~= es + shorter);
        assert(forall|i: int|
            0 <= i < shorter.len() ==> #[trigger] shorter[i] == quiet[i]);
        lemma_quiet_preserves_state(es, shorter);
        assert((es + quiet).last() == quiet[quiet.len() - 1]);
    }
}

/// Law: a query issued after an interlude with no pending producer
/// updates is answered with the same snapshot as the query before the
/// interlude — querying is idempotent under no intervening updates.
pub proof fn lemma_query_idempotent(es: Seq<AggEvent>, quiet: Seq<AggEvent>)
    requires
        no_updates(quiet),
    ensures
        spec_action(spec_run(es + quiet), AggEvent::Query) == spec_action(
            spec_run(es),
            AggEvent::Query,
        ),
{
    lemma_quiet_preserves_state(es, quiet);
}

/// Law: a query racing one producer update observes, depending only on
/// which event the aggregator services first, either the state before
/// the update or the state after it. Either way the answer is one whole
/// pair read from a single state — after the update, exactly the
/// updated slot carries the update's payload and the other slot is
/// untouched; no mixed or partial pair can be served.
pub proof fn lemma_query_atomic(es: Seq<AggEvent>, u: AggEvent)
    requires
        (u is UpdateA || u is UpdateB),
    ensures
        spec_action(spec_run(es), AggEvent::Query) == AggAction::Respond(
            spec_snapshot(spec_run(es)),
        ),
        spec_action(spec_run(es.push(u)), AggEvent::Query) == AggAction::Respond(
            spec_snapshot(spec_run(es.push(u))),
        ),
        u is UpdateA ==> spec_run(es.push(u)) == (AggregatorState {
            last_a: u->UpdateA_0,
            last_b: spec_run(es).last_b,
        }),
        u is UpdateB ==> spec_run(es.push(u)) == (AggregatorState {
            last_a: spec_run(es).last_a,
            last_b: u->UpdateB_0,
        }),
{
    assert(es.push(u).drop_last() =~= es);
}

/// Law: once producer A's channel is permanently closed no further
/// update from A can arrive, so slot A is frozen at its last value in
/// all later snapshots, while slot B keeps tracking B's latest emission.
pub proof fn lemma_frozen_slot_a(es: Seq<AggEvent>, after: Seq<AggEvent>)
    requires
        no_a_updates(after),
    ensures
        spec_run(es + after).last_a == spec_run(es).last_a,
        spec_run(es + after).last_b == spec_latest_b(es + after),
    decreases after.len(),
{
    lemma_holds_latest(es + after);
    if after.len() == 0 {
        assert(es + after =~= es);
    } else {
        let shorter = after.drop_last();
        assert((es + after).drop_last() =~= es + shorter);
        assert(forall|i: int|
            0 <= i < shorter.len() ==> #[trigger] shorter[i] == after[i]);
        lemma_frozen_slot_a(es, shorter);
        assert((es + after).last() == after[after.len() - 1]);
    }
}

/// The mirror of `lemma_frozen_slot_a` for producer B.
pub proof fn lemma_frozen_slot_b(es: Seq<AggEvent>, after: Seq<AggEvent>)
    requires
        forall|i: int| 0 <= i < after.len() ==> !((#[trigger] after[i]) is UpdateB),
    ensures
        spec_run(es + after).last_b == spec_run(es).last_b,
        spec_run(es + after).last_a == spec_latest_a(es + after),
    decreases after.len(),
{
    lemma_holds_latest(es + after);
    if after.len() == 0 {
        assert(es + after =~= es);
    } else {
        let shorter = after.drop_last();
        assert((es + after).drop_last() =~= es + shorter);
        assert(forall|i: int|
            0 <= i < shorter.len() ==> #[trigger] shorter[i] == after[i]);
        lemma_frozen_slot_b(es, shorter);
        assert((es + after).last() == after[after.len() - 1]);
    }
}

/// Helper: the held A slot is the startup 0 or the payload of some A
/// update that occurred in the run.
pub proof fn lemma_run_a_in_emissions(es: Seq<AggEvent>)
    ensures
        spec_run(es).last_a == 0 || exists|i: int|
            0 <= i < es.len() && (#[trigger] es[i]) is UpdateA && es[i]->UpdateA_0 == spec_run(
                es,
            ).last_a,
    decreases es.len(),
{
    if es.len() > 0 {
        if es.last() is UpdateA {
            assert((#[trigger] es[es.len() - 1]) is UpdateA && es[es.len() - 1]->UpdateA_0
                == spec_run(es).last_a);
        } else {
            lemma_run_a_in_emissions(es.drop_last());
            if spec_run(es).last_a != 0 {
                let i = choose|i: int|
                    0 <= i < es.drop_last().len() && (#[trigger] es.drop_last()[i]) is UpdateA
                        && es.drop_last()[i]->UpdateA_0 == spec_run(es.drop_last()).last_a;
                assert((#[trigger] es[i]) is UpdateA && es[i]->UpdateA_0 == spec_run(es).last_a);
            }
        }
    }
}

/// The mirror of `lemma_run_a_in_emissions` for slot B.
pub proof fn lemma_run_b_in_emissions(es: Seq<AggEvent>)
    ensures
        spec_run(es).last_b == 0 || exists|i: int|
            0 <= i < es.len() && (#[trigger] es[i]) is UpdateB && es[i]->UpdateB_0 == spec_run(
                es,
            ).last_b,
    decreases es.len(),
{
    if es.len() > 0 {
        if es.last() is UpdateB {
            assert((#[trigger] es[es.len() - 1]) is UpdateB && es[es.len() - 1]->UpdateB_0
                == spec_run(es).last_b);
        } else {
            lemma_run_b_in_emissions(es.drop_last());
            if spec_run(es).last_b != 0 {
                let i = choose|i: int|
                    0 <= i < es.drop_last().len() && (#[trigger] es.drop_last()[i]) is UpdateB
                        && es.drop_last()[i]->UpdateB_0 == spec_run(es.drop_last()).last_b;
                assert((#[trigger] es[i]) is UpdateB && es[i]->UpdateB_0 == spec_run(es).last_b);
            }
        }
    }
}

/// Law: slot A is individually non-decreasing across successive queries
/// of one run, provided producer A's emissions are non-decreasing in
/// order (which they are while the producer runs: its totals strictly
/// increase and its channel delivers in order). The snapshot answered
/// after any prefix of the run is therefore never larger, slot by slot,
/// than the one answered later.
pub proof fn lemma_slot_a_monotone(es: Seq<AggEvent>, k: int)
    requires
        a_emissions_nondecreasing(es),
        0 <= k <= es.len(),
    ensures
        spec_run(es.take(k)).last_a <= spec_run(es).last_a,
    decreases es.len() - k,
{
    if k == es.len() {
        assert(es.take(k) =~= es);
    } else {
        assert(es.take(k + 1).drop_last() =~= es.take(k));
        assert(es.take(k + 1).last() == es[k]);
        if es[k] is UpdateA {
            lemma_run_a_in_emissions(es.take(k));
            if spec_run(es.take(k)).last_a != 0 {
                let i = choose|i: int|
                    0 <= i < es.take(k).len() && (#[trigger] es.take(k)[i]) is UpdateA && es.take(
                        k,
                    )[i]->UpdateA_0 == spec_run(es.take(k)).last_a;
                assert(es[i] == es.take(k)[i]);
                assert(es[i]->UpdateA_0 <= es[k]->UpdateA_0);
            }
            assert(spec_run(es.take(k)).last_a <= spec_run(es.take(k + 1)).last_a);
        } else {
            assert(spec_run(es.take(k + 1)).last_a == spec_run(es.take(k)).last_a);
        }
        lemma_slot_a_monotone(es, k + 1);
    }
}

/// The mirror of `lemma_slot_a_monotone` for slot B.
pub proof fn lemma_slot_b_monotone(es: Seq<AggEvent>, k: int)
    requires
        b_emissions_nondecreasing(es),
        0 <= k <= es.len(),
    ensures
        spec_run(es.take(k)).last_b <= spec_run(es).last_b,
    decreases es.len() - k,
{
    if k == es.len() {
        assert(es.take(k) =~= es);
    } else {
        assert(es.take(k + 1).drop_last() =~= es.take(k));
        assert(es.take(k + 1).last() == es[k]);
        if es[k] is UpdateB {
            lemma_run_b_in_emissions(es.take(k));
            if spec_run(es.take(k)).last_b != 0 {
                let i = choose|i: int|
                    0 <= i < es.take(k).len() && (#[trigger] es.take(k)[i]) is UpdateB && es.take(
                        k,
                    )[i]->UpdateB_0 == spec_run(es.take(k)).last_b;
                assert(es[i] == es.take(k)[i]);
                assert(es[i]->UpdateB_0 <= es[k]->UpdateB_0);
            }
            assert(spec_run(es.take(k)).last_b <= spec_run(es.take(k + 1)).last_b);
        } else {
            assert(spec_run(es.take(k + 1)).last_b == spec_run(es.take(k)).last_b);
        }
        lemma_slot_b_monotone(es, k + 1);
    }
}

} // verus!
