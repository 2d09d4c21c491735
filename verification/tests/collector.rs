use counter_collector::aggregator::{AggAction, AggEvent, AggregatorState};
use counter_collector::bridge::{answer_query, CollectorChannel, QueryError};
use counter_collector::producer::{producer_step, producer_tick};
use counter_collector::render::{render_failure, render_response, render_snapshot, u64_to_decimal};
use counter_collector::snapshot::Snapshot;

fn query(state: &mut AggregatorState) -> Snapshot {
    match state.handle_event(AggEvent::Query) {
        AggAction::Respond(s) => s,
        AggAction::Continue => panic!("a query must be answered"),
    }
}

#[test]
fn startup_state_is_zero_pair() {
    let state = AggregatorState::new();
    assert_eq!(state.last_a, 0);
    assert_eq!(state.last_b, 0);
    assert_eq!(state.snapshot(), Snapshot { value_a: 0, value_b: 0 });
}

#[test]
fn interleaved_updates_scenario() {
    let mut state = AggregatorState::new();
    state.handle_event(AggEvent::UpdateA(3));
    assert_eq!(query(&mut state), Snapshot { value_a: 3, value_b: 0 });
    state.handle_event(AggEvent::UpdateB(2));
    assert_eq!(query(&mut state), Snapshot { value_a: 3, value_b: 2 });
    state.handle_event(AggEvent::UpdateA(7));
    assert_eq!(query(&mut state), Snapshot { value_a: 7, value_b: 2 });
}

#[test]
fn query_idempotent_without_updates() {
    let mut state = AggregatorState::new();
    state.handle_event(AggEvent::UpdateA(11));
    state.handle_event(AggEvent::UpdateB(4));
    let first = query(&mut state);
    state.handle_event(AggEvent::ClosedB);
    let second = query(&mut state);
    assert_eq!(first, second);
    assert_eq!(second, Snapshot { value_a: 11, value_b: 4 });
}

#[test]
fn thousand_queries_identical() {
    let mut state = AggregatorState::new();
    state.handle_event(AggEvent::UpdateA(21));
    state.handle_event(AggEvent::UpdateB(8));
    let expected = query(&mut state);
    for _ in 0..1000 {
        assert_eq!(query(&mut state), expected);
    }
}

#[test]
fn holds_latest_emission_per_producer() {
    let mut state = AggregatorState::new();
    state.handle_event(AggEvent::UpdateA(1));
    state.handle_event(AggEvent::UpdateA(4));
    state.handle_event(AggEvent::UpdateA(9));
    state.handle_event(AggEvent::UpdateB(2));
    assert_eq!(query(&mut state), Snapshot { value_a: 9, value_b: 2 });
}

#[test]
fn frozen_slot_after_close() {
    let mut state = AggregatorState::new();
    state.handle_event(AggEvent::UpdateA(5));
    state.handle_event(AggEvent::ClosedA);
    state.handle_event(AggEvent::UpdateB(1));
    state.handle_event(AggEvent::UpdateB(9));
    assert_eq!(query(&mut state), Snapshot { value_a: 5, value_b: 9 });
    state.handle_event(AggEvent::UpdateB(12));
    assert_eq!(query(&mut state), Snapshot { value_a: 5, value_b: 12 });
}

#[test]
fn slots_nondecreasing_across_queries() {
    let mut state = AggregatorState::new();
    let events = [
        AggEvent::UpdateA(2),
        AggEvent::UpdateB(5),
        AggEvent::UpdateA(6),
        AggEvent::UpdateA(6),
        AggEvent::UpdateB(7),
        AggEvent::UpdateA(11),
    ];
    let mut previous = query(&mut state);
    for e in events {
        state.handle_event(e);
        let next = query(&mut state);
        assert!(previous.value_a <= next.value_a);
        assert!(previous.value_b <= next.value_b);
        previous = next;
    }
}

#[test]
fn query_during_update_sees_pre_or_post_pair() {
    let mut state = AggregatorState::new();
    state.handle_event(AggEvent::UpdateA(3));
    state.handle_event(AggEvent::UpdateB(2));
    let pre = state.snapshot();
    // The update in flight: the racing query is serialized either just
    // before or just after it, and must see one whole pair.
    let mut before = state;
    let seen_before = query(&mut before);
    state.handle_event(AggEvent::UpdateA(10));
    let seen_after = query(&mut state);
    let post = Snapshot { value_a: 10, value_b: pre.value_b };
    assert_eq!(seen_before, pre);
    assert_eq!(seen_after, post);
    for seen in [seen_before, seen_after] {
        assert!(seen == pre || seen == post);
    }
}

#[test]
fn producer_step_exact_values() {
    assert_eq!(producer_step(0, 0), (1, 1));
    assert_eq!(producer_step(0, 2), (3, 3));
    assert_eq!(producer_step(0, 4), (5, 5));
    assert_eq!(producer_step(0, 5), (1, 1));
    assert_eq!(producer_step(10, 7), (3, 13));
    assert_eq!(producer_step(100, u64::MAX), (1, 101));
}

#[test]
fn producer_tick_advances_by_wait() {
    let mut total: u64 = 0;
    for _ in 0..100 {
        let (wait, new_total) = producer_tick(total);
        assert!((1..=5).contains(&wait));
        assert_eq!(new_total, total + wait);
        assert!(new_total > total);
        total = new_total;
    }
}

#[test]
fn decimal_rendering_exact() {
    assert_eq!(u64_to_decimal(0), "0");
    assert_eq!(u64_to_decimal(7), "7");
    assert_eq!(u64_to_decimal(10), "10");
    assert_eq!(u64_to_decimal(305), "305");
    assert_eq!(u64_to_decimal(1000000), "1000000");
    assert_eq!(u64_to_decimal(u64::MAX), "18446744073709551615");
}

#[test]
fn success_body_exact() {
    let s = Snapshot { value_a: 3, value_b: 2 };
    assert_eq!(render_snapshot(&s), "Value A: 3\nValue B: 2");
    let zero = Snapshot { value_a: 0, value_b: 0 };
    assert_eq!(render_snapshot(&zero), "Value A: 0\nValue B: 0");
}

#[test]
fn failure_body_exact() {
    assert_eq!(
        render_failure(),
        "Something went wrong pulling the value from the channel"
    );
}

#[test]
fn response_body_for_each_outcome() {
    let ok: Result<Snapshot, QueryError> = Ok(Snapshot { value_a: 42, value_b: 17 });
    assert_eq!(render_response(&ok), "Value A: 42\nValue B: 17");
    let err: Result<Snapshot, QueryError> = Err(QueryError::Communication);
    assert_eq!(
        render_response(&err),
        "Something went wrong pulling the value from the channel"
    );
}

#[test]
fn bridge_roundtrip_delivers_trigger_and_snapshot() {
    let (trigger_sender, trigger_receiver) = crossbeam_channel::unbounded::<()>();
    let (response_sender, response_receiver) = crossbeam_channel::unbounded::<(u64, u64)>();
    let bridge = CollectorChannel::new(trigger_sender, response_receiver);
    // The aggregator's answer is already waiting, so the single-threaded
    // query completes at once.
    response_sender.send((3, 2)).unwrap();
    let got = bridge.get_current_value();
    assert_eq!(got, Ok(Snapshot { value_a: 3, value_b: 2 }));
    // The trigger really crossed the channel.
    assert_eq!(trigger_receiver.try_recv(), Ok(()));
}

#[test]
fn bridge_reports_lost_trigger_as_communication_error() {
    let (trigger_sender, trigger_receiver) = crossbeam_channel::unbounded::<()>();
    let (_response_sender, response_receiver) = crossbeam_channel::unbounded::<(u64, u64)>();
    drop(trigger_receiver);
    let bridge = CollectorChannel::new(trigger_sender, response_receiver);
    assert_eq!(bridge.get_current_value(), Err(QueryError::Communication));
}

#[test]
fn bridge_reports_missing_response_as_communication_error() {
    let (trigger_sender, _trigger_receiver) = crossbeam_channel::unbounded::<()>();
    let (response_sender, response_receiver) = crossbeam_channel::unbounded::<(u64, u64)>();
    drop(response_sender);
    let bridge = CollectorChannel::new(trigger_sender, response_receiver);
    assert_eq!(bridge.get_current_value(), Err(QueryError::Communication));
}

#[test]
fn answering_reports_delivery() {
    let (response_sender, response_receiver) = crossbeam_channel::unbounded::<(u64, u64)>();
    let snap = Snapshot { value_a: 6, value_b: 1 };
    assert!(answer_query(&response_sender, snap));
    assert_eq!(response_receiver.recv(), Ok((6, 1)));
    drop(response_receiver);
    assert!(!answer_query(&response_sender, snap));
}

#[test]
fn abandoned_query_does_not_stop_the_aggregator() {
    let mut state = AggregatorState::new();
    state.handle_event(AggEvent::UpdateA(13));
    // A caller triggers a query and then stops waiting: its response
    // channel is gone by the time the aggregator answers.
    let (dead_sender, dead_receiver) = crossbeam_channel::unbounded::<(u64, u64)>();
    drop(dead_receiver);
    let (act, delivered) = state.service_event(AggEvent::Query, &dead_sender);
    assert_eq!(act, AggAction::Respond(Snapshot { value_a: 13, value_b: 0 }));
    assert!(!delivered);
    // The aggregator keeps servicing events and answering other callers.
    state.service_event(AggEvent::UpdateB(4), &dead_sender);
    let (live_sender, live_receiver) = crossbeam_channel::unbounded::<(u64, u64)>();
    let (act, delivered) = state.service_event(AggEvent::Query, &live_sender);
    assert_eq!(act, AggAction::Respond(Snapshot { value_a: 13, value_b: 4 }));
    assert!(delivered);
    assert_eq!(live_receiver.recv(), Ok((13, 4)));
}
