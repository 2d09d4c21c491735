//! One producer's logic: an independently paced, ever-increasing
//! counter. Each tick draws a random number, waits 1 to 5 time units
//! and advances the cumulative total by that same duration, so the
//! published value equals elapsed simulated time. The sleep itself and
//! the publishing are the embedding program's job; everything the
//! producer decides is here, verified.

use vstd::prelude::*;

verus! {

/// The number of time units one tick waits — and advances by — for the
/// random draw `draw`: one of 1 to 5, uniform when the draw is uniform.
pub open spec fn spec_wait_units(draw: u64) -> int {
    draw % 5 + 1
}

/// Relies on rand::random::<u64>: one value from the thread-local
/// generator. Nothing can be promised of a random value.
#[verifier::external_body]
fn random_draw() -> u64 {
    rand::random::<u64>()
}

/// One tick's decision for a given draw: the wait duration and the new
/// cumulative total, which strictly increases. The caller keeps the
/// total below the overflow bound and treats a counter that exhausted
/// its range as fatal for that producer.
pub fn producer_step(total: u64, draw: u64) -> (r: (u64, u64))
    requires
        total + 5 <= u64::MAX,
    ensures
        r.0 == spec_wait_units(draw),
        1 <= r.0 <= 5,
        r.1 == total + r.0,
        r.1 > total,
{
    let wait = draw % 5 + 1;
    (wait, total + wait)
}

/// One full tick: draw, then decide. Whatever the draw, the wait is 1
/// to 5 units and the new total is the old one advanced by exactly the
/// wait — the published value only ever increases.
pub fn producer_tick(total: u64) -> (r: (u64, u64))
    requires
        total + 5 <= u64::MAX,
    ensures
        1 <= r.0 <= 5,
        r.1 == total + r.0,
        r.1 > total,
{
    let draw = random_draw();
    producer_step(total, draw)
}

/// The cumulative total a producer has reached after a sequence of
/// draws, starting from 0.
pub open spec fn spec_producer_total(draws: Seq<u64>) -> int
    decreases draws.len(),
{
    if draws.len() == 0 {
        0
    } else {
        spec_producer_total(draws.drop_last()) + spec_wait_units(draws.last())
    }
}

/// Law: a producer's published values strictly increase — after any
/// further draws the total is strictly larger than after a proper
/// prefix. Together with in-order channel delivery this discharges the
/// non-decreasing-emissions premise of the per-slot monotonicity law.
pub proof fn lemma_producer_monotone(draws: Seq<u64>, k: int)
    requires
        0 <= k < draws.len(),
    ensures
        spec_producer_total(draws.take(k)) < spec_producer_total(draws),
    decreases draws.len() - k,
{
    assert(draws.take(k + 1).drop_last() =~= draws.take(k));
    assert(spec_producer_total(draws.take(k)) < spec_producer_total(draws.take(k + 1)));
    if k + 1 == draws.len() {
        assert(draws.take(k + 1) =~= draws);
    } else {
        lemma_producer_monotone(draws, k + 1);
    }
}

} // verus!
