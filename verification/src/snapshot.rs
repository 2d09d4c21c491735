//! The pair of latest counter values that one query observes.

use vstd::prelude::*;

verus! {

/// One query's result: the most recently observed value from each
/// producer, as held by the aggregator at the instant the query was
/// answered. The two slots age independently; the pair is not
/// guaranteed simultaneous across producers.
#[derive(Clone, Copy, Debug, PartialEq, Eq, Structural)]
pub struct Snapshot {
    pub value_a: u64,
    pub value_b: u64,
}

impl Snapshot {
    /// Builds the snapshot carrying exactly the given pair.
    pub fn from_pair(pair: (u64, u64)) -> (r: Snapshot)
        ensures
            r.value_a == pair.0,
            r.value_b == pair.1,
    {
        Snapshot { value_a: pair.0, value_b: pair.1 }
    }
}

} // verus!
