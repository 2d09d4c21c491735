//! Latest-value collector: independent producers feed a single-owner
//! aggregator over channels, and callers pull point-in-time snapshots
//! of the pair of counters through a synchronous query bridge.

pub mod aggregator;
pub mod bridge;
pub mod history;
pub mod producer;
pub mod render;
pub mod snapshot;
