//! Consistency preference model.
use vstd::prelude::*;

verus! {

/// Controls whether the API uses a consistent or eventually-consistent read.
#[derive(Debug, Clone, PartialEq, Default)]
pub enum ConsistencyPreference {
    /// Unspecified (server decides).
    #[default]
    Unspecified,
    /// Minimise latency; may return stale data.
    MinimizeLatency,
    /// Always read from the latest consistent snapshot.
    HigherConsistency,
}

} // verus!
