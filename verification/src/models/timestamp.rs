//! Points in time as the API reports them.

use vstd::prelude::*;

verus! {

/// A UTC instant: seconds since the Unix epoch and nanoseconds within that
/// second (a leap second has nanoseconds of one billion or more).
#[derive(Debug, Clone, Copy, PartialEq, Eq, Structural)]
pub struct Timestamp {
    /// Seconds since 1970-01-01T00:00:00Z.
    pub seconds: i64,
    /// Nanoseconds within the second.
    pub nanos: u32,
}

} // verus!
