//! Write-related models.

use super::tuple::{TupleKey, TupleKeyWithoutCondition};
use vstd::prelude::*;

verus! {

// ────────────────────────────────────────────────────────────────────────────
// WriteRequest / sub-structs
// ────────────────────────────────────────────────────────────────────────────

/// The write portion of a `WriteRequest`.
#[derive(Debug, Clone, Default, PartialEq)]
pub struct WriteRequestWrites {
    /// Tuple keys to write.
    pub tuple_keys: Vec<TupleKey>,
}

/// The delete portion of a `WriteRequest`.
#[derive(Debug, Clone, Default, PartialEq)]
pub struct WriteRequestDeletes {
    /// Tuple keys to delete.
    pub tuple_keys: Vec<TupleKeyWithoutCondition>,
}

/// Request body for `Write`.
#[derive(Debug, Clone, Default, PartialEq)]
pub struct WriteRequest {
    /// Tuples to write (create).
    pub writes: Option<WriteRequestWrites>,
    /// Tuples to delete.
    pub deletes: Option<WriteRequestDeletes>,
    /// Authorization model ID.
    pub authorization_model_id: Option<String>,
}

} // verus!
