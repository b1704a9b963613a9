//! ListObjects and StreamedListObjects models.

use super::{consistency::ConsistencyPreference, contextual_tuples::ContextualTupleKeys};
use vstd::prelude::*;

verus! {

// ────────────────────────────────────────────────────────────────────────────
// ListObjectsRequest
// ────────────────────────────────────────────────────────────────────────────

/// Request body for `ListObjects`.
#[derive(Debug, Clone, PartialEq)]
pub struct ListObjectsRequest {
    /// Authorization model ID.
    pub authorization_model_id: Option<String>,
    /// The object type to list.
    pub object_type: String,
    /// The relation to check.
    pub relation: String,
    /// The user for which to list objects.
    pub user: String,
    /// Contextual tuples.
    pub contextual_tuples: Option<ContextualTupleKeys>,
    /// ABAC context.
    pub context: Option<serde_json::Value>,
    /// Read consistency preference.
    pub consistency: Option<ConsistencyPreference>,
}

/// Response from `ListObjects`.
#[derive(Debug, Clone, PartialEq)]
pub struct ListObjectsResponse {
    /// The list of object IDs the user has access to.
    pub objects: Vec<String>,
}

/// A single object streamed from `StreamedListObjects`.
#[derive(Debug, Clone, PartialEq)]
pub struct StreamedListObjectsResponse {
    /// A single object ID.
    pub object: String,
}

} // verus!
