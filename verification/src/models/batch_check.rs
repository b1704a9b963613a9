//! Batch check models.

use super::{check::CheckError, consistency::ConsistencyPreference, contextual_tuples::ContextualTupleKeys};
use vstd::prelude::*;

verus! {

// ────────────────────────────────────────────────────────────────────────────
// BatchCheckItem
// ────────────────────────────────────────────────────────────────────────────

/// A single check item within a `BatchCheckRequest`.
#[derive(Debug, Clone, PartialEq)]
pub struct BatchCheckItem {
    /// Subject.
    pub user: String,
    /// Relation.
    pub relation: String,
    /// Object.
    pub object: String,
    /// Caller-provided correlation ID used to match responses to requests.
    pub correlation_id: String,
    /// Contextual tuples for this specific check item.
    pub contextual_tuples: Option<ContextualTupleKeys>,
    /// ABAC context for this specific check item.
    pub context: Option<serde_json::Value>,
}

// ────────────────────────────────────────────────────────────────────────────
// BatchCheckRequest
// ────────────────────────────────────────────────────────────────────────────

/// Request body for the server-side `BatchCheck` API (requires FGA ≥ 1.8.0).
#[derive(Debug, Clone, PartialEq)]
pub struct BatchCheckRequest {
    /// The list of checks to perform.
    pub checks: Vec<BatchCheckItem>,
    /// Authorization model ID.
    pub authorization_model_id: Option<String>,
    /// Read consistency preference.
    pub consistency: Option<ConsistencyPreference>,
}

// ────────────────────────────────────────────────────────────────────────────
// BatchCheckSingleResult
// ────────────────────────────────────────────────────────────────────────────

/// The result for a single item in a `BatchCheckResponse`.
#[derive(Debug, Clone, PartialEq)]
pub struct BatchCheckSingleResult {
    /// Whether the check succeeded.
    pub allowed: Option<bool>,
    /// Error details if this individual check failed.
    pub error: Option<CheckError>,
}

// ────────────────────────────────────────────────────────────────────────────
// BatchCheckResponse
// ────────────────────────────────────────────────────────────────────────────

/// Response from the server-side `BatchCheck` API.
///
/// The response map key is the `correlation_id` from the request.
#[derive(Debug, Clone, PartialEq)]
pub struct BatchCheckResponse {
    /// Map from `correlation_id` → result.
    pub result: Option<std::collections::HashMap<String, BatchCheckSingleResult>>,
}

} // verus!
