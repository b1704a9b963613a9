//! Check-related models.

use super::{
    consistency::ConsistencyPreference,
    contextual_tuples::ContextualTupleKeys,
    tuple::CheckRequestTupleKey,
};
use vstd::prelude::*;

verus! {

// ────────────────────────────────────────────────────────────────────────────
// CheckRequest
// ────────────────────────────────────────────────────────────────────────────

/// Request body for the `Check` API.
#[derive(Debug, Clone, PartialEq)]
pub struct CheckRequest {
    /// The tuple to check.
    pub tuple_key: CheckRequestTupleKey,
    /// Contextual tuples to use during evaluation.
    pub contextual_tuples: Option<ContextualTupleKeys>,
    /// Authorization model ID to use (overrides the default).
    pub authorization_model_id: Option<String>,
    /// If `true`, include a resolution trace in the response (performance cost).
    pub trace: Option<bool>,
    /// Additional ABAC context.
    pub context: Option<serde_json::Value>,
    /// Read consistency preference.
    pub consistency: Option<ConsistencyPreference>,
}

impl CheckRequest {
    /// Creates a minimal `CheckRequest`.
    pub fn new(tuple_key: CheckRequestTupleKey) -> (r: Self)
        ensures
            r.tuple_key == tuple_key,
            r.contextual_tuples is None,
            r.authorization_model_id is None,
            r.trace is None,
            r.context is None,
            r.consistency == Some(ConsistencyPreference::Unspecified),
    {
        Self {
            tuple_key,
            contextual_tuples: None,
            authorization_model_id: None,
            trace: None,
            context: None,
            consistency: Some(ConsistencyPreference::Unspecified),
        }
    }
}

// ────────────────────────────────────────────────────────────────────────────
// CheckResponse
// ────────────────────────────────────────────────────────────────────────────

/// Response from the `Check` API.
#[derive(Debug, Clone, PartialEq)]
pub struct CheckResponse {
    /// Whether the user has the requested relation with the object.
    pub allowed: Option<bool>,
    /// Resolution trace (only present when `trace = true`).
    pub resolution: Option<String>,
}

impl CheckResponse {
    /// Returns `true` if the check passed.
    pub fn is_allowed(&self) -> (r: bool)
        ensures
            r == (self.allowed == Some(true)),
    {
        self.allowed.unwrap_or(false)
    }
}

// ────────────────────────────────────────────────────────────────────────────
// CheckError
// ────────────────────────────────────────────────────────────────────────────

/// An error returned inside a batch check result.
#[derive(Debug, Clone, PartialEq)]
pub struct CheckError {
    /// Machine-readable error code.
    pub code: Option<String>,
    /// Human-readable error message.
    pub message: Option<String>,
}

} // verus!
