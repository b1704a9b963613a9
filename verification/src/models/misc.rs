//! Miscellaneous model types.
use vstd::prelude::*;

verus! {

// ────────────────────────────────────────────────────────────────────────────
// Status (used in streaming errors)
// ────────────────────────────────────────────────────────────────────────────

/// gRPC-style status used in streaming error envelopes.
#[derive(Debug, Clone, PartialEq)]
pub struct Status {
    /// Numeric status code.
    pub code: Option<i32>,
    /// Human-readable message.
    pub message: Option<String>,
    /// Additional error details.
    pub details: Option<Vec<serde_json::Value>>,
}

// ────────────────────────────────────────────────────────────────────────────
// StreamResult - envelope for NDJSON streaming responses
// ────────────────────────────────────────────────────────────────────────────

/// Wrapper for each line in a streaming (NDJSON) response.
///
/// Each line is either a successful `result` or an `error`.
#[derive(Debug, Clone, PartialEq)]
pub struct StreamResult<T> {
    /// A successful result.
    pub result: Option<T>,
    /// An error encountered mid-stream.
    pub error: Option<Status>,
}

} // verus!
