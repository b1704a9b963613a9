//! Read-related models.

use super::{
    consistency::ConsistencyPreference,
    tuple::{ReadRequestTupleKey, Tuple, TupleChange},
};
use vstd::prelude::*;
use super::timestamp::Timestamp;

verus! {

// ────────────────────────────────────────────────────────────────────────────
// ReadRequest / ReadResponse
// ────────────────────────────────────────────────────────────────────────────

/// Request body for `Read`.
#[derive(Debug, Clone, Default, PartialEq)]
pub struct ReadRequest {
    /// Optional filter tuple key.
    pub tuple_key: Option<ReadRequestTupleKey>,
    /// Authorization model ID.
    pub authorization_model_id: Option<String>,
    /// Pagination - maximum number of results to return.
    pub page_size: Option<i32>,
    /// Pagination continuation token.
    pub continuation_token: Option<String>,
    /// Read consistency preference.
    pub consistency: Option<ConsistencyPreference>,
}

/// Response from `Read`.
#[derive(Debug, Clone, PartialEq)]
pub struct ReadResponse {
    /// The tuples returned.
    pub tuples: Vec<Tuple>,
    /// Pagination token.
    pub continuation_token: Option<String>,
}

// ────────────────────────────────────────────────────────────────────────────
// ReadChanges
// ────────────────────────────────────────────────────────────────────────────

/// Request body for `ReadChanges`.
#[derive(Debug, Clone, Default, PartialEq)]
pub struct ReadChangesRequest {
    /// Filter changes to a specific object type.
    pub type_filter: Option<String>,
    /// Filter changes that occurred at or after this time.
    pub start_time: Option<Timestamp>,
}

/// Response from `ReadChanges`.
#[derive(Debug, Clone, PartialEq)]
pub struct ReadChangesResponse {
    /// The tuple changes.
    pub changes: Vec<TupleChange>,
    /// Pagination token.
    pub continuation_token: Option<String>,
}

// ────────────────────────────────────────────────────────────────────────────
// ReadAssertions / WriteAssertions
// ────────────────────────────────────────────────────────────────────────────

/// An assertion in the authorization model test suite.
#[derive(Debug, Clone, PartialEq)]
pub struct Assertion {
    /// The tuple key to assert on.
    pub tuple_key: AssertionTupleKey,
    /// Expected result.
    pub expectation: bool,
    /// Optional contextual tuples for the assertion.
    pub contextual_tuples: Option<Vec<super::tuple::TupleKey>>,
    /// Optional ABAC context.
    pub context: Option<serde_json::Value>,
}

/// The tuple key inside an `Assertion`.
#[derive(Debug, Clone, PartialEq)]
pub struct AssertionTupleKey {
    /// The user.
    pub user: String,
    /// The relation.
    pub relation: String,
    /// The object.
    pub object: String,
}

/// Response from `ReadAssertions`.
#[derive(Debug, Clone, PartialEq)]
pub struct ReadAssertionsResponse {
    /// The authorization model ID these assertions belong to.
    pub authorization_model_id: String,
    /// The assertions.
    pub assertions: Option<Vec<Assertion>>,
}

/// Request body for `WriteAssertions`.
#[derive(Debug, Clone, PartialEq)]
pub struct WriteAssertionsRequest {
    /// The assertions to write.
    pub assertions: Vec<Assertion>,
}

} // verus!
