//! ListUsers models.

use super::{consistency::ConsistencyPreference, contextual_tuples::ContextualTupleKeys};
use vstd::prelude::*;

verus! {

// ────────────────────────────────────────────────────────────────────────────
// User / UserObject types
// ────────────────────────────────────────────────────────────────────────────

/// A typed wildcard user (all users of a type).
#[derive(Debug, Clone, PartialEq)]
pub struct TypedWildcardUser {
    /// The type.
    pub typ: String,
}

/// A userset user (e.g. `document:budget#viewer`).
#[derive(Debug, Clone, PartialEq)]
pub struct UsersetUser {
    /// The object.
    pub object: FgaObject,
    /// The relation.
    pub relation: String,
}

/// An FGA object reference.
#[derive(Debug, Clone, PartialEq)]
pub struct FgaObject {
    /// The type.
    pub typ: String,
    /// The object ID.
    pub id: String,
}

/// A user - can be a typed wildcard, a userset user, or a plain object.
#[derive(Debug, Clone, PartialEq)]
pub struct User {
    /// Typed wildcard.
    pub wildcard: Option<TypedWildcardUser>,
    /// Userset user.
    pub userset: Option<UsersetUser>,
    /// Plain object user.
    pub object: Option<FgaObject>,
}

// ────────────────────────────────────────────────────────────────────────────
// UserTypeFilter
// ────────────────────────────────────────────────────────────────────────────

/// Filter for restricting which user types are returned by `ListUsers`.
#[derive(Debug, Clone, PartialEq)]
pub struct UserTypeFilter {
    /// The type to include.
    pub typ: String,
    /// Optional relation within the type.
    pub relation: Option<String>,
}

// ────────────────────────────────────────────────────────────────────────────
// ListUsersRequest / ListUsersResponse
// ────────────────────────────────────────────────────────────────────────────

/// Request body for `ListUsers`.
#[derive(Debug, Clone, PartialEq)]
pub struct ListUsersRequest {
    /// Authorization model ID.
    pub authorization_model_id: Option<String>,
    /// Object to check.
    pub object: FgaObject,
    /// Relation to check.
    pub relation: String,
    /// Filter which user types to include in the response.
    pub user_filters: Vec<UserTypeFilter>,
    /// Contextual tuples.
    pub contextual_tuples: Option<ContextualTupleKeys>,
    /// ABAC context.
    pub context: Option<serde_json::Value>,
    /// Read consistency preference.
    pub consistency: Option<ConsistencyPreference>,
}

/// Response from `ListUsers`.
#[derive(Debug, Clone, PartialEq)]
pub struct ListUsersResponse {
    /// The users that have the requested relation with the object.
    pub users: Vec<User>,
    /// Excluded users (typed wildcards that are excluded).
    pub excluded_users: Option<Vec<User>>,
}

} // verus!
