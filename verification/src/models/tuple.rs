//! Tuple-related data models.
use vstd::prelude::*;
use super::timestamp::Timestamp;
use vstd::string::*;

verus! {

// ────────────────────────────────────────────────────────────────────────────
// RelationshipCondition
// ────────────────────────────────────────────────────────────────────────────

/// A condition attached to a relationship tuple for ABAC evaluation.
#[derive(Debug, Clone, PartialEq)]
pub struct RelationshipCondition {
    /// Condition name as defined in the authorization model.
    pub name: String,
    /// Runtime context values to evaluate the condition against.
    pub context: Option<serde_json::Value>,
}

// ────────────────────────────────────────────────────────────────────────────
// TupleKey
// ────────────────────────────────────────────────────────────────────────────

/// A relationship tuple key (user + relation + object), optionally with a condition.
#[derive(Debug, Clone, PartialEq)]
pub struct TupleKey {
    /// Subject of the relationship — e.g. `"user:anne"`.
    pub user: String,
    /// Relation name — e.g. `"viewer"`.
    pub relation: String,
    /// Object — e.g. `"document:roadmap"`.
    pub object: String,
    /// Optional ABAC condition.
    pub condition: Option<RelationshipCondition>,
}

impl TupleKey {
    /// Creates a new `TupleKey`.
    pub fn new(user: &str, relation: &str, object: &str) -> (k: Self)
        ensures
            k.user@ == user@,
            k.relation@ == relation@,
            k.object@ == object@,
            k.condition is None,
    {
        Self {
            user: String::from_str(user),
            relation: String::from_str(relation),
            object: String::from_str(object),
            condition: None,
        }
    }

    /// Attaches a condition to this tuple key.
    pub fn with_condition(self, condition: RelationshipCondition) -> (k: Self)
        ensures
            k.user == self.user,
            k.relation == self.relation,
            k.object == self.object,
            k.condition == Some(condition),
    {
        let mut k = self;
        k.condition = Some(condition);
        k
    }
}

// ────────────────────────────────────────────────────────────────────────────
// TupleKeyWithoutCondition
// ────────────────────────────────────────────────────────────────────────────

/// A relationship tuple key without a condition (used for delete operations).
#[derive(Debug, Clone, PartialEq)]
pub struct TupleKeyWithoutCondition {
    /// Subject of the relationship.
    pub user: String,
    /// Relation name.
    pub relation: String,
    /// Object.
    pub object: String,
}

impl TupleKeyWithoutCondition {
    /// Creates a new `TupleKeyWithoutCondition`.
    pub fn new(user: &str, relation: &str, object: &str) -> (k: Self)
        ensures
            k.user@ == user@,
            k.relation@ == relation@,
            k.object@ == object@,
    {
        Self {
            user: String::from_str(user),
            relation: String::from_str(relation),
            object: String::from_str(object),
        }
    }
}

// ────────────────────────────────────────────────────────────────────────────
// CheckRequestTupleKey / ReadRequestTupleKey / ExpandRequestTupleKey
// ────────────────────────────────────────────────────────────────────────────

/// Tuple key used in `CheckRequest` — user and relation are required.
#[derive(Debug, Clone, PartialEq)]
pub struct CheckRequestTupleKey {
    /// Subject.
    pub user: String,
    /// Relation.
    pub relation: String,
    /// Object.
    pub object: String,
}

impl CheckRequestTupleKey {
    /// Creates a new `CheckRequestTupleKey`.
    pub fn new(user: &str, relation: &str, object: &str) -> (k: Self)
        ensures
            k.user@ == user@,
            k.relation@ == relation@,
            k.object@ == object@,
    {
        Self { user: String::from_str(user), relation: String::from_str(relation), object: String::from_str(object) }
    }
}

/// Tuple key used in `ReadRequest` — all fields are optional for filtering.
#[derive(Debug, Clone, Default, PartialEq)]
pub struct ReadRequestTupleKey {
    /// Optional user filter.
    pub user: Option<String>,
    /// Optional relation filter.
    pub relation: Option<String>,
    /// Optional object filter.
    pub object: Option<String>,
}

/// Tuple key used in `ExpandRequest`.
#[derive(Debug, Clone, PartialEq)]
pub struct ExpandRequestTupleKey {
    /// Relation to expand.
    pub relation: String,
    /// Object to expand from.
    pub object: String,
}

impl ExpandRequestTupleKey {
    /// Creates a new `ExpandRequestTupleKey`.
    pub fn new(relation: &str, object: &str) -> (k: Self)
        ensures
            k.relation@ == relation@,
            k.object@ == object@,
    {
        Self { relation: String::from_str(relation), object: String::from_str(object) }
    }
}

// ────────────────────────────────────────────────────────────────────────────
// Tuple / TupleChange / TupleOperation
// ────────────────────────────────────────────────────────────────────────────

/// A full relationship tuple (key + timestamp).
#[derive(Debug, Clone, PartialEq)]
pub struct Tuple {
    /// The tuple key.
    pub key: TupleKey,
    /// When the tuple was created.
    pub timestamp: Option<Timestamp>,
}

/// An operation on a relationship tuple (write or delete).
#[derive(Debug, Clone, PartialEq)]
pub enum TupleOperation {
    /// A write (creation) operation.
    Write,
    /// A delete operation.
    Delete,
}

/// A historical record of a change to a relationship tuple.
#[derive(Debug, Clone, PartialEq)]
pub struct TupleChange {
    /// The tuple key.
    pub tuple_key: TupleKeyWithoutCondition,
    /// The operation performed.
    pub operation: TupleOperation,
    /// When the change occurred.
    pub timestamp: Option<Timestamp>,
}

} // verus!
