//! Expand-related models — userset tree types.

use super::{consistency::ConsistencyPreference, tuple::ExpandRequestTupleKey};
use vstd::prelude::*;

verus! {

// ────────────────────────────────────────────────────────────────────────────
// Expand request/response
// ────────────────────────────────────────────────────────────────────────────

/// Request body for `Expand`.
#[derive(Debug, Clone, PartialEq)]
pub struct ExpandRequest {
    /// The tuple key to expand.
    pub tuple_key: ExpandRequestTupleKey,
    /// Authorization model ID.
    pub authorization_model_id: Option<String>,
    /// Read consistency preference.
    pub consistency: Option<ConsistencyPreference>,
}

/// Response from `Expand`.
#[derive(Debug, PartialEq)]
pub struct ExpandResponse {
    /// The root node of the userset tree.
    pub tree: Option<UsersetTree>,
}

// ────────────────────────────────────────────────────────────────────────────
// Userset tree types
// ────────────────────────────────────────────────────────────────────────────

/// The root of a userset tree returned by `Expand`.
#[derive(Debug, PartialEq)]
pub struct UsersetTree {
    /// The root node.
    pub root: Option<Node>,
}

/// A node in a userset tree.
#[derive(Debug, PartialEq)]
pub struct Node {
    /// Node name / description.
    pub name: Option<String>,
    /// Leaf node (direct users).
    pub leaf: Option<Leaf>,
    /// Difference (A minus B).
    pub difference: Option<UsersetTreeDifference>,
    /// Union of child nodes.
    pub union: Option<Nodes>,
    /// Intersection of child nodes.
    pub intersection: Option<Nodes>,
}

/// A collection of nodes.
#[derive(Debug, PartialEq)]
pub struct Nodes {
    /// The child nodes.
    pub nodes: Vec<Node>,
}

/// A leaf node in a userset tree — contains actual users.
#[derive(Debug, Clone, PartialEq)]
pub struct Leaf {
    /// Direct users.
    pub users: Option<Users>,
    /// Computed userset.
    pub computed: Option<Computed>,
    /// Tuple-to-userset expansion.
    pub tuple_to_userset: Option<UsersetTreeTupleToUserset>,
}

/// The set of users at a leaf node.
#[derive(Debug, Clone, PartialEq)]
pub struct Users {
    /// The user string IDs.
    pub users: Vec<String>,
}

/// A computed userset in an expand result.
#[derive(Debug, Clone, PartialEq)]
pub struct Computed {
    /// The userset string.
    pub userset: String,
}

/// A tuple-to-userset expansion in an expand result.
#[derive(Debug, Clone, PartialEq)]
pub struct UsersetTreeTupleToUserset {
    /// The tupleset string.
    pub tupleset: String,
    /// Computed from each matching tuple.
    pub computed: Vec<Computed>,
}

/// A difference between two subtrees.
#[derive(Debug, PartialEq)]
pub struct UsersetTreeDifference {
    /// The base subtree.
    pub base: Box<Node>,
    /// The subtracted subtree.
    pub subtract: Box<Node>,
}

} // verus!
