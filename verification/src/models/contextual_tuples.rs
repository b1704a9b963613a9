//! Contextual tuples model.

use super::tuple::TupleKey;
use vstd::prelude::*;

verus! {

/// A set of contextual tuples provided alongside a request for evaluation.
#[derive(Debug, Clone, Default, PartialEq)]
pub struct ContextualTupleKeys {
    /// The contextual tuple keys.
    pub tuple_keys: Vec<TupleKey>,
}

impl ContextualTupleKeys {
    /// Creates a `ContextualTupleKeys` from a list of tuple keys.
    pub fn new(tuple_keys: Vec<TupleKey>) -> (c: Self)
        ensures
            c.tuple_keys == tuple_keys,
    {
        Self { tuple_keys }
    }
}

} // verus!
