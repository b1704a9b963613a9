use openfga_sdk::models::{
    CheckRequest, CheckRequestTupleKey, CheckResponse, ConsistencyPreference, ContextualTupleKeys, ExpandRequestTupleKey,
    TupleKey, TupleKeyWithoutCondition,
};

#[test]
fn check_request_tuple_key_new() {
    let tk = CheckRequestTupleKey::new("user:alice", "owner", "document:budget");
    assert_eq!(tk.user, "user:alice");
    assert_eq!(tk.relation, "owner");
    assert_eq!(tk.object, "document:budget");
}

#[test]
fn tuple_key_new_has_no_condition() {
    let key = TupleKey::new("user:alice", "viewer", "document:roadmap");
    assert_eq!(key.user, "user:alice");
    assert_eq!(key.relation, "viewer");
    assert_eq!(key.object, "document:roadmap");
    assert!(key.condition.is_none());
}

#[test]
fn tuple_key_without_condition_new() {
    let key = TupleKeyWithoutCondition::new("user:bob", "editor", "doc:1");
    assert_eq!(key.user, "user:bob");
    assert_eq!(key.relation, "editor");
    assert_eq!(key.object, "doc:1");
}

#[test]
fn expand_tuple_key_new() {
    let key = ExpandRequestTupleKey::new("viewer", "doc:1");
    assert_eq!(key.relation, "viewer");
    assert_eq!(key.object, "doc:1");
}

#[test]
fn check_request_new_leaves_options_unset() {
    let req = CheckRequest::new(CheckRequestTupleKey::new("user:bob", "editor", "doc:1"));
    assert_eq!(req.tuple_key.user, "user:bob");
    assert!(req.authorization_model_id.is_none());
    assert!(req.trace.is_none());
    assert!(req.contextual_tuples.is_none());
    assert!(req.context.is_none());
    assert_eq!(req.consistency, Some(ConsistencyPreference::Unspecified));
}

#[test]
fn check_response_allowed_only_when_true() {
    let yes = CheckResponse { allowed: Some(true), resolution: None };
    let no = CheckResponse { allowed: Some(false), resolution: None };
    let unknown = CheckResponse { allowed: None, resolution: None };
    assert!(yes.is_allowed());
    assert!(!no.is_allowed());
    assert!(!unknown.is_allowed());
}

#[test]
fn contextual_tuple_keys_new_keeps_order() {
    let c = ContextualTupleKeys::new(vec![
        TupleKey::new("user:a", "viewer", "doc:1"),
        TupleKey::new("user:b", "viewer", "doc:2"),
    ]);
    assert_eq!(c.tuple_keys.len(), 2);
    assert_eq!(c.tuple_keys[0].user, "user:a");
    assert_eq!(c.tuple_keys[1].user, "user:b");
}
