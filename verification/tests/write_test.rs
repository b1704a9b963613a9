use openfga_sdk::client::write::{
    chunk_size, plan_chunked_writes, split_in_chunks, transactional_write_body, uses_chunked_write,
};
use openfga_sdk::client::{
    delete_tuples_body, write_tuples_body, ClientWriteOptions, TransactionOptions, DEFAULT_MAX_PER_CHUNK,
};
use openfga_sdk::models::{TupleKey, TupleKeyWithoutCondition, WriteRequest, WriteRequestDeletes, WriteRequestWrites};

fn keys(n: usize) -> Vec<TupleKey> {
    (0..n).map(|i| TupleKey::new(&format!("user:{i}"), "viewer", "doc:1")).collect()
}

fn dkeys(n: usize) -> Vec<TupleKeyWithoutCondition> {
    (0..n).map(|i| TupleKeyWithoutCondition::new(&format!("user:{i}"), "viewer", "doc:1")).collect()
}

#[test]
fn split_in_chunks_sizes() {
    let c = split_in_chunks((0..7).collect::<Vec<u32>>(), 3);
    assert_eq!(c, vec![vec![0, 1, 2], vec![3, 4, 5], vec![6]]);
    let c = split_in_chunks((0..6).collect::<Vec<u32>>(), 3);
    assert_eq!(c, vec![vec![0, 1, 2], vec![3, 4, 5]]);
    let c = split_in_chunks(Vec::<u32>::new(), 3);
    assert!(c.is_empty());
    let c = split_in_chunks(vec![1u32, 2], 100);
    assert_eq!(c, vec![vec![1, 2]]);
}

#[test]
fn chunks_flatten_to_input() {
    for n in 1..6usize {
        for len in 0..12u32 {
            let input: Vec<u32> = (0..len).collect();
            let chunks = split_in_chunks(input.clone(), n);
            let flat: Vec<u32> = chunks.iter().flatten().copied().collect();
            assert_eq!(flat, input);
            for (i, c) in chunks.iter().enumerate() {
                assert!(!c.is_empty() && c.len() <= n);
                if i + 1 < chunks.len() {
                    assert_eq!(c.len(), n);
                }
            }
        }
    }
}

#[test]
fn chunked_mode_only_when_transaction_disabled() {
    assert!(!uses_chunked_write(None));
    let mut o = ClientWriteOptions::default();
    assert!(!uses_chunked_write(Some(&o)));
    o.transaction = Some(TransactionOptions::default());
    assert!(!uses_chunked_write(Some(&o)));
    o.transaction = Some(TransactionOptions { disable: true, max_per_chunk: 2, max_parallel_requests: 1 });
    assert!(uses_chunked_write(Some(&o)));
    assert_eq!(chunk_size(Some(&o)), 2);
    assert_eq!(chunk_size(None), DEFAULT_MAX_PER_CHUNK);
    assert_eq!(DEFAULT_MAX_PER_CHUNK, 100);
}

#[test]
fn plan_writes_then_deletes() {
    let body = WriteRequest {
        writes: Some(WriteRequestWrites { tuple_keys: keys(5) }),
        deletes: Some(WriteRequestDeletes { tuple_keys: dkeys(3) }),
        authorization_model_id: Some("ignored".to_string()),
    };
    let plan = plan_chunked_writes(body, Some("m1".to_string()), 2);
    assert_eq!(plan.len(), 3 + 2);
    let sizes: Vec<usize> = plan[..3].iter().map(|w| w.writes.as_ref().unwrap().tuple_keys.len()).collect();
    assert_eq!(sizes, vec![2, 2, 1]);
    assert_eq!(plan[2].writes.as_ref().unwrap().tuple_keys[0].user, "user:4");
    for w in &plan[..3] {
        assert!(w.deletes.is_none());
    }
    let dsizes: Vec<usize> = plan[3..].iter().map(|w| w.deletes.as_ref().unwrap().tuple_keys.len()).collect();
    assert_eq!(dsizes, vec![2, 1]);
    for w in &plan {
        assert_eq!(w.authorization_model_id.as_deref(), Some("m1"));
    }
}

#[test]
fn plan_of_empty_write_is_empty() {
    let body = WriteRequest { writes: None, deletes: None, authorization_model_id: None };
    assert!(plan_chunked_writes(body, None, 10).is_empty());
}

#[test]
fn convenience_bodies() {
    let w = write_tuples_body(keys(2));
    assert_eq!(w.writes.unwrap().tuple_keys.len(), 2);
    assert!(w.deletes.is_none() && w.authorization_model_id.is_none());
    let d = delete_tuples_body(dkeys(1));
    assert!(d.writes.is_none());
    assert_eq!(d.deletes.unwrap().tuple_keys[0].user, "user:0");
}

#[test]
fn plan_sends_every_tuple_once() {
    for n in 1..5usize {
        let body = WriteRequest {
            writes: Some(WriteRequestWrites { tuple_keys: keys(7) }),
            deletes: Some(WriteRequestDeletes { tuple_keys: dkeys(4) }),
            authorization_model_id: None,
        };
        let plan = plan_chunked_writes(body, None, n);
        let written: Vec<TupleKey> =
            plan.iter().filter_map(|w| w.writes.as_ref()).flat_map(|w| w.tuple_keys.clone()).collect();
        let deleted: Vec<TupleKeyWithoutCondition> =
            plan.iter().filter_map(|w| w.deletes.as_ref()).flat_map(|d| d.tuple_keys.clone()).collect();
        assert_eq!(written, keys(7));
        assert_eq!(deleted, dkeys(4));
        assert!(plan.iter().all(|w| w.writes.as_ref().map_or(0, |x| x.tuple_keys.len()) <= n));
        assert!(plan.iter().all(|w| w.deletes.as_ref().map_or(0, |x| x.tuple_keys.len()) <= n));
    }
}

#[test]
fn transactional_body_takes_default_model() {
    let body = write_tuples_body(keys(1));
    let b = transactional_write_body(body, Some("m".to_string()));
    assert_eq!(b.authorization_model_id.as_deref(), Some("m"));
    assert_eq!(b.writes.unwrap().tuple_keys.len(), 1);
    let own = WriteRequest { writes: None, deletes: None, authorization_model_id: Some("own".to_string()) };
    assert_eq!(transactional_write_body(own, Some("m".to_string())).authorization_model_id.as_deref(), Some("own"));
    let none = WriteRequest { writes: None, deletes: None, authorization_model_id: None };
    assert_eq!(transactional_write_body(none, None).authorization_model_id, None);
}
