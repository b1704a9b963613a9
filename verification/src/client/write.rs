//! Non-transaction writes: the tuples of a write are split into chunks, each
//! sent as a write of its own.

use vstd::prelude::*;
use crate::client::{ClientWriteOptions, DEFAULT_MAX_PER_CHUNK};
use crate::models::{TupleKey, TupleKeyWithoutCondition, WriteRequest, WriteRequestDeletes, WriteRequestWrites};

verus! {

/// Consecutive pieces of `s` of length `n`, the last one possibly shorter,
/// as `<[T]>::chunks` gives them; an empty sequence has no pieces.
pub open spec fn chunks<T>(s: Seq<T>, n: nat) -> Seq<Seq<T>>
    decreases s.len(),
{
    if n == 0 || s.len() == 0 {
        Seq::empty()
    } else if s.len() <= n {
        seq![s]
    } else {
        seq![s.take(n as int)] + chunks(s.skip(n as int), n)
    }
}

/// Splitting into chunks loses, repeats and reorders nothing: the chunks,
/// put back together, are the sequence that was split; each has between 1 and `n`
/// items, and every chunk but the last has exactly `n`.
pub proof fn lemma_chunks_partition<T>(s: Seq<T>, n: nat)
    requires
        n > 0,
    ensures
        chunks(s, n).flatten() == s,
        forall|i: int| 0 <= i < chunks(s, n).len() ==> 0 < #[trigger] chunks(s, n)[i].len() <= n,
        forall|i: int| 0 <= i < chunks(s, n).len() - 1 ==> #[trigger] chunks(s, n)[i].len() == n,
    decreases s.len(),
{
    let c = chunks(s, n);
    if s.len() == 0 {
    } else if s.len() <= n {
        assert(c == seq![s]);
        assert(c.drop_first() =~= Seq::<Seq<T>>::empty());
        assert(c.flatten() == s + c.drop_first().flatten());
        assert(s + Seq::<T>::empty() =~= s);
    } else {
        let rest = s.skip(n as int);
        lemma_chunks_partition(rest, n);
        let tail = chunks(rest, n);
        assert(c == seq![s.take(n as int)] + tail);
        assert(c.drop_first() =~= tail);
        assert(c.flatten() == s.take(n as int) + tail.flatten());
        assert(s.take(n as int) + rest =~= s);
        assert forall|i: int| 0 <= i < c.len() implies 0 < #[trigger] c[i].len() <= n by {
            if i > 0 {
                assert(c[i] == tail[i - 1]);
            }
        }
        assert forall|i: int| 0 <= i < c.len() - 1 implies #[trigger] c[i].len() == n by {
            if i > 0 {
                assert(c[i] == tail[i - 1]);
            }
        }
    }
}

/// The views of a list of vectors.
pub open spec fn vecs_view<T>(v: Seq<Vec<T>>) -> Seq<Seq<T>> {
    v.map_values(|c: Vec<T>| c@)
}

/// Whether a write is sent in chunks rather than as one transaction.
pub fn uses_chunked_write(opts: Option<&ClientWriteOptions>) -> (r: bool)
    ensures
        r == (opts matches Some(o) && o.transaction matches Some(t) && t.disable),
{
    match opts {
        Some(o) => match &o.transaction {
            Some(t) => t.disable,
            None => false,
        },
        None => false,
    }
}

/// The number of tuples per chunk: the options' setting, else 100.
pub fn chunk_size(opts: Option<&ClientWriteOptions>) -> (n: usize)
    ensures
        n == (match opts {
            Some(o) => match o.transaction {
                Some(t) => t.max_per_chunk,
                None => DEFAULT_MAX_PER_CHUNK,
            },
            None => DEFAULT_MAX_PER_CHUNK,
        }),
{
    match opts {
        Some(o) => match &o.transaction {
            Some(t) => t.max_per_chunk,
            None => DEFAULT_MAX_PER_CHUNK,
        },
        None => DEFAULT_MAX_PER_CHUNK,
    }
}

/// The body of a write sent as one transaction: the body as given, carrying
/// the effective authorization model unless it names one itself.
pub fn transactional_write_body(body: WriteRequest, model_id: Option<String>) -> (r: WriteRequest)
    ensures
        r.writes == body.writes,
        r.deletes == body.deletes,
        r.authorization_model_id == (match body.authorization_model_id {
            Some(m) => Some(m),
            None => model_id,
        }),
{
    let mut body = body;
    body.authorization_model_id = match body.authorization_model_id {
        Some(m) => Some(m),
        None => model_id,
    };
    body
}

/// Splits a vector into consecutive chunks of `n` items (the last one
/// possibly shorter).
pub fn split_in_chunks<T>(v: Vec<T>, n: usize) -> (r: Vec<Vec<T>>)
    requires
        n > 0,
    ensures
        vecs_view(r@) == chunks(v@, n as nat),
{
    let ghost whole = v@;
    let mut rest = v;
    let mut out: Vec<Vec<T>> = Vec::new();
    while rest.len() > 0
        invariant
            n > 0,
            vecs_view(out@) + chunks(rest@, n as nat) == chunks(whole, n as nat),
        decreases rest@.len(),
    {
        let ghost before = rest@;
        if rest.len() <= n {
            let ghost o = vecs_view(out@);
            out.push(rest);
            rest = Vec::new();
            assert(vecs_view(out@) =~= o.push(before));
            assert(chunks(before, n as nat) == seq![before]);
            assert(chunks(rest@, n as nat) =~= Seq::<Seq<T>>::empty());
            assert(vecs_view(out@) + chunks(rest@, n as nat) =~= o + chunks(before, n as nat));
        } else {
            let ghost o = vecs_view(out@);
            let tail = rest.split_off(n);
            out.push(rest);
            rest = tail;
            assert(before.take(n as int) =~= before.subrange(0, n as int));
            assert(before.skip(n as int) =~= before.subrange(n as int, before.len() as int));
            assert(vecs_view(out@) =~= o.push(before.take(n as int)));
            assert(chunks(before, n as nat) == seq![before.take(n as int)] + chunks(before.skip(n as int), n as nat));
            assert(vecs_view(out@) + chunks(rest@, n as nat) =~= o + chunks(before, n as nat));
        }
    }
    assert(chunks(rest@, n as nat) =~= Seq::<Seq<T>>::empty());
    assert(vecs_view(out@) =~= vecs_view(out@) + chunks(rest@, n as nat));
    out
}

/// The writes of a chunked write: first one write per chunk of tuples to
/// write, then one write per chunk of tuples to delete, each carrying the
/// authorization model id.
pub open spec fn chunked_writes_ok(body: WriteRequest, model_id: Option<String>, n: nat, r: Seq<WriteRequest>) -> bool {
    let w = chunks(match body.writes { Some(x) => x.tuple_keys@, None => Seq::<TupleKey>::empty() }, n);
    let d = chunks(match body.deletes { Some(x) => x.tuple_keys@, None => Seq::<TupleKeyWithoutCondition>::empty() }, n);
    &&& r.len() == w.len() + d.len()
    &&& forall|i: int| 0 <= i < w.len() ==> {
        &&& #[trigger] r[i].writes matches Some(x) && x.tuple_keys@ == w[i]
        &&& r[i].deletes is None
        &&& r[i].authorization_model_id == model_id
    }
    &&& forall|i: int| w.len() <= i < r.len() ==> {
        &&& #[trigger] r[i].writes is None
        &&& r[i].deletes matches Some(x) && x.tuple_keys@ == d[i - w.len()]
        &&& r[i].authorization_model_id == model_id
    }
}

fn copy_model_id(m: &Option<String>) -> (r: Option<String>)
    ensures
        r == *m,
{
    match m {
        Some(s) => Some(s.clone()),
        None => None,
    }
}

/// Splits a write into the writes of a non-transaction write.
pub fn plan_chunked_writes(body: WriteRequest, model_id: Option<String>, max_per_chunk: usize) -> (r: Vec<WriteRequest>)
    requires
        max_per_chunk > 0,
    ensures
        chunked_writes_ok(body, model_id, max_per_chunk as nat, r@),
{
    let ghost b = body;
    let writes = match body.writes {
        Some(w) => w.tuple_keys,
        None => Vec::new(),
    };
    let deletes = match body.deletes {
        Some(d) => d.tuple_keys,
        None => Vec::new(),
    };
    let mut wc = split_in_chunks(writes, max_per_chunk);
    let mut dc = split_in_chunks(deletes, max_per_chunk);
    let ghost w = vecs_view(wc@);
    let ghost d = vecs_view(dc@);
    let mut out: Vec<WriteRequest> = Vec::new();
    assert(w.skip(0) =~= w);
    while wc.len() > 0
        invariant
            out@.len() <= w.len(),
            vecs_view(wc@) == w.skip(out@.len() as int),
            forall|i: int| 0 <= i < out@.len() ==> {
                &&& #[trigger] out@[i].writes matches Some(x) && x.tuple_keys@ == w[i]
                &&& out@[i].deletes is None
                &&& out@[i].authorization_model_id == model_id
            },
        decreases wc@.len(),
    {
        let ghost k = out@.len() as int;
        let ghost before = wc@;
        assert(vecs_view(before).len() == before.len());
        assert(k < w.len());
        assert(vecs_view(before)[0] == w.skip(k)[0]);
        assert(vecs_view(before)[0] == w[k]);
        let chunk = wc.remove(0);
        assert(chunk@ == w[k]);
        assert(vecs_view(wc@) =~= vecs_view(before).skip(1));
        assert(vecs_view(wc@) =~= w.skip(k + 1));
        out.push(WriteRequest {
            writes: Some(WriteRequestWrites { tuple_keys: chunk }),
            deletes: None,
            authorization_model_id: copy_model_id(&model_id),
        });
    }
    assert(out@.len() == w.len());
    let nw = out.len();
    assert(d.skip(0) =~= d);
    while dc.len() > 0
        invariant
            nw == w.len(),
            nw <= out@.len() <= nw + d.len(),
            vecs_view(dc@) == d.skip(out@.len() - nw),
            forall|i: int| 0 <= i < nw ==> {
                &&& #[trigger] out@[i].writes matches Some(x) && x.tuple_keys@ == w[i]
                &&& out@[i].deletes is None
                &&& out@[i].authorization_model_id == model_id
            },
            forall|i: int| nw <= i < out@.len() ==> {
                &&& #[trigger] out@[i].writes is None
                &&& out@[i].deletes matches Some(x) && x.tuple_keys@ == d[i - nw]
                &&& out@[i].authorization_model_id == model_id
            },
        decreases dc@.len(),
    {
        let ghost k = out@.len() - nw;
        let ghost before = dc@;
        assert(vecs_view(before).len() == before.len());
        assert(k < d.len());
        assert(vecs_view(before)[0] == d.skip(k)[0]);
        assert(vecs_view(before)[0] == d[k]);
        let chunk = dc.remove(0);
        assert(chunk@ == d[k]);
        assert(vecs_view(dc@) =~= vecs_view(before).skip(1));
        assert(vecs_view(dc@) =~= d.skip(k + 1));
        out.push(WriteRequest {
            writes: None,
            deletes: Some(WriteRequestDeletes { tuple_keys: chunk }),
            authorization_model_id: copy_model_id(&model_id),
        });
    }
    assert(out@.len() == nw + d.len());
    out
}


/// The tuples of the `i`-th write of a plan, for the first `k` writes.
pub open spec fn planned_writes(r: Seq<WriteRequest>, k: nat) -> Seq<Seq<TupleKey>> {
    Seq::new(k, |i: int| match r[i].writes {
        Some(x) => x.tuple_keys@,
        None => Seq::<TupleKey>::empty(),
    })
}

/// The tuples of the deletes of a plan, from write `k` on.
pub open spec fn planned_deletes(r: Seq<WriteRequest>, k: nat) -> Seq<Seq<TupleKeyWithoutCondition>> {
    Seq::new((r.len() - k) as nat, |i: int| match r[k + i].deletes {
        Some(x) => x.tuple_keys@,
        None => Seq::<TupleKeyWithoutCondition>::empty(),
    })
}

/// A chunked write sends every tuple exactly once and in order: the tuples
/// of its writes, put together, are the tuples to write, and those of its
/// deletes are the tuples to delete; no write carries more than `n`.
pub proof fn lemma_plan_sends_every_tuple_once(body: WriteRequest, model_id: Option<String>, n: nat, r: Seq<WriteRequest>)
    requires
        n > 0,
        chunked_writes_ok(body, model_id, n, r),
    ensures
        ({
            let ws = match body.writes { Some(x) => x.tuple_keys@, None => Seq::<TupleKey>::empty() };
            let ds = match body.deletes { Some(x) => x.tuple_keys@, None => Seq::<TupleKeyWithoutCondition>::empty() };
            let k = chunks(ws, n).len();
            &&& planned_writes(r, k).flatten() == ws
            &&& planned_deletes(r, k).flatten() == ds
            &&& forall|i: int| 0 <= i < k ==> #[trigger] planned_writes(r, k)[i].len() <= n
            &&& forall|i: int| 0 <= i < r.len() - k ==> #[trigger] planned_deletes(r, k)[i].len() <= n
        }),
{
    let ws = match body.writes { Some(x) => x.tuple_keys@, None => Seq::<TupleKey>::empty() };
    let ds = match body.deletes { Some(x) => x.tuple_keys@, None => Seq::<TupleKeyWithoutCondition>::empty() };
    let w = chunks(ws, n);
    let d = chunks(ds, n);
    let k = w.len();
    lemma_chunks_partition(ws, n);
    lemma_chunks_partition(ds, n);
    assert(planned_writes(r, k) =~= w) by {
        assert forall|i: int| 0 <= i < k implies #[trigger] planned_writes(r, k)[i] == w[i] by {
            assert(r[i].writes matches Some(x) && x.tuple_keys@ == w[i]);
        }
    }
    assert(planned_deletes(r, k) =~= d) by {
        assert forall|i: int| 0 <= i < d.len() implies #[trigger] planned_deletes(r, k)[i] == d[i] by {
            assert(r[k + i].writes is None);
            assert(r[k + i].deletes matches Some(x) && x.tuple_keys@ == d[(k + i) - k]);
        }
    }
}

} // verus!
