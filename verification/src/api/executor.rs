//! The description of an API request and the decisions of the retry loop.

use std::collections::HashMap;
use vstd::prelude::*;
use vstd::std_specs::hash::obeys_key_model;
use vstd::string::*;
use crate::error::{error_is_retryable, error_wait_ms, OpenFgaError};
use crate::internal::headers::opt_str_view;
use crate::internal::retry::{backoff_ms, header_retry_after, RetryParams};
use crate::internal::text::{chars_of, replace_all, replace_str, str_contains_char};

verus! {

/// A fully specified API request, ready to be sent.
#[derive(Debug, Clone)]
pub struct ApiExecutorRequest {
    /// Human-readable operation name (used in logs and telemetry).
    pub operation_name: String,
    /// HTTP method.
    pub method: String,
    /// URL path template (e.g. `/stores/{store_id}/check`).
    pub path: String,
    /// Values to substitute into `path` template variables, at most one per
    /// name, in the order they were first given.
    pub path_parameters: Vec<(String, String)>,
    /// URL query parameters.
    pub query_parameters: Vec<(String, String)>,
    /// Request body (sent as JSON).
    pub body: Option<serde_json::Value>,
    /// Additional per-request headers.
    pub headers: HashMap<String, String>,
}

/// The view of a list of string pairs.
pub open spec fn pairs_view(v: Seq<(String, String)>) -> Seq<(Seq<char>, Seq<char>)> {
    v.map_values(|p: (String, String)| (p.0@, p.1@))
}

/// No name occurs twice.
pub open spec fn distinct_names(p: Seq<(Seq<char>, Seq<char>)>) -> bool {
    forall|i: int, j: int| 0 <= i < j < p.len() ==> p[i].0 != p[j].0
}

/// The first position at which `key` names a parameter.
pub open spec fn first_position(p: Seq<(Seq<char>, Seq<char>)>, key: Seq<char>) -> int {
    choose|i: int| 0 <= i < p.len() && p[i].0 == key && forall|k: int| 0 <= k < i ==> p[k].0 != key
}

/// Sets the value of `key`: replaces it where the key first is, appends it
/// otherwise.
pub open spec fn set_param(p: Seq<(Seq<char>, Seq<char>)>, key: Seq<char>, value: Seq<char>) -> Seq<(Seq<char>, Seq<char>)> {
    if exists|i: int| 0 <= i < p.len() && p[i].0 == key {
        p.update(first_position(p, key), (key, value))
    } else {
        p.push((key, value))
    }
}

/// The value given to `key`: the one at its first position, if it is set.
pub open spec fn param_value(p: Seq<(Seq<char>, Seq<char>)>, key: Seq<char>) -> Option<Seq<char>> {
    if exists|i: int| 0 <= i < p.len() && p[i].0 == key {
        Some(p[first_position(p, key)].1)
    } else {
        None
    }
}

/// `{name}`: how a parameter is written in a path template.
pub open spec fn placeholder(name: Seq<char>) -> Seq<char> {
    seq!['{'] + name + seq!['}']
}

/// The path with each parameter's placeholder replaced by its value, the
/// parameters taken in order.
pub open spec fn substitute(path: Seq<char>, p: Seq<(Seq<char>, Seq<char>)>) -> Seq<char>
    decreases p.len(),
{
    if p.len() == 0 {
        path
    } else {
        substitute(replace_all(path, placeholder(p[0].0), p[0].1), p.drop_first())
    }
}

/// The message for a path with unresolved parameters.
pub open spec fn unresolved_message(path: Seq<char>) -> Seq<char> {
    "Not all path parameters were resolved in: "@ + path
}

impl Default for ApiExecutorRequest {
    fn default() -> (r: Self)
        ensures
            r.operation_name@ == Seq::<char>::empty(),
            r.method@ == Seq::<char>::empty(),
            r.path@ == Seq::<char>::empty(),
            r.path_parameters@.len() == 0,
            r.query_parameters@.len() == 0,
            r.body is None,
            r.headers@ == Map::<String, String>::empty(),
    {
        ApiExecutorRequest {
            operation_name: String::new(),
            method: String::new(),
            path: String::new(),
            path_parameters: Vec::new(),
            query_parameters: Vec::new(),
            body: None,
            headers: HashMap::new(),
        }
    }
}

impl ApiExecutorRequest {
    /// A request with the given operation, method and path template and
    /// nothing else.
    pub fn with_route(operation_name: &str, method: &str, path: &str) -> (r: Self)
        ensures
            r.operation_name@ == operation_name@,
            r.method@ == method@,
            r.path@ == path@,
            r.path_parameters@.len() == 0,
            r.query_parameters@.len() == 0,
            r.body is None,
            r.headers@ == Map::<String, String>::empty(),
    {
        ApiExecutorRequest {
            operation_name: String::from_str(operation_name),
            method: String::from_str(method),
            path: String::from_str(path),
            path_parameters: Vec::new(),
            query_parameters: Vec::new(),
            body: None,
            headers: HashMap::new(),
        }
    }

    /// Sets a path parameter value (replacing an earlier value of the same
    /// name).
    pub fn with_path_param(self, key: &str, value: &str) -> (r: Self)
        ensures
            pairs_view(r.path_parameters@) == set_param(pairs_view(self.path_parameters@), key@, value@),
            distinct_names(pairs_view(self.path_parameters@)) ==> distinct_names(pairs_view(r.path_parameters@)),
            r.operation_name == self.operation_name,
            r.method == self.method,
            r.path == self.path,
            r.query_parameters == self.query_parameters,
            r.body == self.body,
            r.headers == self.headers,
    {
        let mut r = self;
        let ghost old_p = pairs_view(r.path_parameters@);
        let n = r.path_parameters.len();
        let mut i: usize = 0;
        while i < n
            invariant
                i <= n,
                n == r.path_parameters@.len(),
                old_p == pairs_view(r.path_parameters@),
                old_p == pairs_view(self.path_parameters@),
                r == self,
                forall|k: int| 0 <= k < i ==> old_p[k].0 != key@,
            decreases n - i,
        {
            if str_equal(r.path_parameters[i].0.as_str(), key) {
                assert(old_p[i as int].0 == key@);
                proof {
                    let c = first_position(old_p, key@);
                    assert(0 <= i < old_p.len() && old_p[i as int].0 == key@
                        && forall|k: int| 0 <= k < i ==> old_p[k].0 != key@);
                    if c < i as int {
                        assert(old_p[c].0 != key@);
                    }
                    if c > i as int {
                        assert(old_p[i as int].0 != key@);
                    }
                    assert(c == i as int);
                }
                r.path_parameters.set(i, (String::from_str(key), String::from_str(value)));
                assert(pairs_view(r.path_parameters@) =~= old_p.update(i as int, (key@, value@)));
                assert(distinct_names(old_p) ==> distinct_names(pairs_view(r.path_parameters@))) by {
                    if distinct_names(old_p) {
                        assert forall|a: int, b: int| 0 <= a < b < pairs_view(r.path_parameters@).len()
                            implies pairs_view(r.path_parameters@)[a].0 != pairs_view(r.path_parameters@)[b].0 by {
                            assert(old_p[a].0 != old_p[b].0);
                        }
                    }
                }
                return r;
            }
            i = i + 1;
        }
        r.path_parameters.push((String::from_str(key), String::from_str(value)));
        assert(pairs_view(r.path_parameters@) =~= old_p.push((key@, value@)));
        assert(distinct_names(old_p) ==> distinct_names(pairs_view(r.path_parameters@))) by {
            if distinct_names(old_p) {
                assert forall|a: int, b: int| 0 <= a < b < pairs_view(r.path_parameters@).len()
                    implies pairs_view(r.path_parameters@)[a].0 != pairs_view(r.path_parameters@)[b].0 by {
                    if b < old_p.len() {
                        assert(old_p[a].0 != old_p[b].0);
                    } else {
                        assert(old_p[a].0 != key@);
                    }
                }
            }
        }
        r
    }

    /// The value of path parameter `key`, if it is set.
    pub fn path_param_value(&self, key: &str) -> (r: Option<String>)
        ensures
            opt_str_view(r) == param_value(pairs_view(self.path_parameters@), key@),
    {
        let ghost p = pairs_view(self.path_parameters@);
        let n = self.path_parameters.len();
        let mut i: usize = 0;
        while i < n
            invariant
                i <= n,
                n == self.path_parameters@.len(),
                p == pairs_view(self.path_parameters@),
                forall|k: int| 0 <= k < i ==> p[k].0 != key@,
            decreases n - i,
        {
            if str_equal(self.path_parameters[i].0.as_str(), key) {
                proof {
                    let c = first_position(p, key@);
                    assert(0 <= i < p.len() && p[i as int].0 == key@
                        && forall|k: int| 0 <= k < i ==> p[k].0 != key@);
                    if c < i as int {
                        assert(p[c].0 != key@);
                    }
                    if c > i as int {
                        assert(p[i as int].0 != key@);
                    }
                }
                return Some(self.path_parameters[i].1.clone());
            }
            i = i + 1;
        }
        None
    }

    /// Appends a query parameter.
    pub fn with_query_param(self, key: &str, value: &str) -> (r: Self)
        ensures
            pairs_view(r.query_parameters@) == pairs_view(self.query_parameters@).push((key@, value@)),
            r.operation_name == self.operation_name,
            r.method == self.method,
            r.path == self.path,
            r.path_parameters == self.path_parameters,
            r.body == self.body,
            r.headers == self.headers,
    {
        let mut r = self;
        r.query_parameters.push((String::from_str(key), String::from_str(value)));
        assert(pairs_view(r.query_parameters@) =~= pairs_view(self.query_parameters@).push((key@, value@)));
        r
    }

    /// Sets the JSON body.
    pub fn with_body(self, body: serde_json::Value) -> (r: Self)
        ensures
            r.body == Some(body),
            r.operation_name == self.operation_name,
            r.method == self.method,
            r.path == self.path,
            r.path_parameters == self.path_parameters,
            r.query_parameters == self.query_parameters,
            r.headers == self.headers,
    {
        let mut r = self;
        r.body = Some(body);
        r
    }

    /// Adds a custom header.
    pub fn with_header(self, key: &str, value: &str) -> (r: Self)
        ensures
            obeys_key_model::<String>() ==> exists|k: String, v: String| k@ == key@ && v@ == value@
                && r.headers@ == self.headers@.insert(k, v),
            r.operation_name == self.operation_name,
            r.method == self.method,
            r.path == self.path,
            r.path_parameters == self.path_parameters,
            r.query_parameters == self.query_parameters,
            r.body == self.body,
    {
        let mut r = self;
        r.headers.insert(String::from_str(key), String::from_str(value));
        r
    }

    /// Resolves the path template: each `{name}` is replaced by the value of
    /// parameter `name`; refused when a brace remains.
    pub fn resolved_path(&self) -> (r: Result<String, OpenFgaError>)
        ensures
            ({
                let p = substitute(self.path@, pairs_view(self.path_parameters@));
                if p.contains('{') || p.contains('}') {
                    r matches Err(OpenFgaError::Configuration(m)) && m@ == unresolved_message(p)
                } else {
                    r matches Ok(s) && s@ == p
                }
            }),
    {
        let ghost params = pairs_view(self.path_parameters@);
        let mut path = self.path.clone();
        let n = self.path_parameters.len();
        let mut i: usize = 0;
        assert(params.skip(0) =~= params);
        while i < n
            invariant
                i <= n,
                n == self.path_parameters@.len(),
                params == pairs_view(self.path_parameters@),
                substitute(path@, params.skip(i as int)) == substitute(self.path@, params),
            decreases n - i,
        {
            let (k, v) = &self.path_parameters[i];
            proof {
                reveal_strlit("{");
                reveal_strlit("}");
            }
            assert(params[i as int].0 == k@);
            let mut pat = String::from_str("{");
            pat.append(k.as_str());
            pat.append("}");
            assert(pat@ =~= placeholder(params[i as int].0));
            let next = replace_str(path.as_str(), pat.as_str(), v.as_str());
            assert(params.skip(i as int).drop_first() =~= params.skip(i + 1));
            path = next;
            i = i + 1;
        }
        assert(params.skip(n as int).len() == 0);
        if str_contains_char(path.as_str(), '{') || str_contains_char(path.as_str(), '}') {
            let mut msg = String::from_str("Not all path parameters were resolved in: ");
            msg.append(path.as_str());
            return Err(OpenFgaError::Configuration(msg));
        }
        Ok(path)
    }
}

fn str_equal(a: &str, b: &str) -> (r: bool)
    ensures
        r == (a@ == b@),
{
    let x = chars_of(a);
    let y = chars_of(b);
    if x.len() != y.len() {
        return false;
    }
    let mut i: usize = 0;
    while i < x.len()
        invariant
            i <= x.len(),
            x.len() == y.len(),
            x@ == a@,
            y@ == b@,
            forall|k: int| 0 <= k < i ==> a@[k] == b@[k],
        decreases x.len() - i,
    {
        if x[i] != y[i] {
            return false;
        }
        i = i + 1;
    }
    assert(a@ =~= b@);
    true
}

// ─── Retry loop ─────────────────────────────────────────────────────────────

/// What the executor does after an attempt failed.
#[derive(Debug, Clone, Copy, PartialEq, Eq, Structural)]
pub enum RetryDecision {
    /// Return the error.
    GiveUp,
    /// Wait this many milliseconds, then make attempt number `next_attempt`
    /// (counted from zero).
    RetryAfter {
        /// Milliseconds to wait.
        wait_ms: u128,
        /// The number of the next attempt.
        next_attempt: u32,
    },
}

/// The decision after failed attempt `attempt` with error `e`, where the
/// server's `Retry-After` is read at instant `now`: errors that cannot be
/// retried are returned, as is the error of the last attempt the budget
/// allows; otherwise the next attempt follows after the error's wait (at
/// once when that wait is zero, as with `Retry-After: 0`).
pub open spec fn retry_decision(e: OpenFgaError, attempt: nat, p: RetryParams, now: (i64, u32)) -> RetryDecision {
    if !error_is_retryable(e) || attempt >= p.max_retry {
        RetryDecision::GiveUp
    } else {
        RetryDecision::RetryAfter {
            wait_ms: error_wait_ms(e, attempt, p, now) as u128,
            next_attempt: (attempt + 1) as u32,
        }
    }
}

/// Decides what follows failed attempt `attempt` (counted from zero).
pub fn decide_after_failure(attempt: u32, retry: &RetryParams, err: &OpenFgaError) -> (d: RetryDecision)
    ensures
        exists|now: (i64, u32)| d == #[trigger] retry_decision(*err, attempt as nat, *retry, now),
        d is RetryAfter <==> (error_is_retryable(*err) && attempt < retry.max_retry),
        d matches RetryDecision::RetryAfter { next_attempt, wait_ms } ==> next_attempt == attempt + 1
            && next_attempt <= retry.max_retry,
{
    if !err.should_retry() || attempt >= retry.max_retry {
        assert(retry_decision(*err, attempt as nat, *retry, (0i64, 0u32)) == RetryDecision::GiveUp);
        return RetryDecision::GiveUp;
    }
    let w = err.get_time_to_wait(attempt, retry);
    let ghost now = choose|now: (i64, u32)| w == #[trigger] error_wait_ms(*err, attempt as nat, *retry, now);
    let d = RetryDecision::RetryAfter { wait_ms: w, next_attempt: attempt + 1 };
    assert(d == retry_decision(*err, attempt as nat, *retry, now));
    d
}

/// A request is sent at most `max_retry + 1` times: if the decisions after
/// failed attempts `0, 1, ..., k - 1` all said to try again, then
/// `k <= max_retry`, whatever the errors were and whenever they came.
pub proof fn lemma_attempts_bounded(errs: Seq<OpenFgaError>, nows: Seq<(i64, u32)>, p: RetryParams, k: nat)
    requires
        errs.len() >= k,
        nows.len() >= k,
        forall|i: int| 0 <= i < k ==> #[trigger] retry_decision(errs[i], i as nat, p, nows[i]) is RetryAfter,
    ensures
        k <= p.max_retry,
{
    if k > p.max_retry {
        let i = p.max_retry as int;
        assert(retry_decision(errs[i], i as nat, p, nows[i]) is RetryAfter);
    }
}

/// An error that cannot be retried is returned at once, at any attempt.
pub proof fn lemma_unretryable_returned(e: OpenFgaError, attempt: nat, p: RetryParams, now: (i64, u32))
    requires
        !error_is_retryable(e),
    ensures
        retry_decision(e, attempt, p, now) is GiveUp,
{
}


/// No brace in the text.
pub open spec fn no_braces(s: Seq<char>) -> bool {
    !s.contains('{') && !s.contains('}')
}

/// Text that holds no `{` is left as it is by the replacement of a
/// placeholder, and shields what follows it.
proof fn lemma_replace_skips_plain(a: Seq<char>, t: Seq<char>, pat: Seq<char>, rep: Seq<char>)
    requires
        pat.len() > 0,
        pat[0] == '{',
        !a.contains('{'),
    ensures
        replace_all(a + t, pat, rep) == a + replace_all(t, pat, rep),
    decreases a.len(),
{
    if a.len() == 0 {
        assert(a + t =~= t);
        assert(a + replace_all(t, pat, rep) =~= replace_all(t, pat, rep));
    } else {
        let s = a + t;
        assert(s[0] == a[0]);
        assert(a[0] != '{') by {
            if a[0] == '{' {
                assert(a.contains('{'));
            }
        }
        let a1 = a.drop_first();
        assert(!a1.contains('{')) by {
            if a1.contains('{') {
                let j = choose|j: int| 0 <= j < a1.len() && a1[j] == '{';
                assert(a[j + 1] == '{');
            }
        }
        lemma_replace_skips_plain(a1, t, pat, rep);
        if s.len() < pat.len() {
            lemma_replace_short(t, pat, rep);
        } else {
            assert(s.subrange(0, pat.len() as int)[0] != pat[0]);
            assert(s.subrange(0, pat.len() as int) != pat);
            assert(s.drop_first() =~= a1 + t);
            assert(a + replace_all(t, pat, rep) =~= seq![s[0]] + (a1 + replace_all(t, pat, rep)));
        }
    }
}

/// Text shorter than the pattern is left as it is.
proof fn lemma_replace_short(t: Seq<char>, pat: Seq<char>, rep: Seq<char>)
    requires
        t.len() < pat.len(),
    ensures
        replace_all(t, pat, rep) == t,
{
}

/// A path template with a single placeholder resolves, with a value for it,
/// to the template with the placeholder replaced by the value, when neither
/// the rest of the template nor the value holds a brace; the result then
/// holds no brace, so the path counts as resolved.
pub proof fn lemma_single_placeholder_resolves(a: Seq<char>, name: Seq<char>, b: Seq<char>, v: Seq<char>)
    requires
        no_braces(a),
        no_braces(b),
        no_braces(v),
    ensures
        substitute(a + placeholder(name) + b, seq![(name, v)]) == a + v + b,
        no_braces(a + v + b),
{
    let pat = placeholder(name);
    let t = a + pat + b;
    assert(pat[0] == '{');
    assert(t =~= a + (pat + b));
    lemma_replace_skips_plain(a, pat + b, pat, v);
    let pb = pat + b;
    assert(pb.subrange(0, pat.len() as int) =~= pat);
    assert(pb.subrange(pat.len() as int, pb.len() as int) =~= b);
    assert(replace_all(pb, pat, v) == v + replace_all(b, pat, v));
    lemma_replace_skips_plain(b, Seq::<char>::empty(), pat, v);
    assert(b + Seq::<char>::empty() =~= b);
    assert(replace_all(Seq::<char>::empty(), pat, v) =~= Seq::<char>::empty());
    assert(replace_all(b, pat, v) =~= b);
    let p = seq![(name, v)];
    assert(p.drop_first() =~= Seq::<(Seq<char>, Seq<char>)>::empty());
    assert(substitute(t, p) == substitute(replace_all(t, pat, v), p.drop_first()));
    assert(a + (v + b) =~= a + v + b);
    let r = a + v + b;
    assert(!r.contains('{')) by {
        if r.contains('{') {
            let j = choose|j: int| 0 <= j < r.len() && r[j] == '{';
            if j < a.len() {
                assert(a[j] == '{');
                assert(a.contains('{'));
            } else if j < a.len() + v.len() {
                assert(v[j - a.len()] == '{');
                assert(v.contains('{'));
            } else {
                assert(b[j - a.len() - v.len()] == '{');
                assert(b.contains('{'));
            }
        }
    }
    assert(!r.contains('}')) by {
        if r.contains('}') {
            let j = choose|j: int| 0 <= j < r.len() && r[j] == '}';
            if j < a.len() {
                assert(a[j] == '}');
                assert(a.contains('}'));
            } else if j < a.len() + v.len() {
                assert(v[j - a.len()] == '}');
                assert(v.contains('}'));
            } else {
                assert(b[j - a.len() - v.len()] == '}');
                assert(b.contains('}'));
            }
        }
    }
}


/// A rate-limited request is always sent again while retries remain, after
/// the delay the server asked for (at once for `Retry-After: 0`), or the
/// backoff when it asked for none.
pub proof fn lemma_rate_limited_retried(e: OpenFgaError, attempt: nat, p: RetryParams, now: (i64, u32))
    requires
        e is RateLimitExceeded,
        attempt < p.max_retry,
    ensures
        retry_decision(e, attempt, p, now) == (RetryDecision::RetryAfter {
            wait_ms: (match header_retry_after(e->RateLimitExceeded_0.context.response_headers@, now) {
                Some(d) => d,
                None => backoff_ms(attempt, p.min_wait_ms as nat),
            }) as u128,
            next_attempt: (attempt + 1) as u32,
        }),
{
}


/// Every retryable error is retried while retries remain, as the next
/// attempt, after the delay its response's `Retry-After` asks for (server
/// errors and rate limiting alike), or after the exponential backoff when
/// there is no such delay (always for transport failures).
pub proof fn lemma_retry_waits_as_the_error_asks(e: OpenFgaError, attempt: nat, p: RetryParams, now: (i64, u32))
    requires
        error_is_retryable(e),
        attempt < p.max_retry,
    ensures
        retry_decision(e, attempt, p, now) matches RetryDecision::RetryAfter { wait_ms, next_attempt }
            && next_attempt == attempt + 1
            && wait_ms == (match e {
                OpenFgaError::RateLimitExceeded(x) => match header_retry_after(x.context.response_headers@, now) {
                    Some(d) => d,
                    None => backoff_ms(attempt, p.min_wait_ms as nat),
                },
                OpenFgaError::Internal(x) => match header_retry_after(x.context.response_headers@, now) {
                    Some(d) => d,
                    None => backoff_ms(attempt, p.min_wait_ms as nat),
                },
                _ => backoff_ms(attempt, p.min_wait_ms as nat),
            }) as u128,
{
}

} // verus!
