//! Retry policy: retry parameters, exponential backoff and the `Retry-After`
//! header.
//!
//! Waiting times are counted in whole milliseconds.

use vstd::prelude::*;
use vstd::string::*;
use crate::internal::constants::{DEFAULT_MAX_RETRY, DEFAULT_MIN_WAIT_MS, MAX_RETRY_LIMIT};
use crate::internal::headers::{header_text, ResponseHeaders};
use crate::internal::text::{decimal, decimal_u64, parse_unsigned, parse_unsigned_decimal, trim, trimmed};

verus! {

/// Name of the `Retry-After` HTTP header.
pub const RETRY_AFTER_HEADER: &'static str = "Retry-After";

/// Name of the `X-RateLimit-Reset` HTTP header.
pub const RATE_LIMIT_RESET_HEADER: &'static str = "X-RateLimit-Reset";

/// Configuration for retry behaviour.
#[derive(Debug, Clone, Copy)]
pub struct RetryParams {
    /// Maximum number of retries (not counting the initial attempt).
    pub max_retry: u32,
    /// Minimum wait between retries in milliseconds.
    pub min_wait_ms: u64,
}

impl Default for RetryParams {
    fn default() -> (p: Self)
        ensures
            p.max_retry == DEFAULT_MAX_RETRY,
            p.min_wait_ms == DEFAULT_MIN_WAIT_MS,
    {
        RetryParams { max_retry: DEFAULT_MAX_RETRY, min_wait_ms: DEFAULT_MIN_WAIT_MS }
    }
}

/// The message with which retry parameters are refused.
pub open spec fn max_retry_message(max_retry: nat) -> Seq<char> {
    "RetryParams.max_retry ("@ + decimal(max_retry) + ") must not exceed 15"@
}

impl RetryParams {
    /// Creates retry parameters with custom values.
    pub fn new(max_retry: u32, min_wait_ms: u64) -> (p: Self)
        ensures
            p.max_retry == max_retry,
            p.min_wait_ms == min_wait_ms,
    {
        RetryParams { max_retry, min_wait_ms }
    }

    /// Validates retry parameters: `max_retry` must not exceed 15.
    pub fn validate(&self) -> (r: Result<(), String>)
        ensures
            r is Ok <==> self.max_retry <= 15,
            r matches Err(msg) ==> msg@ == max_retry_message(self.max_retry as nat),
    {
        if self.max_retry > MAX_RETRY_LIMIT {
            let mut msg = String::from_str("RetryParams.max_retry (");
            let n = decimal_u64(self.max_retry as u64);
            msg.append(n.as_str());
            msg.append(") must not exceed 15");
            return Err(msg);
        }
        Ok(())
    }
}

/// Two to the power `k`.
pub open spec fn two_pow(k: nat) -> nat
    decreases k,
{
    if k == 0 { 1 } else { 2 * two_pow((k - 1) as nat) }
}

/// The exponential backoff before retry number `attempt + 1`:
/// `min_wait_ms * 2^min(attempt, 10)`, saturating at the largest `u64`.
pub open spec fn backoff_ms(attempt: nat, min_wait_ms: nat) -> nat {
    let k = if attempt < 10 { attempt } else { 10 };
    let w = min_wait_ms * two_pow(k);
    if w <= u64::MAX { w } else { u64::MAX as nat }
}

/// How long to wait after failed attempt `attempt` (counted from zero), given
/// the delay the server asked for, if any: nothing once the retry budget is
/// spent, the server's delay when it gave one, the backoff otherwise.
pub open spec fn wait_ms(attempt: nat, max_retry: nat, min_wait_ms: nat, retry_after: Option<nat>) -> nat {
    if attempt >= max_retry {
        0
    } else {
        match retry_after {
            Some(d) => d,
            None => backoff_ms(attempt, min_wait_ms),
        }
    }
}

fn two_pow_u64(k: u32) -> (p: u64)
    requires
        k <= 10,
    ensures
        p == two_pow(k as nat),
{
    let mut p: u64 = 1;
    let mut i: u32 = 0;
    while i < k
        invariant
            i <= k <= 10,
            p == two_pow(i as nat),
            p <= 1024,
        decreases k - i,
    {
        proof {
            assert(two_pow((i + 1) as nat) == 2 * two_pow(i as nat));
            assert(i < 10);
            lemma_two_pow_bound(i as nat);
        }
        p = p * 2;
        i = i + 1;
    }
    p
}

proof fn lemma_two_pow_bound(k: nat)
    requires
        k < 10,
    ensures
        2 * two_pow(k) <= 1024,
    decreases 10 - k,
{
    if k < 9 {
        lemma_two_pow_bound(k + 1);
        assert(two_pow(k + 1) == 2 * two_pow(k));
    } else {
        reveal_with_fuel(two_pow, 11);
        assert(two_pow(9) == 512);
    }
}

/// The backoff before retry number `attempt + 1`.
pub fn backoff(attempt: u32, min_wait_ms: u64) -> (w: u64)
    ensures
        w == backoff_ms(attempt as nat, min_wait_ms as nat),
{
    let k: u32 = if attempt < 10 { attempt } else { 10 };
    let factor = two_pow_u64(k);
    match min_wait_ms.checked_mul(factor) {
        Some(w) => w,
        None => u64::MAX,
    }
}

/// How long to wait after failed attempt `attempt`, given the delay (in
/// milliseconds) that the server asked for, if any.
pub fn wait_after(attempt: u32, max_retry: u32, min_wait_ms: u64, retry_after_ms: Option<u128>) -> (w: u128)
    ensures
        w == wait_ms(attempt as nat, max_retry as nat, min_wait_ms as nat,
            match retry_after_ms { Some(d) => Some(d as nat), None => None }),
{
    if attempt >= max_retry {
        return 0;
    }
    match retry_after_ms {
        Some(d) => d,
        None => backoff(attempt, min_wait_ms) as u128,
    }
}

// ─── Retry-After ────────────────────────────────────────────────────────────

/// The instant (Unix seconds and nanoseconds within the second) that
/// `chrono::DateTime::parse_from_rfc2822` reads from a text, if it reads one.
pub uninterp spec fn rfc2822_instant(text: Seq<char>) -> Option<(i64, u32)>;

/// Calls `chrono::DateTime::parse_from_rfc2822` and returns the parsed
/// instant as its Unix timestamp and the nanoseconds within that second.
/// The contract names the result and says nothing more of it.
#[verifier::external_body]
fn parse_rfc2822_instant(text: &str) -> (r: Option<(i64, u32)>)
    ensures
        r == rfc2822_instant(text@),
{
    match chrono::DateTime::parse_from_rfc2822(text) {
        Ok(dt) => Some((dt.timestamp(), dt.timestamp_subsec_nanos())),
        Err(_) => None,
    }
}

/// Calls `chrono::Utc::now` and returns the current instant as its Unix
/// timestamp and the nanoseconds within that second. Nothing is promised of
/// the value: it is the time of the call.
#[verifier::external_body]
fn current_instant() -> (now: (i64, u32)) {
    let now = chrono::Utc::now();
    (now.timestamp(), now.timestamp_subsec_nanos())
}

/// `later` comes strictly after `earlier`, comparing seconds, then
/// nanoseconds (the order of `chrono::DateTime`).
pub open spec fn instant_after(later: (i64, u32), earlier: (i64, u32)) -> bool {
    later.0 > earlier.0 || (later.0 == earlier.0 && later.1 > earlier.1)
}

/// The whole milliseconds from `earlier` to `later` that chrono computes
/// (`(later - earlier).num_milliseconds()`), when both are instants chrono can
/// represent.
pub uninterp spec fn millis_between(later: (i64, u32), earlier: (i64, u32)) -> Option<i64>;

/// Calls `chrono::DateTime::from_timestamp` on both instants and, when both
/// are representable, subtracts them and takes `num_milliseconds` of the
/// difference. The result is named; of it the contract states only what
/// chrono documents for instants outside leap seconds (nanoseconds below one
/// billion) where `later` is after `earlier`: the difference truncated to
/// whole milliseconds.
#[verifier::external_body]
fn chrono_millis_between(later: (i64, u32), earlier: (i64, u32)) -> (r: Option<i64>)
    ensures
        r == millis_between(later, earlier),
        r is Some && later.1 < 1_000_000_000 && earlier.1 < 1_000_000_000
            && instant_after(later, earlier) ==> r->0 as int == ((later.0 - earlier.0) * 1_000_000_000
            + later.1 - earlier.1) / 1_000_000,
{
    match (chrono::DateTime::from_timestamp(later.0, later.1), chrono::DateTime::from_timestamp(earlier.0, earlier.1)) {
        (Some(a), Some(b)) => Some((a - b).num_milliseconds()),
        _ => None,
    }
}

/// The delay (milliseconds) that a `Retry-After` value asks for at instant
/// `now`: a number of seconds, or an HTTP date that lies in the future;
/// nothing for any other text or a date that has passed.
pub open spec fn retry_after_delay(value: Seq<char>, now: (i64, u32)) -> Option<nat> {
    let t = trimmed(value);
    match parse_unsigned(t, u64::MAX as nat) {
        Some(secs) => Some(secs * 1000),
        None => match rfc2822_instant(t) {
            Some(at) => if instant_after(at, now) {
                match millis_between(at, now) {
                    Some(ms) => Some(if ms < 0 { 0 } else { ms as nat }),
                    None => None,
                }
            } else {
                None
            },
            None => None,
        },
    }
}

/// The view of an optional delay.
pub open spec fn opt_nat(o: Option<u128>) -> Option<nat> {
    match o {
        Some(d) => Some(d as nat),
        None => None,
    }
}

/// Reads the delay that a `Retry-After` header value asks for, at instant `now`.
pub fn retry_after_value(value: &str, now: (i64, u32)) -> (r: Option<u128>)
    ensures
        opt_nat(r) == retry_after_delay(value@, now),
{
    let t = trim(value);
    match parse_unsigned_decimal(t, u64::MAX) {
        Some(secs) => Some(secs as u128 * 1000),
        None => match parse_rfc2822_instant(t) {
            Some(at) => {
                if at.0 > now.0 || (at.0 == now.0 && at.1 > now.1) {
                    match chrono_millis_between(at, now) {
                        Some(ms) => Some(if ms < 0 { 0 } else { ms as u128 }),
                        None => None,
                    }
                } else {
                    None
                }
            },
            None => None,
        },
    }
}

/// The delay that the `Retry-After` header of a response asks for at instant
/// `now`, if the header is there.
pub open spec fn header_retry_after(h: Seq<(Seq<char>, Option<Seq<char>>)>, now: (i64, u32)) -> Option<nat> {
    match header_text(h, "Retry-After"@) {
        Some(v) => retry_after_delay(v, now),
        None => None,
    }
}

/// Parses the `Retry-After` header of a response. Both the delay-seconds form
/// (`Retry-After: 30`) and the HTTP-date form are read; a date counts from the
/// time of the call. Returns `None` if the header is absent or unparseable.
pub fn parse_retry_after_header(headers: &ResponseHeaders) -> (r: Option<u128>)
    ensures
        exists|now: (i64, u32)| opt_nat(r) == #[trigger] header_retry_after(headers@, now),
{
    let v = headers.get_text(RETRY_AFTER_HEADER);
    let now = current_instant();
    proof { reveal_strlit("Retry-After"); }
    let r = match v {
        Some(text) => retry_after_value(text.as_str(), now),
        None => None,
    };
    assert(opt_nat(r) == header_retry_after(headers@, now));
    r
}

/// Calculates how long to wait (milliseconds) before the next retry.
///
/// Exponential backoff `min_wait_ms * 2^attempt` (the exponent capped at 10,
/// the product saturating), unless the response's `Retry-After` header asks
/// for a delay; nothing once `attempt` reaches `max_retry`.
pub fn get_time_to_wait(
    attempt: u32,
    max_retry: u32,
    min_wait_ms: u64,
    headers: &ResponseHeaders,
    _operation: &str,
) -> (w: u128)
    ensures
        exists|now: (i64, u32)|
            w == #[trigger] wait_ms(attempt as nat, max_retry as nat, min_wait_ms as nat,
                header_retry_after(headers@, now)),
{
    if attempt >= max_retry {
        assert(wait_ms(attempt as nat, max_retry as nat, min_wait_ms as nat,
            header_retry_after(headers@, (0i64, 0u32))) == 0);
        return 0;
    }
    let retry_after = parse_retry_after_header(headers);
    let w = wait_after(attempt, max_retry, min_wait_ms, retry_after);
    proof {
        let now = choose|now: (i64, u32)| opt_nat(retry_after) == #[trigger] header_retry_after(headers@, now);
        assert(w == wait_ms(attempt as nat, max_retry as nat, min_wait_ms as nat,
            header_retry_after(headers@, now)));
    }
    w
}


// ─── Laws of the retry policy ───────────────────────────────────────────────

/// Exponential backoff: below the cap on the exponent, and as long as the
/// product fits in a `u64`, each retry waits twice as long as the one before.
pub proof fn lemma_backoff_doubles(attempt: nat, min_wait_ms: nat)
    requires
        attempt < 10,
        min_wait_ms * two_pow(attempt + 1) <= u64::MAX,
    ensures
        backoff_ms(attempt + 1, min_wait_ms) == 2 * backoff_ms(attempt, min_wait_ms),
{
    let x = two_pow(attempt);
    assert(two_pow(attempt + 1) == 2 * x);
    assert(min_wait_ms * (2 * x) == 2 * (min_wait_ms * x)) by (nonlinear_arith);
}

/// From the tenth attempt on the backoff no longer grows: the exponent is
/// capped at 10.
pub proof fn lemma_backoff_capped(attempt: nat, min_wait_ms: nat)
    requires
        attempt >= 10,
    ensures
        backoff_ms(attempt, min_wait_ms) == backoff_ms(10, min_wait_ms),
        backoff_ms(attempt, min_wait_ms) <= min_wait_ms * 1024,
{
    reveal_with_fuel(two_pow, 11);
    assert(two_pow(10) == 1024);
}

/// Once the retry budget is spent there is no wait (no further attempt);
/// before that, a delay the server asked for wins over the backoff.
pub proof fn lemma_wait_follows_budget(attempt: nat, max_retry: nat, min_wait_ms: nat, retry_after: Option<nat>)
    ensures
        attempt >= max_retry ==> wait_ms(attempt, max_retry, min_wait_ms, retry_after) == 0,
        attempt < max_retry && retry_after is Some ==> wait_ms(attempt, max_retry, min_wait_ms, retry_after) == retry_after->0,
        attempt < max_retry && retry_after is None ==> wait_ms(attempt, max_retry, min_wait_ms, retry_after) == backoff_ms(attempt, min_wait_ms),
{
}

} // verus!
