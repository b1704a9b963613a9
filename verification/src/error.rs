//! Error types of the client.
//!
//! Every API error carries structured context (store ID, endpoint, HTTP
//! status, request ID) so callers can act on errors without parsing strings.

use vstd::prelude::*;
use vstd::string::*;
use crate::internal::headers::{header_lookup, header_text, opt_str_view, ResponseHeaders};
use crate::internal::retry::{
    get_time_to_wait, header_retry_after, opt_nat, parse_retry_after_header, wait_after, wait_ms,
    RetryParams, RATE_LIMIT_RESET_HEADER,
};
use crate::internal::text::{parse_unsigned, parse_unsigned_decimal, signed_decimal, decimal_i64};

verus! {

#[verifier::external_type_specification]
#[verifier::external_body]
pub struct ExJsonError(serde_json::Error);

#[verifier::external_type_specification]
#[verifier::external_body]
pub struct ExUrlParseError(url::ParseError);

// ────────────────────────────────────────────────────────────────────────────
// Top-level error enum
// ────────────────────────────────────────────────────────────────────────────

/// Top-level error type.
#[derive(Debug)]
#[non_exhaustive]
pub enum OpenFgaError {
    /// Authentication / authorisation failure (401, 403).
    Authentication(FgaApiAuthenticationError),
    /// Request validation failure (400, 422).
    Validation(FgaApiValidationError),
    /// Resource not found (404).
    NotFound(FgaApiNotFoundError),
    /// Rate limit exceeded (429).
    RateLimitExceeded(FgaApiRateLimitExceededError),
    /// Internal server error (5xx).
    Internal(FgaApiInternalError),
    /// Generic / unclassified API error.
    Api(FgaApiError),
    /// Invalid parameter (e.g. malformed ULID).
    InvalidParam {
        /// Parameter name.
        param: String,
        /// Description of what is wrong.
        description: String,
    },
    /// Configuration is invalid.
    Configuration(String),
    /// Underlying HTTP transport error.
    Http(String),
    /// JSON serialisation / deserialisation error.
    Json(serde_json::Error),
    /// URL parsing error.
    Url(url::ParseError),
    /// Wrapped request error (display only).
    Request(String),
}

/// Whether an error may be retried: rate limiting, server errors other than
/// 501, and transport failures.
pub open spec fn error_is_retryable(e: OpenFgaError) -> bool {
    match e {
        OpenFgaError::RateLimitExceeded(_) => true,
        OpenFgaError::Internal(i) => i.context.response_status_code != 501,
        OpenFgaError::Http(_) => true,
        _ => false,
    }
}

/// How long to wait (milliseconds) after failed attempt `attempt` with error
/// `e`, where the server's `Retry-After` is read at instant `now`.
pub open spec fn error_wait_ms(e: OpenFgaError, attempt: nat, p: RetryParams, now: (i64, u32)) -> nat {
    match e {
        OpenFgaError::RateLimitExceeded(r) =>
            wait_ms(attempt, p.max_retry as nat, p.min_wait_ms as nat,
                header_retry_after(r.context.response_headers@, now)),
        OpenFgaError::Internal(i) =>
            if i.context.response_status_code == 501 {
                0
            } else {
                wait_ms(attempt, p.max_retry as nat, p.min_wait_ms as nat,
                    header_retry_after(i.context.response_headers@, now))
            },
        OpenFgaError::Http(_) => wait_ms(attempt, p.max_retry as nat, p.min_wait_ms as nat, None),
        _ => 0,
    }
}

impl OpenFgaError {
    /// Returns `true` if this error can be retried.
    pub fn should_retry(&self) -> (r: bool)
        ensures
            r == error_is_retryable(*self),
    {
        match self {
            OpenFgaError::RateLimitExceeded(e) => e.should_retry(),
            OpenFgaError::Internal(e) => e.should_retry(),
            OpenFgaError::Http(_) => true,
            _ => false,
        }
    }

    /// Returns how long to wait (milliseconds) before retrying, or zero if the
    /// error is not retryable or the retry budget is exhausted.
    pub fn get_time_to_wait(&self, attempt: u32, retry_params: &RetryParams) -> (w: u128)
        ensures
            exists|now: (i64, u32)| w == #[trigger] error_wait_ms(*self, attempt as nat, *retry_params, now),
    {
        match self {
            OpenFgaError::RateLimitExceeded(e) => {
                let w = e.get_time_to_wait(attempt, retry_params);
                proof {
                    let now = choose|now: (i64, u32)| w == #[trigger] wait_ms(attempt as nat,
                        retry_params.max_retry as nat, retry_params.min_wait_ms as nat,
                        header_retry_after(e.context.response_headers@, now));
                    assert(w == error_wait_ms(*self, attempt as nat, *retry_params, now));
                }
                w
            },
            OpenFgaError::Internal(e) => {
                let w = e.get_time_to_wait(attempt, retry_params);
                proof {
                    let now = choose|now: (i64, u32)| w == #[trigger] internal_wait_ms(*e, attempt as nat, *retry_params, now);
                    assert(w == error_wait_ms(*self, attempt as nat, *retry_params, now));
                }
                w
            },
            OpenFgaError::Http(_) => {
                let w = wait_after(attempt, retry_params.max_retry, retry_params.min_wait_ms, None);
                assert(w == error_wait_ms(*self, attempt as nat, *retry_params, (0i64, 0u32)));
                w
            },
            _ => {
                assert(0 == error_wait_ms(*self, attempt as nat, *retry_params, (0i64, 0u32)));
                0
            },
        }
    }
}

// ────────────────────────────────────────────────────────────────────────────
// Shared context carried by all API errors
// ────────────────────────────────────────────────────────────────────────────

/// Context attached to every API-level error.
#[derive(Debug, Clone)]
pub struct ApiErrorContext {
    /// Store ID at the time of the request.
    pub store_id: String,
    /// Human-readable API operation name, e.g. `"Check"`.
    pub endpoint_category: String,
    /// HTTP method (GET, POST, …).
    pub request_method: String,
    /// Host portion of the request URL.
    pub request_host: String,
    /// HTTP status code returned by the server.
    pub response_status_code: u16,
    /// Full response headers.
    pub response_headers: ResponseHeaders,
    /// `Fga-Request-Id` or `X-Request-Id` from the response headers.
    pub request_id: String,
    /// Machine-readable error code string from the response body.
    pub response_code: String,
    /// Raw response body bytes.
    pub body: Vec<u8>,
}

impl Default for ApiErrorContext {
    fn default() -> (c: Self)
        ensures
            c.store_id@ == Seq::<char>::empty(),
            c.endpoint_category@ == Seq::<char>::empty(),
            c.request_method@ == Seq::<char>::empty(),
            c.request_host@ == Seq::<char>::empty(),
            c.response_status_code == 0,
            c.response_headers@ == Seq::<(Seq<char>, Option<Seq<char>>)>::empty(),
            c.request_id@ == Seq::<char>::empty(),
            c.response_code@ == Seq::<char>::empty(),
            c.body@ == Seq::<u8>::empty(),
    {
        ApiErrorContext {
            store_id: String::new(),
            endpoint_category: String::new(),
            request_method: String::new(),
            request_host: String::new(),
            response_status_code: 0,
            response_headers: ResponseHeaders::new(),
            request_id: String::new(),
            response_code: String::new(),
            body: Vec::new(),
        }
    }
}

/// The request id of a response: the `Fga-Request-Id` header when the
/// response has one (empty if its value is not text), else the
/// `X-Request-Id` header's text, else empty.
pub open spec fn request_id_of(h: Seq<(Seq<char>, Option<Seq<char>>)>) -> Seq<char> {
    let picked = match header_lookup(h, "Fga-Request-Id"@) {
        Some(v) => Some(v),
        None => header_lookup(h, "X-Request-Id"@),
    };
    match picked {
        Some(Some(t)) => t,
        _ => Seq::<char>::empty(),
    }
}

impl ApiErrorContext {
    /// Builds the context of an error response.
    pub fn from_response(
        store_id: &str,
        endpoint_category: &str,
        request_method: &str,
        request_host: &str,
        status: u16,
        headers: &ResponseHeaders,
        body: Vec<u8>,
    ) -> (c: Self)
        ensures
            c.store_id@ == store_id@,
            c.endpoint_category@ == endpoint_category@,
            c.request_method@ == request_method@,
            c.request_host@ == request_host@,
            c.response_status_code == status,
            c.response_headers@ == headers@,
            c.request_id@ == request_id_of(headers@),
            c.response_code@ == Seq::<char>::empty(),
            c.body@ == body@,
    {
        proof {
            reveal_strlit("Fga-Request-Id");
            reveal_strlit("X-Request-Id");
        }
        let picked = match headers.get("Fga-Request-Id") {
            Some(v) => Some(v),
            None => headers.get("X-Request-Id"),
        };
        let request_id = match picked {
            Some(Some(t)) => t,
            _ => String::new(),
        };
        ApiErrorContext {
            store_id: String::from_str(store_id),
            endpoint_category: String::from_str(endpoint_category),
            request_method: String::from_str(request_method),
            request_host: String::from_str(request_host),
            response_status_code: status,
            response_headers: headers.clone_headers(),
            request_id,
            response_code: String::new(),
            body,
        }
    }
}

// ────────────────────────────────────────────────────────────────────────────
// Messages
// ────────────────────────────────────────────────────────────────────────────

/// `"{method} auth error for {endpoint} {method}"`.
pub open spec fn auth_message(method: Seq<char>, endpoint: Seq<char>) -> Seq<char> {
    method + " auth error for "@ + endpoint + " "@ + method
}

/// `"{method} validation error for {endpoint} {method}"`.
pub open spec fn validation_message(method: Seq<char>, endpoint: Seq<char>) -> Seq<char> {
    method + " validation error for "@ + endpoint + " "@ + method
}

/// `"{method} not found error for {endpoint}"`.
pub open spec fn not_found_message(method: Seq<char>, endpoint: Seq<char>) -> Seq<char> {
    method + " not found error for "@ + endpoint
}

/// `"{method} rate limit error for {endpoint}"`.
pub open spec fn rate_limit_message(method: Seq<char>, endpoint: Seq<char>) -> Seq<char> {
    method + " rate limit error for "@ + endpoint
}

/// `"{method} internal error for {endpoint}"`.
pub open spec fn internal_message(method: Seq<char>, endpoint: Seq<char>) -> Seq<char> {
    method + " internal error for "@ + endpoint
}

/// `"{method} error for {endpoint} with status {status}"`.
pub open spec fn api_message(method: Seq<char>, endpoint: Seq<char>, status: u16) -> Seq<char> {
    method + " error for "@ + endpoint + " with status "@ + signed_decimal(status as int)
}

fn join3(a: &str, b: &str, c: &str) -> (s: String)
    ensures
        s@ == a@ + b@ + c@,
{
    let mut s = String::from_str(a);
    s.append(b);
    s.append(c);
    s
}

// ────────────────────────────────────────────────────────────────────────────
// FgaApiAuthenticationError (401 / 403)
// ────────────────────────────────────────────────────────────────────────────

/// Returned when the API responds with 401 or 403.
#[derive(Debug, Clone)]
pub struct FgaApiAuthenticationError {
    /// Human-readable message.
    pub message: String,
    /// Structured request/response context.
    pub context: ApiErrorContext,
}

impl FgaApiAuthenticationError {
    /// Builds the error from its context.
    pub fn new(ctx: ApiErrorContext) -> (e: Self)
        ensures
            e.message@ == auth_message(ctx.request_method@, ctx.endpoint_category@),
            e.context == ctx,
    {
        let mut message = join3(ctx.request_method.as_str(), " auth error for ", ctx.endpoint_category.as_str());
        message.append(" ");
        message.append(ctx.request_method.as_str());
        FgaApiAuthenticationError { message, context: ctx }
    }
}

// ────────────────────────────────────────────────────────────────────────────
// FgaApiValidationError (400 / 422)
// ────────────────────────────────────────────────────────────────────────────

/// The string under key `key` of the JSON object that `serde_json` reads
/// from a response body, if the body is JSON with such a string.
pub uninterp spec fn json_string_field(body: Seq<u8>, key: Seq<char>) -> Option<Seq<char>>;

/// Calls `serde_json::from_slice::<serde_json::Value>` on a response body,
/// indexes the value with `key` and takes the string there, if there is
/// one. The contract names the result and says nothing more of it.
#[verifier::external_body]
fn read_json_string_field(body: &[u8], key: &str) -> (r: Option<String>)
    ensures
        opt_str_view(r) == json_string_field(body@, key@),
{
    match serde_json::from_slice::<serde_json::Value>(body) {
        Ok(v) => v[key].as_str().map(str::to_string),
        Err(_) => None,
    }
}

/// The key under which an error body carries its response code.
pub const RESPONSE_CODE_KEY: &'static str = "code";

/// The response code that an error body carries: the string under `code`.
pub open spec fn json_code_field(body: Seq<u8>) -> Option<Seq<char>> {
    json_string_field(body, RESPONSE_CODE_KEY@)
}

/// Returned when the API responds with 400 or 422.
#[derive(Debug, Clone)]
pub struct FgaApiValidationError {
    /// Human-readable message.
    pub message: String,
    /// Structured request/response context.
    pub context: ApiErrorContext,
}

impl FgaApiValidationError {
    /// Builds the error from its context, taking the response code from the
    /// `code` field of a JSON body.
    pub fn new(ctx: ApiErrorContext) -> (e: Self)
        ensures
            validation_error_from(ctx, json_code_field(ctx.body@), e),
    {
        let code = read_json_string_field(ctx.body.as_slice(), RESPONSE_CODE_KEY);
        Self::with_code(ctx, code)
    }

    /// Builds the error from its context and the `code` field read from its
    /// body, if there was one.
    pub fn with_code(ctx: ApiErrorContext, code: Option<String>) -> (e: Self)
        ensures
            validation_error_from(ctx, opt_str_view(code), e),
    {
        let mut ctx = ctx;
        let mut message = join3(ctx.request_method.as_str(), " validation error for ", ctx.endpoint_category.as_str());
        message.append(" ");
        message.append(ctx.request_method.as_str());
        match code {
            Some(c) => {
                ctx.response_code = c;
            },
            None => {},
        }
        FgaApiValidationError { message, context: ctx }
    }
}

/// The validation error built from context `ctx` when the body's `code`
/// field reads `code`: the context, with that code as the response code when
/// there is one.
pub open spec fn validation_error_from(ctx: ApiErrorContext, code: Option<Seq<char>>, e: FgaApiValidationError) -> bool {
    &&& e.message@ == validation_message(ctx.request_method@, ctx.endpoint_category@)
    &&& e.context.response_code@ == (match code {
        Some(c) => c,
        None => ctx.response_code@,
    })
    &&& e.context.store_id == ctx.store_id
    &&& e.context.endpoint_category == ctx.endpoint_category
    &&& e.context.request_method == ctx.request_method
    &&& e.context.request_host == ctx.request_host
    &&& e.context.response_status_code == ctx.response_status_code
    &&& e.context.response_headers == ctx.response_headers
    &&& e.context.request_id == ctx.request_id
    &&& e.context.body == ctx.body
}

// ────────────────────────────────────────────────────────────────────────────
// FgaApiNotFoundError (404)
// ────────────────────────────────────────────────────────────────────────────

/// Returned when the API responds with 404.
#[derive(Debug, Clone)]
pub struct FgaApiNotFoundError {
    /// Human-readable message.
    pub message: String,
    /// Structured request/response context.
    pub context: ApiErrorContext,
}

impl FgaApiNotFoundError {
    /// Builds the error from its context.
    pub fn new(ctx: ApiErrorContext) -> (e: Self)
        ensures
            e.message@ == not_found_message(ctx.request_method@, ctx.endpoint_category@),
            e.context == ctx,
    {
        let message = join3(ctx.request_method.as_str(), " not found error for ", ctx.endpoint_category.as_str());
        FgaApiNotFoundError { message, context: ctx }
    }
}

// ────────────────────────────────────────────────────────────────────────────
// FgaApiRateLimitExceededError (429)
// ────────────────────────────────────────────────────────────────────────────

/// Returned when the API responds with 429 (rate limit exceeded).
#[derive(Debug, Clone)]
pub struct FgaApiRateLimitExceededError {
    /// Human-readable message.
    pub message: String,
    /// Structured request/response context.
    pub context: ApiErrorContext,
    /// Milliseconds to wait before retrying (from `Retry-After`).
    pub retry_after_ms: Option<u64>,
    /// Epoch timestamp when rate limit resets (from `X-RateLimit-Reset`).
    pub rate_limit_reset_epoch: Option<String>,
    /// The rate limit value (from `X-RateLimit-Limit`).
    pub rate_limit: Option<u32>,
    /// The rate unit (from `X-RateLimit-Unit`).
    pub rate_unit: Option<String>,
}

/// A delay in milliseconds as the error records it: the low 64 bits.
pub open spec fn recorded_delay(d: Option<nat>) -> Option<u64> {
    match d {
        Some(ms) => Some(ms as u64),
        None => None,
    }
}

/// The `X-RateLimit-Limit` value: the header's text read as a `u32`.
pub open spec fn rate_limit_of(h: Seq<(Seq<char>, Option<Seq<char>>)>) -> Option<u32> {
    match header_text(h, "X-RateLimit-Limit"@) {
        Some(t) => match parse_unsigned(t, u32::MAX as nat) {
            Some(v) => Some(v as u32),
            None => None,
        },
        None => None,
    }
}

fn recorded(d: Option<u128>) -> (r: Option<u64>)
    ensures
        r == recorded_delay(match d { Some(x) => Some(x as nat), None => None }),
{
    match d {
        Some(x) => Some(x as u64),
        None => None,
    }
}

impl FgaApiRateLimitExceededError {
    /// Builds the error from its context, reading the rate-limit headers.
    pub fn new(ctx: ApiErrorContext) -> (e: Self)
        ensures
            e.message@ == rate_limit_message(ctx.request_method@, ctx.endpoint_category@),
            e.context == ctx,
            exists|now: (i64, u32)| e.retry_after_ms
                == #[trigger] recorded_delay(header_retry_after(ctx.response_headers@, now)),
            opt_str_view(e.rate_limit_reset_epoch) == header_text(ctx.response_headers@, "X-RateLimit-Reset"@),
            e.rate_limit == rate_limit_of(ctx.response_headers@),
            opt_str_view(e.rate_unit) == header_text(ctx.response_headers@, "X-RateLimit-Unit"@),
    {
        let message = join3(ctx.request_method.as_str(), " rate limit error for ", ctx.endpoint_category.as_str());
        let delay = parse_retry_after_header(&ctx.response_headers);
        let retry_after_ms = recorded(delay);
        proof {
            let now = choose|now: (i64, u32)| opt_nat(delay) == #[trigger] header_retry_after(ctx.response_headers@, now);
            assert(retry_after_ms == recorded_delay(header_retry_after(ctx.response_headers@, now)));
            reveal_strlit("X-RateLimit-Reset");
            reveal_strlit("X-RateLimit-Limit");
            reveal_strlit("X-RateLimit-Unit");
        }
        let rate_limit_reset_epoch = ctx.response_headers.get_text(RATE_LIMIT_RESET_HEADER);
        let rate_limit = match ctx.response_headers.get_text("X-RateLimit-Limit") {
            Some(t) => match parse_unsigned_decimal(t.as_str(), 0xFFFF_FFFF) {
                Some(v) => Some(v as u32),
                None => None,
            },
            None => None,
        };
        let rate_unit = ctx.response_headers.get_text("X-RateLimit-Unit");
        FgaApiRateLimitExceededError {
            message,
            context: ctx,
            retry_after_ms,
            rate_limit_reset_epoch,
            rate_limit,
            rate_unit,
        }
    }

    /// Always returns `true`: 429 errors are always retryable.
    pub fn should_retry(&self) -> (r: bool)
        ensures
            r,
    {
        true
    }

    /// Returns how long to wait (milliseconds) before retrying.
    pub fn get_time_to_wait(&self, attempt: u32, retry_params: &RetryParams) -> (w: u128)
        ensures
            exists|now: (i64, u32)| w == #[trigger] wait_ms(attempt as nat, retry_params.max_retry as nat,
                retry_params.min_wait_ms as nat, header_retry_after(self.context.response_headers@, now)),
    {
        get_time_to_wait(
            attempt,
            retry_params.max_retry,
            retry_params.min_wait_ms,
            &self.context.response_headers,
            self.context.endpoint_category.as_str(),
        )
    }
}

// ────────────────────────────────────────────────────────────────────────────
// FgaApiInternalError (5xx)
// ────────────────────────────────────────────────────────────────────────────

/// Returned when the API responds with a 5xx status code.
#[derive(Debug, Clone)]
pub struct FgaApiInternalError {
    /// Human-readable message.
    pub message: String,
    /// Structured request/response context.
    pub context: ApiErrorContext,
    /// Milliseconds to wait before retrying (from `Retry-After`).
    pub retry_after_ms: Option<u64>,
}

/// How long to wait after a server error: nothing for 501, the usual wait
/// otherwise.
pub open spec fn internal_wait_ms(e: FgaApiInternalError, attempt: nat, p: RetryParams, now: (i64, u32)) -> nat {
    if e.context.response_status_code == 501 {
        0
    } else {
        wait_ms(attempt, p.max_retry as nat, p.min_wait_ms as nat,
            header_retry_after(e.context.response_headers@, now))
    }
}

impl FgaApiInternalError {
    /// Builds the error from its context, reading `Retry-After`.
    pub fn new(ctx: ApiErrorContext) -> (e: Self)
        ensures
            e.message@ == internal_message(ctx.request_method@, ctx.endpoint_category@),
            e.context == ctx,
            exists|now: (i64, u32)| e.retry_after_ms
                == #[trigger] recorded_delay(header_retry_after(ctx.response_headers@, now)),
    {
        let message = join3(ctx.request_method.as_str(), " internal error for ", ctx.endpoint_category.as_str());
        let delay = parse_retry_after_header(&ctx.response_headers);
        let retry_after_ms = recorded(delay);
        proof {
            let now = choose|now: (i64, u32)| opt_nat(delay) == #[trigger] header_retry_after(ctx.response_headers@, now);
            assert(retry_after_ms == recorded_delay(header_retry_after(ctx.response_headers@, now)));
        }
        FgaApiInternalError { message, context: ctx, retry_after_ms }
    }

    /// Returns `false` for 501 Not Implemented (cannot be retried).
    pub fn should_retry(&self) -> (r: bool)
        ensures
            r == (self.context.response_status_code != 501),
    {
        self.context.response_status_code != 501
    }

    /// Returns how long to wait (milliseconds) before retrying.
    pub fn get_time_to_wait(&self, attempt: u32, retry_params: &RetryParams) -> (w: u128)
        ensures
            exists|now: (i64, u32)| w == #[trigger] internal_wait_ms(*self, attempt as nat, *retry_params, now),
    {
        if !self.should_retry() {
            assert(0 == internal_wait_ms(*self, attempt as nat, *retry_params, (0i64, 0u32)));
            return 0;
        }
        let w = get_time_to_wait(
            attempt,
            retry_params.max_retry,
            retry_params.min_wait_ms,
            &self.context.response_headers,
            self.context.endpoint_category.as_str(),
        );
        proof {
            let now = choose|now: (i64, u32)| w == #[trigger] wait_ms(attempt as nat, retry_params.max_retry as nat,
                retry_params.min_wait_ms as nat, header_retry_after(self.context.response_headers@, now));
            assert(w == internal_wait_ms(*self, attempt as nat, *retry_params, now));
        }
        w
    }
}

// ────────────────────────────────────────────────────────────────────────────
// FgaApiError (generic / unclassified)
// ────────────────────────────────────────────────────────────────────────────

/// Generic API error for status codes not handled by the specific variants.
#[derive(Debug, Clone)]
pub struct FgaApiError {
    /// Human-readable message.
    pub message: String,
    /// Structured request/response context.
    pub context: ApiErrorContext,
}

impl FgaApiError {
    /// Builds the error from its context.
    pub fn new(ctx: ApiErrorContext) -> (e: Self)
        ensures
            e.message@ == api_message(ctx.request_method@, ctx.endpoint_category@, ctx.response_status_code),
            e.context == ctx,
    {
        let mut message = join3(ctx.request_method.as_str(), " error for ", ctx.endpoint_category.as_str());
        message.append(" with status ");
        let status = decimal_i64(ctx.response_status_code as i64);
        message.append(status.as_str());
        FgaApiError { message, context: ctx }
    }
}


/// An error that is not retried never asks for a wait, whatever the attempt,
/// the retry parameters and the time.
pub proof fn lemma_unretryable_no_wait(e: OpenFgaError, attempt: nat, p: RetryParams, now: (i64, u32))
    requires
        !error_is_retryable(e),
    ensures
        error_wait_ms(e, attempt, p, now) == 0,
{
}

} // verus!
