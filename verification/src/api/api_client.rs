//! Classification of HTTP error responses.

use vstd::prelude::*;
use crate::error::{
    error_is_retryable, ApiErrorContext, FgaApiAuthenticationError, FgaApiError, FgaApiInternalError,
    FgaApiNotFoundError, FgaApiRateLimitExceededError, FgaApiValidationError, OpenFgaError,
};
use crate::api::configuration::url_parse_error;
use crate::api::executor::pairs_view;
use crate::internal::headers::ResponseHeaders;

verus! {

/// The variant an error response is classified as, by its status code:
/// 400/422 validation, 401/403 authentication, 404 not found, 429 rate
/// limit, 500 and above internal, anything else a generic API error.
pub open spec fn classified_as(status: u16, e: OpenFgaError) -> bool {
    if status == 400 || status == 422 {
        e is Validation
    } else if status == 401 || status == 403 {
        e is Authentication
    } else if status == 404 {
        e is NotFound
    } else if status == 429 {
        e is RateLimitExceeded
    } else if status >= 500 {
        e is Internal
    } else {
        e is Api
    }
}

/// The context that an error carries, for the API error variants.
pub open spec fn api_context(e: OpenFgaError) -> Option<ApiErrorContext> {
    match e {
        OpenFgaError::Authentication(x) => Some(x.context),
        OpenFgaError::Validation(x) => Some(x.context),
        OpenFgaError::NotFound(x) => Some(x.context),
        OpenFgaError::RateLimitExceeded(x) => Some(x.context),
        OpenFgaError::Internal(x) => Some(x.context),
        OpenFgaError::Api(x) => Some(x.context),
        _ => None,
    }
}

/// Converts an HTTP error response (its status, headers and body) into a
/// typed error for operation `endpoint` on store `store_id`, sent with HTTP
/// method `method` to host `host`.
pub fn handle_error_response(
    status: u16,
    headers: &ResponseHeaders,
    body: Vec<u8>,
    store_id: &str,
    endpoint: &str,
    method: &str,
    host: &str,
) -> (e: OpenFgaError)
    ensures
        classified_as(status, e),
        api_context(e) matches Some(ctx) && ctx.store_id@ == store_id@
            && ctx.endpoint_category@ == endpoint@
            && ctx.request_method@ == method@
            && ctx.request_host@ == host@
            && ctx.response_status_code == status
            && ctx.response_headers@ == headers@
            && ctx.body@ == body@,
{
    let ctx = ApiErrorContext::from_response(store_id, endpoint, method, host, status, headers, body);
    if status == 400 || status == 422 {
        OpenFgaError::Validation(FgaApiValidationError::new(ctx))
    } else if status == 401 || status == 403 {
        OpenFgaError::Authentication(FgaApiAuthenticationError::new(ctx))
    } else if status == 404 {
        OpenFgaError::NotFound(FgaApiNotFoundError::new(ctx))
    } else if status == 429 {
        OpenFgaError::RateLimitExceeded(FgaApiRateLimitExceededError::new(ctx))
    } else if status >= 500 {
        OpenFgaError::Internal(FgaApiInternalError::new(ctx))
    } else {
        OpenFgaError::Api(FgaApiError::new(ctx))
    }
}


/// Which error responses are retried: exactly those with status 429, and
/// those with a status of 500 or above other than 501 (not implemented).
/// Client errors (4xx other than 429) and unexpected statuses are not.
pub proof fn lemma_retried_statuses(status: u16, e: OpenFgaError)
    requires
        classified_as(status, e),
        api_context(e) matches Some(ctx) && ctx.response_status_code == status,
    ensures
        error_is_retryable(e) <==> (status == 429 || (status >= 500 && status != 501)),
{
}


/// The URL that `url` makes of base URL `base` and request path `path`:
/// `Url::parse(base)`, then `join(path)`, serialized; nothing when either
/// call fails.
pub uninterp spec fn url_joined(base: Seq<char>, path: Seq<char>) -> Option<Seq<char>>;

/// The same URL with query pairs appended by the URL's `query_pairs_mut`
/// serializer, in order; nothing when the base or the join fails.
pub uninterp spec fn url_joined_with_query(base: Seq<char>, path: Seq<char>, query: Seq<(Seq<char>, Seq<char>)>) -> Option<Seq<char>>;

/// Calls `url::Url::parse` on `base`, joins `path` to the parsed URL with
/// `Url::join`, and serializes the result. The contract names the result;
/// beyond the name it states only that a base that does not parse is
/// refused.
#[verifier::external_body]
fn join_url(base: &str, path: &str) -> (r: Result<String, url::ParseError>)
    ensures
        url_joined(base@, path@) == (match r {
            Ok(u) => Some(u@),
            Err(_) => None::<Seq<char>>,
        }),
        url_parse_error(base@) is Some ==> r is Err,
{
    match url::Url::parse(base) {
        Ok(b) => match b.join(path) {
            Ok(u) => Ok(u.to_string()),
            Err(e) => Err(e),
        },
        Err(e) => Err(e),
    }
}

/// Calls `url::Url::parse` on `base` and `Url::join` with `path`, appends the
/// query pairs with `query_pairs_mut().extend_pairs`, and serializes the
/// result. The contract names the result; beyond the name it states only
/// that a base that does not parse is refused.
#[verifier::external_body]
fn join_url_with_query(base: &str, path: &str, query: &Vec<(String, String)>) -> (r: Result<String, url::ParseError>)
    ensures
        url_joined_with_query(base@, path@, pairs_view(query@)) == (match r {
            Ok(u) => Some(u@),
            Err(_) => None::<Seq<char>>,
        }),
        url_parse_error(base@) is Some ==> r is Err,
{
    match url::Url::parse(base) {
        Ok(b) => match b.join(path) {
            Ok(mut u) => {
                u.query_pairs_mut().extend_pairs(query.iter().map(|p| (p.0.as_str(), p.1.as_str())));
                Ok(u.to_string())
            },
            Err(e) => Err(e),
        },
        Err(e) => Err(e),
    }
}

/// The URL a request is sent to, or nothing when `url` refuses it: the API
/// URL joined with the request path, with the query parameters appended in
/// order when there are some.
pub open spec fn request_url_of(api_url: Seq<char>, path: Seq<char>, query: Seq<(Seq<char>, Seq<char>)>) -> Option<Seq<char>> {
    if query.len() == 0 {
        url_joined(api_url, path)
    } else {
        url_joined_with_query(api_url, path, query)
    }
}

/// The URL a request is sent to: the API URL joined with the request path,
/// with the query parameters appended in order when there are some. Refused,
/// as [`OpenFgaError::Url`], when the API URL or the join does not parse.
pub fn request_url(api_url: &str, path: &str, query: &Vec<(String, String)>) -> (r: Result<String, OpenFgaError>)
    ensures
        match request_url_of(api_url@, path@, pairs_view(query@)) {
            Some(u) => r matches Ok(s) && s@ == u,
            None => r matches Err(OpenFgaError::Url(_)),
        },
        url_parse_error(api_url@) is Some ==> r matches Err(OpenFgaError::Url(_)),
{
    let joined = if query.len() == 0 {
        join_url(api_url, path)
    } else {
        join_url_with_query(api_url, path, query)
    };
    match joined {
        Ok(u) => Ok(u),
        Err(e) => Err(OpenFgaError::Url(e)),
    }
}

} // verus!
