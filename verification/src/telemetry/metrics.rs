//! Metric names.

use vstd::prelude::*;

verus! {

/// Total duration of a client call.
pub const REQUEST_DURATION: &'static str = "fga_client.request.duration";
/// Server-side query duration (from the response header).
pub const QUERY_DURATION: &'static str = "fga_client.query.duration";
/// Number of requests.
pub const REQUEST_COUNT: &'static str = "fga_client.request.count";
/// Token requests made for client credentials.
pub const CREDENTIALS_REQUEST: &'static str = "fga_client.credentials.request";
/// HTTP round-trip duration.
pub const HTTP_REQUEST_DURATION: &'static str = "http.client.request.duration";

} // verus!
