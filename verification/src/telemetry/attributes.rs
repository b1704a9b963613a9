//! Attribute keys for metric attributes.

use vstd::prelude::*;

verus! {

/// `http.host`.
pub const HTTP_HOST: &'static str = "http.host";
/// `http.request.method`.
pub const HTTP_REQUEST_METHOD: &'static str = "http.request.method";
/// `http.response.status_code`.
pub const HTTP_RESPONSE_STATUS_CODE: &'static str = "http.response.status_code";
/// `url.full` (high-cardinality).
pub const URL_FULL: &'static str = "url.full";
/// `url.scheme`.
pub const URL_SCHEME: &'static str = "url.scheme";
/// `user_agent.original`.
pub const USER_AGENT_ORIGINAL: &'static str = "user_agent.original";
/// `fga_client.request.client_id`.
pub const FGA_CLIENT_REQUEST_CLIENT_ID: &'static str = "fga_client.request.client_id";
/// `fga_client.request.method`.
pub const FGA_CLIENT_REQUEST_METHOD: &'static str = "fga_client.request.method";
/// `fga_client.request.model_id`.
pub const FGA_CLIENT_REQUEST_MODEL_ID: &'static str = "fga_client.request.model_id";
/// `fga_client.request.store_id`.
pub const FGA_CLIENT_REQUEST_STORE_ID: &'static str = "fga_client.request.store_id";
/// `fga_client.response.model_id`.
pub const FGA_CLIENT_RESPONSE_MODEL_ID: &'static str = "fga_client.response.model_id";
/// `fga_client.user` (high-cardinality, disabled by default).
pub const FGA_CLIENT_USER: &'static str = "fga_client.user";

} // verus!
