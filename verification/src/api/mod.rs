//! Request planning: configuration, the description of an API request, the
//! retry loop's decisions, and the classification of error responses.

pub mod api_client;
pub mod configuration;
pub mod executor;
