//! Values that every OpenFGA client agrees on.

use vstd::prelude::*;

verus! {

/// Current library version.
pub const SDK_VERSION: &'static str = "0.1.0";

/// Default `User-Agent` header sent with every request.
pub const USER_AGENT: &'static str = "openfga-sdk rust/0.1.0";

/// Same value as [`USER_AGENT`], under the name the configuration uses.
pub const DEFAULT_USER_AGENT: &'static str = "openfga-sdk rust/0.1.0";

/// Default maximum number of retries on 429 / 5xx responses.
pub const DEFAULT_MAX_RETRY: u32 = 3;

/// Default minimum wait between retries (milliseconds).
pub const DEFAULT_MIN_WAIT_MS: u64 = 100;

/// Maximum number of parallel requests issued by client-level batch methods.
pub const CLIENT_MAX_METHOD_PARALLEL_REQUESTS: usize = 10;

/// Default number of items per chunk in non-transaction write mode.
pub const CLIENT_BATCH_CHECK_DEFAULT_SIZE: usize = 50;

/// Default batch size for server-side BatchCheck splits.
pub const CLIENT_BATCH_CHECK_MAX_SIZE: usize = 50;

/// Seconds subtracted from a token's `expires_in` so that it is refreshed
/// before it actually expires.
pub const TOKEN_EXPIRY_JITTER_SECS: u64 = 300;

/// Largest `max_retry` that retry parameters accept.
pub const MAX_RETRY_LIMIT: u32 = 15;

} // verus!
