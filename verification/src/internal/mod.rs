//! Shared building blocks: constants, text handling, ULIDs and retries.

pub mod ulid;
pub mod text;
pub mod constants;
pub mod headers;
pub mod retry;
