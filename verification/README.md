# openfga_sdk

A client library for [OpenFGA](https://openfga.dev), whose decision-making
core is verified with Verus.

## Layout

- `src/` — the verified library:
  - `internal/` — ULID checks, text handling (decimal numbers, trimming,
    case-insensitive names), response headers, and the retry policy
    (exponential backoff, `Retry-After`).
  - `error.rs` — the error types, which errors are retried and how long to
    wait before retrying.
  - `api/` — the API configuration and its validation, the description of a
    request (path templates, query, body), the retry decision after a failed
    attempt, and the classification of error responses by status.
  - `credentials.rs`, `oauth2.rs` — credential validation, the static
    `Authorization` header, the token request form and the token cache.
  - `client/` — store and model selection, the request behind every client
    operation, chunked writes and client-side batch checks.
  - `streaming.rs` — framing of NDJSON response bodies.
  - `models/` — the API's data types.
- `app/` — the asynchronous client around the library: HTTP transport with
  `reqwest`, the retry loop, JSON (de)serialisation with `serde`, the NDJSON
  stream, and the OAuth2 token fetch.
- `tests/` — tests of the library.

Laws of the library (for instance that a request is sent at most
`max_retry + 1` times, that chunking loses and reorders no tuple, or that a
cached token is never used after it expires) are stated as public proof
functions next to the code they are about.
