use openfga_sdk::api::api_client::handle_error_response;
use openfga_sdk::api::executor::{decide_after_failure, RetryDecision};
use openfga_sdk::error::{
    ApiErrorContext, FgaApiError, FgaApiInternalError, FgaApiNotFoundError,
    FgaApiRateLimitExceededError, FgaApiValidationError, OpenFgaError,
};
use openfga_sdk::internal::headers::ResponseHeaders;
use openfga_sdk::internal::retry::RetryParams;

fn headers(pairs: &[(&str, &str)]) -> ResponseHeaders {
    let mut h = ResponseHeaders::new();
    for (k, v) in pairs {
        h.append(k.to_string(), Some(v.to_string()));
    }
    h
}

fn classify(status: u16) -> OpenFgaError {
    handle_error_response(status, &ResponseHeaders::new(), Vec::new(), "01GXSA8YR785C4FYS3C0RTG7B1", "Check", "POST", "fga.example")
}

#[test]
fn check_400_classified_as_validation() {
    let body = br#"{"code":"validation_error","message":"tuple_key.user is required"}"#.to_vec();
    let e = handle_error_response(400, &ResponseHeaders::new(), body, "01GXSA8YR785C4FYS3C0RTG7B1", "Check", "POST", "fga.example");
    match e {
        OpenFgaError::Validation(v) => {
            assert_eq!(v.context.response_code, "validation_error");
            assert_eq!(v.context.response_status_code, 400);
            assert_eq!(v.context.store_id, "01GXSA8YR785C4FYS3C0RTG7B1");
            assert_eq!(v.context.endpoint_category, "Check");
            assert_eq!(v.message, "POST validation error for Check POST");
            assert_eq!(v.context.request_method, "POST");
            assert_eq!(v.context.request_host, "fga.example");
        }
        other => panic!("unexpected {other:?}"),
    }
}

#[test]
fn statuses_map_to_variants() {
    assert!(matches!(classify(422), OpenFgaError::Validation(_)));
    assert!(matches!(classify(401), OpenFgaError::Authentication(_)));
    assert!(matches!(classify(403), OpenFgaError::Authentication(_)));
    assert!(matches!(classify(404), OpenFgaError::NotFound(_)));
    assert!(matches!(classify(429), OpenFgaError::RateLimitExceeded(_)));
    assert!(matches!(classify(500), OpenFgaError::Internal(_)));
    assert!(matches!(classify(503), OpenFgaError::Internal(_)));
    assert!(matches!(classify(418), OpenFgaError::Api(_)));
    assert!(matches!(classify(302), OpenFgaError::Api(_)));
}

#[test]
fn retried_statuses() {
    for status in [429u16, 500, 502, 503, 504, 599] {
        assert!(classify(status).should_retry(), "{status} should be retried");
    }
    for status in [400u16, 401, 403, 404, 409, 422, 501, 302] {
        assert!(!classify(status).should_retry(), "{status} should not be retried");
    }
}

#[test]
fn request_id_taken_from_headers() {
    let h = headers(&[("x-request-id", "abc"), ("fga-request-id", "xyz")]);
    let ctx = ApiErrorContext::from_response("s", "Read", "POST", "host", 404, &h, Vec::new());
    assert_eq!(ctx.request_id, "xyz");
    let h = headers(&[("X-Request-Id", "abc")]);
    let ctx = ApiErrorContext::from_response("s", "Read", "POST", "host", 404, &h, Vec::new());
    assert_eq!(ctx.request_id, "abc");
    let ctx = ApiErrorContext::from_response("s", "Read", "POST", "host", 404, &ResponseHeaders::new(), Vec::new());
    assert_eq!(ctx.request_id, "");
    assert_eq!(ctx.request_method, "POST");
    assert_eq!(ctx.request_host, "host");
}

#[test]
fn error_messages() {
    let ctx = ApiErrorContext {
        request_method: "GET".to_string(),
        endpoint_category: "ReadChanges".to_string(),
        response_status_code: 418,
        ..Default::default()
    };
    assert_eq!(FgaApiError::new(ctx.clone()).message, "GET error for ReadChanges with status 418");
    assert_eq!(FgaApiNotFoundError::new(ctx.clone()).message, "GET not found error for ReadChanges");
    assert_eq!(FgaApiInternalError::new(ctx.clone()).message, "GET internal error for ReadChanges");
    assert_eq!(FgaApiRateLimitExceededError::new(ctx).message, "GET rate limit error for ReadChanges");
}

#[test]
fn validation_code_from_body() {
    let ctx = ApiErrorContext { body: br#"{"code":"type_not_found"}"#.to_vec(), ..Default::default() };
    assert_eq!(FgaApiValidationError::new(ctx).context.response_code, "type_not_found");
    let ctx = ApiErrorContext {
        body: b"not json".to_vec(),
        response_code: "kept".to_string(),
        ..Default::default()
    };
    assert_eq!(FgaApiValidationError::new(ctx).context.response_code, "kept");
    let ctx = ApiErrorContext::default();
    let e = FgaApiValidationError::with_code(ctx, Some("given".to_string()));
    assert_eq!(e.context.response_code, "given");
}

#[test]
fn rate_limit_headers_recorded() {
    let h = headers(&[
        ("Retry-After", "3"),
        ("X-RateLimit-Reset", "1700000000"),
        ("X-RateLimit-Limit", "50"),
        ("X-RateLimit-Unit", "second"),
    ]);
    let ctx = ApiErrorContext { response_status_code: 429, response_headers: h, ..Default::default() };
    let e = FgaApiRateLimitExceededError::new(ctx);
    assert_eq!(e.retry_after_ms, Some(3000));
    assert_eq!(e.rate_limit_reset_epoch.as_deref(), Some("1700000000"));
    assert_eq!(e.rate_limit, Some(50));
    assert_eq!(e.rate_unit.as_deref(), Some("second"));
    assert!(e.should_retry());
}

#[test]
fn rate_limit_bad_limit_ignored() {
    let h = headers(&[("X-RateLimit-Limit", "lots")]);
    let ctx = ApiErrorContext { response_status_code: 429, response_headers: h, ..Default::default() };
    let e = FgaApiRateLimitExceededError::new(ctx);
    assert_eq!(e.rate_limit, None);
    assert_eq!(e.retry_after_ms, None);
}

#[test]
fn time_to_wait_by_error() {
    let p = RetryParams::new(3, 100);
    let rl = OpenFgaError::RateLimitExceeded(FgaApiRateLimitExceededError::new(ApiErrorContext {
        response_status_code: 429,
        ..Default::default()
    }));
    assert_eq!(rl.get_time_to_wait(0, &p), 100);
    assert_eq!(rl.get_time_to_wait(2, &p), 400);
    assert_eq!(rl.get_time_to_wait(3, &p), 0);
    let with_header = OpenFgaError::Internal(FgaApiInternalError::new(ApiErrorContext {
        response_status_code: 503,
        response_headers: headers(&[("Retry-After", "1")]),
        ..Default::default()
    }));
    assert_eq!(with_header.get_time_to_wait(0, &p), 1000);
    let not_impl = OpenFgaError::Internal(FgaApiInternalError::new(ApiErrorContext {
        response_status_code: 501,
        ..Default::default()
    }));
    assert_eq!(not_impl.get_time_to_wait(0, &p), 0);
    assert_eq!(OpenFgaError::Http("reset".to_string()).get_time_to_wait(1, &p), 200);
    assert_eq!(OpenFgaError::Configuration("x".to_string()).get_time_to_wait(0, &p), 0);
}

#[test]
fn retry_decisions() {
    let p = RetryParams::new(2, 100);
    let http = OpenFgaError::Http("reset".to_string());
    assert_eq!(decide_after_failure(0, &p, &http), RetryDecision::RetryAfter { wait_ms: 100, next_attempt: 1 });
    assert_eq!(decide_after_failure(1, &p, &http), RetryDecision::RetryAfter { wait_ms: 200, next_attempt: 2 });
    assert_eq!(decide_after_failure(2, &p, &http), RetryDecision::GiveUp);
    let bad = OpenFgaError::Configuration("bad".to_string());
    assert_eq!(decide_after_failure(0, &p, &bad), RetryDecision::GiveUp);
    let zero_wait = RetryParams::new(2, 0);
    assert_eq!(decide_after_failure(0, &zero_wait, &http), RetryDecision::RetryAfter { wait_ms: 0, next_attempt: 1 });
}

#[test]
fn retry_loop_makes_at_most_max_retry_plus_one_attempts() {
    for max_retry in 0..6u32 {
        let p = RetryParams::new(max_retry, 1);
        let err = OpenFgaError::Http("reset".to_string());
        let mut attempts = 1u32;
        let mut attempt = 0u32;
        while let RetryDecision::RetryAfter { next_attempt, .. } = decide_after_failure(attempt, &p, &err) {
            attempt = next_attempt;
            attempts += 1;
        }
        assert_eq!(attempts, max_retry + 1);
    }
}

#[test]
fn retry_after_zero_retries_at_once() {
    let p = RetryParams::new(3, 100);
    let rl = OpenFgaError::RateLimitExceeded(FgaApiRateLimitExceededError::new(ApiErrorContext {
        response_status_code: 429,
        response_headers: headers(&[("Retry-After", "0")]),
        ..Default::default()
    }));
    assert_eq!(decide_after_failure(0, &p, &rl), RetryDecision::RetryAfter { wait_ms: 0, next_attempt: 1 });
    assert_eq!(decide_after_failure(3, &p, &rl), RetryDecision::GiveUp);
}
