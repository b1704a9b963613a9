use openfga_sdk::internal::constants::{DEFAULT_MAX_RETRY, DEFAULT_MIN_WAIT_MS};
use openfga_sdk::internal::headers::ResponseHeaders;
use openfga_sdk::internal::retry::{
    backoff, get_time_to_wait, parse_retry_after_header, retry_after_value, wait_after, RetryParams,
    RETRY_AFTER_HEADER,
};

fn headers_with(name: &str, value: &str) -> ResponseHeaders {
    let mut h = ResponseHeaders::new();
    h.append(name.to_string(), Some(value.to_string()));
    h
}

#[test]
fn default_retry_params() {
    let p = RetryParams::default();
    assert_eq!(p.max_retry, DEFAULT_MAX_RETRY);
    assert_eq!(p.min_wait_ms, DEFAULT_MIN_WAIT_MS);
}

#[test]
fn validate_exceeds_max() {
    let p = RetryParams::new(16, 100);
    assert!(p.validate().is_err());
}

#[test]
fn validate_ok() {
    let p = RetryParams::new(3, 100);
    assert!(p.validate().is_ok());
}

#[test]
fn backoff_grows_exponentially() {
    let headers = ResponseHeaders::new();
    let d0 = get_time_to_wait(0, 3, 100, &headers, "op");
    let d1 = get_time_to_wait(1, 3, 100, &headers, "op");
    let d2 = get_time_to_wait(2, 3, 100, &headers, "op");
    assert_eq!(d0, 100);
    assert_eq!(d1, 200);
    assert_eq!(d2, 400);
}

#[test]
fn no_retry_when_exhausted() {
    let headers = ResponseHeaders::new();
    let d = get_time_to_wait(3, 3, 100, &headers, "op");
    assert_eq!(d, 0);
}

#[test]
fn parse_retry_after_seconds() {
    let headers = headers_with(RETRY_AFTER_HEADER, "30");
    let d = parse_retry_after_header(&headers);
    assert_eq!(d, Some(30_000));
}

#[test]
fn validate_message_names_the_value() {
    let p = RetryParams::new(16, 100);
    assert_eq!(p.validate().unwrap_err(), "RetryParams.max_retry (16) must not exceed 15");
    assert!(RetryParams::new(15, 100).validate().is_ok());
}

#[test]
fn backoff_exponent_capped_at_ten() {
    assert_eq!(backoff(10, 100), 102_400);
    assert_eq!(backoff(11, 100), 102_400);
    assert_eq!(backoff(40, 1), 1024);
}

#[test]
fn backoff_saturates() {
    assert_eq!(backoff(5, u64::MAX / 2), u64::MAX);
    assert_eq!(backoff(0, u64::MAX), u64::MAX);
}

#[test]
fn backoff_doubles_below_cap() {
    for a in 0..10u32 {
        assert_eq!(backoff(a + 1, 7), 2 * backoff(a, 7));
    }
}

#[test]
fn retry_after_header_wins_over_backoff() {
    let headers = headers_with("retry-after", " 2 ");
    assert_eq!(get_time_to_wait(0, 3, 100, &headers, "op"), 2000);
    assert_eq!(get_time_to_wait(3, 3, 100, &headers, "op"), 0);
}

#[test]
fn retry_after_unparseable_is_ignored() {
    let headers = headers_with("Retry-After", "soon");
    assert_eq!(parse_retry_after_header(&headers), None);
    assert_eq!(get_time_to_wait(1, 3, 100, &headers, "op"), 200);
}

#[test]
fn retry_after_missing_header() {
    let headers = headers_with("X-Other", "5");
    assert_eq!(parse_retry_after_header(&headers), None);
}

#[test]
fn retry_after_value_forms() {
    let now = (1_700_000_000i64, 0u32);
    assert_eq!(retry_after_value("120", now), Some(120_000));
    assert_eq!(retry_after_value("\t7\n", now), Some(7000));
    assert_eq!(retry_after_value("-1", now), None);
    assert_eq!(retry_after_value("+5", now), Some(5000));
    assert_eq!(retry_after_value("", now), None);
    // 2023-11-14T22:13:20Z is 1_700_000_000; ten seconds later:
    assert_eq!(retry_after_value("Tue, 14 Nov 2023 22:13:30 GMT", now), Some(10_000));
    // a date in the past asks for nothing
    assert_eq!(retry_after_value("Tue, 14 Nov 2023 22:13:10 GMT", now), None);
}

#[test]
fn wait_after_follows_budget() {
    assert_eq!(wait_after(0, 3, 100, None), 100);
    assert_eq!(wait_after(2, 3, 100, Some(5)), 5);
    assert_eq!(wait_after(3, 3, 100, Some(5)), 0);
    assert_eq!(wait_after(0, 0, 100, None), 0);
}
