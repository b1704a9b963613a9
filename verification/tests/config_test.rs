use openfga_sdk::api::configuration::Configuration;
use openfga_sdk::client::{validate_client_configuration, ClientConfiguration};
use openfga_sdk::credentials::{Credentials, CredentialsMethod};
use openfga_sdk::error::OpenFgaError;
use openfga_sdk::internal::constants::DEFAULT_USER_AGENT;
use openfga_sdk::internal::retry::RetryParams;
use openfga_sdk::telemetry::{MetricsConfiguration, NoopTelemetry, TelemetryConfiguration};

fn config_error(r: Result<Configuration, OpenFgaError>) -> String {
    match r {
        Err(OpenFgaError::Configuration(m)) => m,
        other => panic!("unexpected {other:?}"),
    }
}

#[test]
fn configuration_fills_defaults() {
    let c = Configuration::new(Configuration {
        api_url: "http://localhost:8080".to_string(),
        ..Default::default()
    })
    .unwrap();
    assert_eq!(c.user_agent, DEFAULT_USER_AGENT);
    let rp = c.retry_params.unwrap();
    assert_eq!((rp.max_retry, rp.min_wait_ms), (3, 100));
    assert!(c.telemetry.is_some());
    assert_eq!(c.get_retry_params().max_retry, 3);
}

#[test]
fn configuration_keeps_given_values() {
    let c = Configuration::new(Configuration {
        api_url: "https://api.fga.example".to_string(),
        user_agent: "me/1".to_string(),
        retry_params: Some(RetryParams::new(5, 10)),
        ..Default::default()
    })
    .unwrap();
    assert_eq!(c.user_agent, "me/1");
    assert_eq!(c.get_retry_params().max_retry, 5);
    assert_eq!(c.get_retry_params().min_wait_ms, 10);
}

#[test]
fn configuration_errors_in_order() {
    assert_eq!(config_error(Configuration::new(Configuration::default())), "api_url is required");
    let m = config_error(Configuration::new(Configuration {
        api_url: "not a url".to_string(),
        retry_params: Some(RetryParams::new(99, 1)),
        ..Default::default()
    }));
    assert!(m.starts_with("api_url 'not a url' is not a valid URL: "), "{m}");
    let m = config_error(Configuration::new(Configuration {
        api_url: "http://localhost".to_string(),
        retry_params: Some(RetryParams::new(99, 1)),
        credentials: Some(Credentials::api_token("")),
        ..Default::default()
    }));
    assert_eq!(m, "RetryParams.max_retry (99) must not exceed 15");
    let m = config_error(Configuration::new(Configuration {
        api_url: "http://localhost".to_string(),
        credentials: Some(Credentials::api_token("")),
        ..Default::default()
    }));
    assert_eq!(m, "Credentials.api_token is required for ApiToken method");
}

#[test]
fn configuration_given_url_verdict() {
    let m = config_error(Configuration::validated(
        Configuration { api_url: "x".to_string(), ..Default::default() },
        Some("relative URL without a base".to_string()),
    ));
    assert_eq!(m, "api_url 'x' is not a valid URL: relative URL without a base");
    assert!(Configuration::validated(Configuration { api_url: "x".to_string(), ..Default::default() }, None).is_ok());
}

#[test]
fn default_headers_added() {
    let mut c = Configuration::default();
    c.add_default_header("X-Env", "test");
    assert_eq!(c.default_headers.get("X-Env").map(String::as_str), Some("test"));
    assert!(!Configuration::sdk_version().is_empty());
}

#[test]
fn client_configuration_checks_store_before_model() {
    let e = validate_client_configuration(&ClientConfiguration {
        api_url: "http://localhost:8080".to_string(),
        store_id: Some("bad".to_string()),
        authorization_model_id: Some("worse".to_string()),
        ..Default::default()
    })
    .unwrap_err();
    match e {
        OpenFgaError::InvalidParam { param, description } => {
            assert_eq!(param, "store_id");
            assert_eq!(description, "'bad' is not a valid ULID");
        }
        other => panic!("unexpected {other:?}"),
    }
}

#[test]
fn client_configuration_derives_api_configuration() {
    let c = validate_client_configuration(&ClientConfiguration {
        api_url: "http://localhost:8080".to_string(),
        debug: true,
        ..Default::default()
    })
    .unwrap();
    assert_eq!(c.api_url, "http://localhost:8080");
    assert_eq!(c.user_agent, DEFAULT_USER_AGENT);
    assert!(c.debug);
    let e = validate_client_configuration(&ClientConfiguration::default()).unwrap_err();
    assert!(matches!(e, OpenFgaError::Configuration(m) if m == "api_url is required"));
}

#[test]
fn credentials_validation() {
    assert!(Credentials::none().validate().is_ok());
    assert_eq!(Credentials::none().method, CredentialsMethod::NoAuth);
    assert!(Credentials::api_token("t").validate().is_ok());
    assert_eq!(
        Credentials::api_token("").validate().unwrap_err(),
        "Credentials.api_token is required for ApiToken method"
    );
    assert!(Credentials::client_credentials("id", "secret", "https://issuer", "aud").validate().is_ok());
    assert_eq!(
        Credentials::client_credentials("id", "", "", "aud").validate().unwrap_err(),
        "Credentials.client_credentials_client_secret is required for ClientCredentials method"
    );
    assert_eq!(
        Credentials::client_credentials("", "s", "i", "a").validate().unwrap_err(),
        "Credentials.client_credentials_client_id is required for ClientCredentials method"
    );
    assert_eq!(
        Credentials::client_credentials("c", "s", "", "a").validate().unwrap_err(),
        "Credentials.client_credentials_api_token_issuer is required for ClientCredentials method"
    );
    assert_eq!(
        Credentials::client_credentials("c", "s", "i", "").validate().unwrap_err(),
        "Credentials.client_credentials_api_audience is required for ClientCredentials method"
    );
}

#[test]
fn static_auth_header_only_for_tokens() {
    assert_eq!(Credentials::api_token("abc").static_auth_header().as_deref(), Some("Bearer abc"));
    assert_eq!(Credentials::none().static_auth_header(), None);
    assert_eq!(Credentials::client_credentials("a", "b", "c", "d").static_auth_header(), None);
}

#[test]
fn telemetry_defaults() {
    let t = TelemetryConfiguration::default();
    assert!(t.metrics.request_duration && t.metrics.query_duration);
    assert!(t.metrics.request_count && t.metrics.http_request_duration);
    let m = MetricsConfiguration::default();
    assert_eq!(m.enabled_attributes.len(), 9);
    assert!(!m.enabled_attributes.iter().any(|a| a == "url.full" || a == "fga_client.user"));
    NoopTelemetry::default().record_request_count("Check", "s");
}
