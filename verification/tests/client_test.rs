use openfga_sdk::client::{validate_client_configuration, ClientConfiguration};
use openfga_sdk::error::OpenFgaError;

#[test]
fn test_invalid_store_id_rejected() {
    let err = validate_client_configuration(&ClientConfiguration {
        api_url: "http://localhost:8080".to_string(),
        store_id: Some("not-a-ulid".to_string()),
        ..Default::default()
    })
    .unwrap_err();

    assert!(matches!(err, OpenFgaError::InvalidParam { param, .. } if param == "store_id"));
}

#[test]
fn test_invalid_model_id_rejected() {
    let err = validate_client_configuration(&ClientConfiguration {
        api_url: "http://localhost:8080".to_string(),
        authorization_model_id: Some("bad-model-id".to_string()),
        ..Default::default()
    })
    .unwrap_err();

    assert!(matches!(err, OpenFgaError::InvalidParam { param, .. } if param == "authorization_model_id"));
}

#[test]
fn test_empty_store_id_passes_validation() {
    // Empty string is allowed (means "no default store_id").
    let client = validate_client_configuration(&ClientConfiguration {
        api_url: "http://localhost:8080".to_string(),
        store_id: Some(String::new()),
        ..Default::default()
    });
    assert!(client.is_ok());
}

#[test]
fn test_valid_ulid_passes_validation() {
    let client = validate_client_configuration(&ClientConfiguration {
        api_url: "http://localhost:8080".to_string(),
        store_id: Some("01GXSA8YR785C4FYS3C0RTG7B1".to_string()),
        ..Default::default()
    });
    assert!(client.is_ok());
}
