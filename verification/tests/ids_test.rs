use openfga_sdk::client::{
    batch_check_response, check_ulid_param, effective_model_id, effective_store_id, first_authorization_model, model_id_or,
    required_model_id, ClientBatchCheckItem, ClientConfiguration, ClientIds, ClientRequestOptions,
};
use openfga_sdk::error::OpenFgaError;
use openfga_sdk::models::{AuthorizationModel, CheckResponse, ReadAuthorizationModelsResponse};

const STORE: &str = "01GXSA8YR785C4FYS3C0RTG7B1";
const MODEL: &str = "01GXSA8YR785C4FYS3C0RTG7B2";

#[test]
fn set_store_id_reads_back() {
    let mut ids = ClientIds::new(&ClientConfiguration::default());
    assert!(matches!(ids.store_id(), Err(OpenFgaError::Configuration(m)) if m == "No store_id configured"));
    ids.set_store_id(STORE).unwrap();
    assert_eq!(ids.store_id().unwrap(), STORE);
    assert_eq!(ids.authorization_model_id(), None);
}

#[test]
fn set_model_id_reads_back() {
    let mut ids = ClientIds::new(&ClientConfiguration {
        store_id: Some(STORE.to_string()),
        ..Default::default()
    });
    ids.set_authorization_model_id(MODEL).unwrap();
    assert_eq!(ids.authorization_model_id().as_deref(), Some(MODEL));
    assert_eq!(ids.store_id().unwrap(), STORE);
}

#[test]
fn refused_id_changes_nothing() {
    let mut ids = ClientIds::new(&ClientConfiguration {
        store_id: Some(STORE.to_string()),
        authorization_model_id: Some(MODEL.to_string()),
        ..Default::default()
    });
    let e = ids.set_store_id("not-a-ulid").unwrap_err();
    match e {
        OpenFgaError::InvalidParam { param, description } => {
            assert_eq!(param, "store_id");
            assert_eq!(description, "'not-a-ulid' is not a valid ULID");
        }
        other => panic!("unexpected {other:?}"),
    }
    assert!(ids.set_authorization_model_id("").is_err());
    assert_eq!(ids.store_id().unwrap(), STORE);
    assert_eq!(ids.authorization_model_id().as_deref(), Some(MODEL));
}

#[test]
fn ulid_param_check() {
    assert!(check_ulid_param("store_id", STORE).is_ok());
    assert!(matches!(
        check_ulid_param("authorization_model_id", "x"),
        Err(OpenFgaError::InvalidParam { param, .. }) if param == "authorization_model_id"
    ));
}

#[test]
fn options_override_defaults() {
    let configured = Some(STORE.to_string());
    let opts = ClientRequestOptions {
        store_id: Some("other".to_string()),
        authorization_model_id: Some("m".to_string()),
        headers: None,
    };
    assert_eq!(effective_store_id(Some(&opts), &configured).unwrap(), "other");
    assert_eq!(effective_store_id(None, &configured).unwrap(), STORE);
    assert_eq!(effective_store_id(Some(&ClientRequestOptions::default()), &configured).unwrap(), STORE);
    assert!(matches!(effective_store_id(None, &None), Err(OpenFgaError::Configuration(_))));
    assert_eq!(effective_model_id(Some(&opts), &Some(MODEL.to_string())).as_deref(), Some("m"));
    assert_eq!(effective_model_id(None, &Some(MODEL.to_string())).as_deref(), Some(MODEL));
    assert_eq!(effective_model_id(None, &None), None);
}

#[test]
fn model_requirements() {
    assert_eq!(required_model_id(Some("m".to_string())).unwrap(), "m");
    assert!(matches!(
        required_model_id(None),
        Err(OpenFgaError::Configuration(m)) if m == "No authorization_model_id configured"
    ));
    assert_eq!(model_id_or(Some("own".to_string()), Some("eff".to_string())).as_deref(), Some("own"));
    assert_eq!(model_id_or(None, Some("eff".to_string())).as_deref(), Some("eff"));
}

#[test]
fn first_model_of_listing() {
    let empty = ReadAuthorizationModelsResponse { authorization_models: vec![], continuation_token: None };
    assert!(first_authorization_model(empty).is_none());
    let m = AuthorizationModel {
        id: MODEL.to_string(),
        schema_version: "1.1".to_string(),
        type_definitions: vec![],
        conditions: None,
    };
    let one = ReadAuthorizationModelsResponse { authorization_models: vec![m], continuation_token: None };
    assert_eq!(first_authorization_model(one).unwrap().id, MODEL);
}

#[test]
fn empty_store_id_means_no_default() {
    let ids = ClientIds::new(&ClientConfiguration {
        store_id: Some(String::new()),
        authorization_model_id: Some(String::new()),
        ..Default::default()
    });
    assert!(matches!(ids.store_id(), Err(OpenFgaError::Configuration(m)) if m == "No store_id configured"));
    assert_eq!(ids.authorization_model_id(), None);
}

fn batch_item(id: &str, user: &str) -> ClientBatchCheckItem {
    ClientBatchCheckItem {
        user: user.to_string(),
        relation: "viewer".to_string(),
        object: "doc:1".to_string(),
        correlation_id: id.to_string(),
        contextual_tuples: None,
        context: None,
    }
}

#[test]
fn batch_response_one_result_per_id() {
    let r = batch_check_response(vec![
        (batch_item("a", "user:1"), Ok(CheckResponse { allowed: Some(true), resolution: None })),
        (batch_item("b", "user:2"), Err(OpenFgaError::Http("reset".to_string()))),
        (batch_item("a", "user:3"), Ok(CheckResponse { allowed: Some(false), resolution: None })),
    ]);
    assert_eq!(r.responses.len(), 2);
    let a = &r.responses["a"];
    assert_eq!(a.request.user, "user:3");
    assert!(!a.allowed);
    assert!(a.error.is_none());
    let b = &r.responses["b"];
    assert!(!b.allowed);
    assert!(matches!(b.error, Some(OpenFgaError::Http(_))));
    assert!(batch_check_response(Vec::new()).responses.is_empty());
}
