use openfga_sdk::api::api_client::request_url;
use openfga_sdk::api::executor::ApiExecutorRequest;
use openfga_sdk::client::requests::{
    check_request, get_store_request, list_stores_request, read_authorization_model_request,
    read_changes_request, read_latest_authorization_model_request, streamed_list_objects_path,
    write_request,
};
use openfga_sdk::error::OpenFgaError;

fn pairs(v: &[(String, String)]) -> Vec<(&str, &str)> {
    v.iter().map(|(a, b)| (a.as_str(), b.as_str())).collect()
}

#[test]
fn list_stores_route_and_query() {
    let r = list_stores_request(Some(25), Some("tok".to_string()));
    assert_eq!(r.operation_name, "ListStores");
    assert_eq!(r.method, "GET");
    assert_eq!(r.path, "/stores");
    assert_eq!(pairs(&r.query_parameters), vec![("page_size", "25"), ("continuation_token", "tok")]);
    assert!(r.body.is_none());
    let r = list_stores_request(None, None);
    assert!(r.query_parameters.is_empty());
    let r = list_stores_request(Some(-3), None);
    assert_eq!(pairs(&r.query_parameters), vec![("page_size", "-3")]);
}

#[test]
fn get_store_resolves_path() {
    let r = get_store_request("01GXSA8YR785C4FYS3C0RTG7B1");
    assert_eq!(r.resolved_path().unwrap(), "/stores/01GXSA8YR785C4FYS3C0RTG7B1");
    assert_eq!(r.method, "GET");
}

#[test]
fn read_authorization_model_resolves_both_ids() {
    let r = read_authorization_model_request("01GXSA8YR785C4FYS3C0RTG7B1", "01GXSA8YR785C4FYS3C0RTG7B2");
    assert_eq!(
        r.resolved_path().unwrap(),
        "/stores/01GXSA8YR785C4FYS3C0RTG7B1/authorization-models/01GXSA8YR785C4FYS3C0RTG7B2"
    );
}

#[test]
fn latest_model_asks_for_one_page() {
    let r = read_latest_authorization_model_request("s1");
    assert_eq!(pairs(&r.query_parameters), vec![("page_size", "1")]);
    assert_eq!(r.resolved_path().unwrap(), "/stores/s1/authorization-models");
}

#[test]
fn read_changes_query_order() {
    let r = read_changes_request("s1", Some("document".to_string()), Some(10), Some("ct".to_string()));
    assert_eq!(
        pairs(&r.query_parameters),
        vec![("type", "document"), ("page_size", "10"), ("continuation_token", "ct")]
    );
    assert_eq!(r.resolved_path().unwrap(), "/stores/s1/changes");
}

#[test]
fn check_and_write_carry_body() {
    let body = serde_json::Value::String("payload".to_string());
    let r = check_request("s1", body.clone());
    assert_eq!(r.body, Some(body.clone()));
    assert_eq!(r.resolved_path().unwrap(), "/stores/s1/check");
    let w = write_request("s1", body.clone());
    assert_eq!(w.operation_name, "Write");
    assert_eq!(w.method, "POST");
    assert_eq!(w.resolved_path().unwrap(), "/stores/s1/write");
}

#[test]
fn unresolved_path_is_refused() {
    let r = ApiExecutorRequest::with_route("Check", "POST", "/stores/{store_id}/check");
    match r.resolved_path() {
        Err(OpenFgaError::Configuration(m)) => {
            assert_eq!(m, "Not all path parameters were resolved in: /stores/{store_id}/check")
        }
        other => panic!("unexpected {other:?}"),
    }
}

#[test]
fn path_param_set_twice_keeps_last_value() {
    let r = ApiExecutorRequest::with_route("Get", "GET", "/stores/{store_id}")
        .with_path_param("store_id", "a")
        .with_path_param("store_id", "b");
    assert_eq!(r.path_parameters.len(), 1);
    assert_eq!(r.resolved_path().unwrap(), "/stores/b");
}

#[test]
fn query_and_header_builders() {
    let r = ApiExecutorRequest::with_route("Op", "GET", "/x")
        .with_query_param("a", "1")
        .with_query_param("a", "2")
        .with_header("X-Test", "yes");
    assert_eq!(pairs(&r.query_parameters), vec![("a", "1"), ("a", "2")]);
    assert_eq!(r.headers.get("X-Test").map(String::as_str), Some("yes"));
}

#[test]
fn streamed_path() {
    assert_eq!(streamed_list_objects_path("s1"), "/stores/s1/streamed-list-objects");
}

#[test]
fn path_param_lookup() {
    let r = ApiExecutorRequest::with_route("Get", "GET", "/stores/{store_id}/x/{model_id}")
        .with_path_param("store_id", "s1")
        .with_path_param("model_id", "m1");
    assert_eq!(r.path_param_value("store_id").as_deref(), Some("s1"));
    assert_eq!(r.path_param_value("model_id").as_deref(), Some("m1"));
    assert_eq!(r.path_param_value("other"), None);
}

#[test]
fn request_url_joins_and_encodes() {
    assert_eq!(
        request_url("http://localhost:8080", "/stores/s1/check", &Vec::new()).unwrap(),
        "http://localhost:8080/stores/s1/check"
    );
    assert_eq!(
        request_url("https://api.fga.example/base/", "/stores", &vec![
            ("page_size".to_string(), "1".to_string()),
            ("continuation_token".to_string(), "a b&c".to_string()),
        ])
        .unwrap(),
        "https://api.fga.example/stores?page_size=1&continuation_token=a+b%26c"
    );
    assert!(matches!(request_url("not a url", "/stores", &Vec::new()), Err(OpenFgaError::Url(_))));
}
