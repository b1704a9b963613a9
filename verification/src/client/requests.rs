//! The API request behind each client method: operation name, HTTP method,
//! path template, path and query parameters, and body.

use vstd::prelude::*;
use vstd::string::*;
use crate::api::executor::{pairs_view, set_param, ApiExecutorRequest};
use crate::internal::text::{decimal_i64, signed_decimal};

verus! {

/// A request for `op` with HTTP method `method` on path template `path`,
/// without custom headers.
pub open spec fn is_route(r: ApiExecutorRequest, op: Seq<char>, method: Seq<char>, path: Seq<char>) -> bool {
    &&& r.operation_name@ == op
    &&& r.method@ == method
    &&& r.path@ == path
    &&& r.headers@ == Map::<String, String>::empty()
}

/// The path parameters of a request on one store.
pub open spec fn store_params(store_id: Seq<char>) -> Seq<(Seq<char>, Seq<char>)> {
    seq![("store_id"@, store_id)]
}

/// The path parameters of a request on one store and model.
pub open spec fn store_model_params(store_id: Seq<char>, model_id: Seq<char>) -> Seq<(Seq<char>, Seq<char>)> {
    seq![("store_id"@, store_id), ("model_id"@, model_id)]
}

/// The query of a paginated listing: the page size, then the continuation
/// token, each when given.
pub open spec fn page_query(page_size: Option<i32>, token: Option<Seq<char>>) -> Seq<(Seq<char>, Seq<char>)> {
    let a = match page_size {
        Some(ps) => seq![("page_size"@, signed_decimal(ps as int))],
        None => Seq::<(Seq<char>, Seq<char>)>::empty(),
    };
    match token {
        Some(t) => a.push(("continuation_token"@, t)),
        None => a,
    }
}

/// The view of an optional string, as an optional text.
pub open spec fn opt_text(o: Option<String>) -> Option<Seq<char>> {
    match o {
        Some(s) => Some(s@),
        None => None,
    }
}

fn route(op: &str, method: &str, path: &str) -> (r: ApiExecutorRequest)
    ensures
        is_route(r, op@, method@, path@),
        r.path_parameters@.len() == 0,
        r.query_parameters@.len() == 0,
        r.body is None,
{
    ApiExecutorRequest::with_route(op, method, path)
}

fn on_store(r: ApiExecutorRequest, store_id: &str) -> (s: ApiExecutorRequest)
    requires
        r.path_parameters@.len() == 0,
    ensures
        pairs_view(s.path_parameters@) == store_params(store_id@),
        s.operation_name == r.operation_name,
        s.method == r.method,
        s.path == r.path,
        s.query_parameters == r.query_parameters,
        s.body == r.body,
        s.headers == r.headers,
{
    proof { reveal_strlit("store_id"); }
    assert(pairs_view(r.path_parameters@) =~= Seq::<(Seq<char>, Seq<char>)>::empty());
    let s = r.with_path_param("store_id", store_id);
    assert(pairs_view(s.path_parameters@) =~= store_params(store_id@));
    s
}

fn on_store_model(r: ApiExecutorRequest, store_id: &str, model_id: &str) -> (s: ApiExecutorRequest)
    requires
        r.path_parameters@.len() == 0,
    ensures
        pairs_view(s.path_parameters@) == store_model_params(store_id@, model_id@),
        s.operation_name == r.operation_name,
        s.method == r.method,
        s.path == r.path,
        s.query_parameters == r.query_parameters,
        s.body == r.body,
        s.headers == r.headers,
{
    proof {
        reveal_strlit("store_id");
        reveal_strlit("model_id");
    }
    let s = on_store(r, store_id);
    let ghost p = pairs_view(s.path_parameters@);
    assert(!(exists|i: int| 0 <= i < p.len() && p[i].0 == "model_id"@)) by {
        assert(p.len() == 1);
        assert(p[0].0 == "store_id"@);
        assert("store_id"@[0] != "model_id"@[0]);
    }
    let t = s.with_path_param("model_id", model_id);
    assert(pairs_view(t.path_parameters@) =~= store_model_params(store_id@, model_id@));
    t
}

fn with_page(r: ApiExecutorRequest, page_size: Option<i32>, continuation_token: Option<String>) -> (s: ApiExecutorRequest)
    ensures
        pairs_view(s.query_parameters@) == pairs_view(r.query_parameters@) + page_query(page_size, opt_text(continuation_token)),
        s.operation_name == r.operation_name,
        s.method == r.method,
        s.path == r.path,
        s.path_parameters == r.path_parameters,
        s.body == r.body,
        s.headers == r.headers,
{
    proof {
        reveal_strlit("page_size");
        reveal_strlit("continuation_token");
    }
    let ghost q0 = pairs_view(r.query_parameters@);
    let mut s = r;
    match page_size {
        Some(ps) => {
            let text = decimal_i64(ps as i64);
            s = s.with_query_param("page_size", text.as_str());
        },
        None => {},
    }
    let ghost q1 = pairs_view(s.query_parameters@);
    assert(q1 =~= q0 + page_query(page_size, None));
    match continuation_token {
        Some(ct) => {
            s = s.with_query_param("continuation_token", ct.as_str());
        },
        None => {},
    }
    assert(pairs_view(s.query_parameters@) =~= q0 + page_query(page_size, opt_text(continuation_token)));
    s
}

/// `ListStores`: `GET /stores`, paginated.
pub fn list_stores_request(page_size: Option<i32>, continuation_token: Option<String>) -> (r: ApiExecutorRequest)
    ensures
        is_route(r, "ListStores"@, "GET"@, "/stores"@),
        r.path_parameters@.len() == 0,
        pairs_view(r.query_parameters@) == page_query(page_size, opt_text(continuation_token)),
        r.body is None,
{
    let r = route("ListStores", "GET", "/stores");
    assert(pairs_view(r.query_parameters@) =~= Seq::<(Seq<char>, Seq<char>)>::empty());
    let r = with_page(r, page_size, continuation_token);
    assert(pairs_view(r.query_parameters@) =~= page_query(page_size, opt_text(continuation_token)));
    r
}

/// `CreateStore`: `POST /stores` with the store as body.
pub fn create_store_request(body: serde_json::Value) -> (r: ApiExecutorRequest)
    ensures
        is_route(r, "CreateStore"@, "POST"@, "/stores"@),
        r.path_parameters@.len() == 0,
        r.query_parameters@.len() == 0,
        r.body == Some(body),
{
    route("CreateStore", "POST", "/stores").with_body(body)
}

/// A request on one store, with an optional body and no query.
fn store_request(op: &str, method: &str, path: &str, store_id: &str, body: Option<serde_json::Value>) -> (r: ApiExecutorRequest)
    ensures
        is_route(r, op@, method@, path@),
        pairs_view(r.path_parameters@) == store_params(store_id@),
        r.query_parameters@.len() == 0,
        r.body == body,
{
    let r = on_store(route(op, method, path), store_id);
    match body {
        Some(b) => r.with_body(b),
        None => r,
    }
}

/// `GetStore`: `GET /stores/{store_id}`.
pub fn get_store_request(store_id: &str) -> (r: ApiExecutorRequest)
    ensures
        is_route(r, "GetStore"@, "GET"@, "/stores/{store_id}"@),
        pairs_view(r.path_parameters@) == store_params(store_id@),
        r.query_parameters@.len() == 0,
        r.body is None,
{
    store_request("GetStore", "GET", "/stores/{store_id}", store_id, None)
}

/// `DeleteStore`: `DELETE /stores/{store_id}`.
pub fn delete_store_request(store_id: &str) -> (r: ApiExecutorRequest)
    ensures
        is_route(r, "DeleteStore"@, "DELETE"@, "/stores/{store_id}"@),
        pairs_view(r.path_parameters@) == store_params(store_id@),
        r.query_parameters@.len() == 0,
        r.body is None,
{
    store_request("DeleteStore", "DELETE", "/stores/{store_id}", store_id, None)
}

/// `ReadAuthorizationModels`: `GET /stores/{store_id}/authorization-models`,
/// paginated.
pub fn read_authorization_models_request(store_id: &str, page_size: Option<i32>, continuation_token: Option<String>) -> (r: ApiExecutorRequest)
    ensures
        is_route(r, "ReadAuthorizationModels"@, "GET"@, "/stores/{store_id}/authorization-models"@),
        pairs_view(r.path_parameters@) == store_params(store_id@),
        pairs_view(r.query_parameters@) == page_query(page_size, opt_text(continuation_token)),
        r.body is None,
{
    let r = store_request("ReadAuthorizationModels", "GET", "/stores/{store_id}/authorization-models", store_id, None);
    assert(pairs_view(r.query_parameters@) =~= Seq::<(Seq<char>, Seq<char>)>::empty());
    let r = with_page(r, page_size, continuation_token);
    assert(pairs_view(r.query_parameters@) =~= page_query(page_size, opt_text(continuation_token)));
    r
}

/// `ReadAuthorizationModels` limited to one model (the latest).
pub fn read_latest_authorization_model_request(store_id: &str) -> (r: ApiExecutorRequest)
    ensures
        is_route(r, "ReadAuthorizationModels"@, "GET"@, "/stores/{store_id}/authorization-models"@),
        pairs_view(r.path_parameters@) == store_params(store_id@),
        pairs_view(r.query_parameters@) == seq![("page_size"@, "1"@)],
        r.body is None,
{
    let r = store_request("ReadAuthorizationModels", "GET", "/stores/{store_id}/authorization-models", store_id, None);
    let r = r.with_query_param("page_size", "1");
    assert(pairs_view(r.query_parameters@) =~= seq![("page_size"@, "1"@)]);
    r
}

/// `WriteAuthorizationModel`: `POST /stores/{store_id}/authorization-models`.
pub fn write_authorization_model_request(store_id: &str, body: serde_json::Value) -> (r: ApiExecutorRequest)
    ensures
        is_route(r, "WriteAuthorizationModel"@, "POST"@, "/stores/{store_id}/authorization-models"@),
        pairs_view(r.path_parameters@) == store_params(store_id@),
        r.query_parameters@.len() == 0,
        r.body == Some(body),
{
    store_request("WriteAuthorizationModel", "POST", "/stores/{store_id}/authorization-models", store_id, Some(body))
}

/// `ReadAuthorizationModel`: `GET /stores/{store_id}/authorization-models/{model_id}`.
pub fn read_authorization_model_request(store_id: &str, model_id: &str) -> (r: ApiExecutorRequest)
    ensures
        is_route(r, "ReadAuthorizationModel"@, "GET"@, "/stores/{store_id}/authorization-models/{model_id}"@),
        pairs_view(r.path_parameters@) == store_model_params(store_id@, model_id@),
        r.query_parameters@.len() == 0,
        r.body is None,
{
    on_store_model(route("ReadAuthorizationModel", "GET", "/stores/{store_id}/authorization-models/{model_id}"), store_id, model_id)
}

/// `Read`: `POST /stores/{store_id}/read`.
pub fn read_request(store_id: &str, body: serde_json::Value) -> (r: ApiExecutorRequest)
    ensures
        is_route(r, "Read"@, "POST"@, "/stores/{store_id}/read"@),
        pairs_view(r.path_parameters@) == store_params(store_id@),
        r.query_parameters@.len() == 0,
        r.body == Some(body),
{
    store_request("Read", "POST", "/stores/{store_id}/read", store_id, Some(body))
}

/// `Write`: `POST /stores/{store_id}/write`.
pub fn write_request(store_id: &str, body: serde_json::Value) -> (r: ApiExecutorRequest)
    ensures
        is_route(r, "Write"@, "POST"@, "/stores/{store_id}/write"@),
        pairs_view(r.path_parameters@) == store_params(store_id@),
        r.query_parameters@.len() == 0,
        r.body == Some(body),
{
    store_request("Write", "POST", "/stores/{store_id}/write", store_id, Some(body))
}

/// The query of a change listing: the type filter, then the pagination.
pub open spec fn changes_query(type_filter: Option<Seq<char>>, page_size: Option<i32>, token: Option<Seq<char>>) -> Seq<(Seq<char>, Seq<char>)> {
    let a = match type_filter {
        Some(t) => seq![("type"@, t)],
        None => Seq::<(Seq<char>, Seq<char>)>::empty(),
    };
    a + page_query(page_size, token)
}

/// `ReadChanges`: `GET /stores/{store_id}/changes`, filtered by type and
/// paginated.
pub fn read_changes_request(
    store_id: &str,
    type_filter: Option<String>,
    page_size: Option<i32>,
    continuation_token: Option<String>,
) -> (r: ApiExecutorRequest)
    ensures
        is_route(r, "ReadChanges"@, "GET"@, "/stores/{store_id}/changes"@),
        pairs_view(r.path_parameters@) == store_params(store_id@),
        pairs_view(r.query_parameters@) == changes_query(opt_text(type_filter), page_size, opt_text(continuation_token)),
        r.body is None,
{
    proof { reveal_strlit("type"); }
    let mut r = store_request("ReadChanges", "GET", "/stores/{store_id}/changes", store_id, None);
    match type_filter {
        Some(t) => {
            r = r.with_query_param("type", t.as_str());
        },
        None => {},
    }
    let ghost q = pairs_view(r.query_parameters@);
    assert(q =~= changes_query(opt_text(type_filter), None, None));
    let r = with_page(r, page_size, continuation_token);
    assert(pairs_view(r.query_parameters@) =~= changes_query(opt_text(type_filter), page_size, opt_text(continuation_token)));
    r
}

/// `Check`: `POST /stores/{store_id}/check`.
pub fn check_request(store_id: &str, body: serde_json::Value) -> (r: ApiExecutorRequest)
    ensures
        is_route(r, "Check"@, "POST"@, "/stores/{store_id}/check"@),
        pairs_view(r.path_parameters@) == store_params(store_id@),
        r.query_parameters@.len() == 0,
        r.body == Some(body),
{
    store_request("Check", "POST", "/stores/{store_id}/check", store_id, Some(body))
}

/// `BatchCheck`: `POST /stores/{store_id}/batch-check`.
pub fn batch_check_request(store_id: &str, body: serde_json::Value) -> (r: ApiExecutorRequest)
    ensures
        is_route(r, "BatchCheck"@, "POST"@, "/stores/{store_id}/batch-check"@),
        pairs_view(r.path_parameters@) == store_params(store_id@),
        r.query_parameters@.len() == 0,
        r.body == Some(body),
{
    store_request("BatchCheck", "POST", "/stores/{store_id}/batch-check", store_id, Some(body))
}

/// `Expand`: `POST /stores/{store_id}/expand`.
pub fn expand_request(store_id: &str, body: serde_json::Value) -> (r: ApiExecutorRequest)
    ensures
        is_route(r, "Expand"@, "POST"@, "/stores/{store_id}/expand"@),
        pairs_view(r.path_parameters@) == store_params(store_id@),
        r.query_parameters@.len() == 0,
        r.body == Some(body),
{
    store_request("Expand", "POST", "/stores/{store_id}/expand", store_id, Some(body))
}

/// `ListObjects`: `POST /stores/{store_id}/list-objects`.
pub fn list_objects_request(store_id: &str, body: serde_json::Value) -> (r: ApiExecutorRequest)
    ensures
        is_route(r, "ListObjects"@, "POST"@, "/stores/{store_id}/list-objects"@),
        pairs_view(r.path_parameters@) == store_params(store_id@),
        r.query_parameters@.len() == 0,
        r.body == Some(body),
{
    store_request("ListObjects", "POST", "/stores/{store_id}/list-objects", store_id, Some(body))
}

/// `ListUsers`: `POST /stores/{store_id}/list-users`.
pub fn list_users_request(store_id: &str, body: serde_json::Value) -> (r: ApiExecutorRequest)
    ensures
        is_route(r, "ListUsers"@, "POST"@, "/stores/{store_id}/list-users"@),
        pairs_view(r.path_parameters@) == store_params(store_id@),
        r.query_parameters@.len() == 0,
        r.body == Some(body),
{
    store_request("ListUsers", "POST", "/stores/{store_id}/list-users", store_id, Some(body))
}

/// `ReadAssertions`: `GET /stores/{store_id}/assertions/{model_id}`.
pub fn read_assertions_request(store_id: &str, model_id: &str) -> (r: ApiExecutorRequest)
    ensures
        is_route(r, "ReadAssertions"@, "GET"@, "/stores/{store_id}/assertions/{model_id}"@),
        pairs_view(r.path_parameters@) == store_model_params(store_id@, model_id@),
        r.query_parameters@.len() == 0,
        r.body is None,
{
    on_store_model(route("ReadAssertions", "GET", "/stores/{store_id}/assertions/{model_id}"), store_id, model_id)
}

/// `WriteAssertions`: `PUT /stores/{store_id}/assertions/{model_id}`.
pub fn write_assertions_request(store_id: &str, model_id: &str, body: serde_json::Value) -> (r: ApiExecutorRequest)
    ensures
        is_route(r, "WriteAssertions"@, "PUT"@, "/stores/{store_id}/assertions/{model_id}"@),
        pairs_view(r.path_parameters@) == store_model_params(store_id@, model_id@),
        r.query_parameters@.len() == 0,
        r.body == Some(body),
{
    on_store_model(route("WriteAssertions", "PUT", "/stores/{store_id}/assertions/{model_id}"), store_id, model_id).with_body(body)
}

/// The path of `StreamedListObjects` for a store.
pub fn streamed_list_objects_path(store_id: &str) -> (p: String)
    ensures
        p@ == "/stores/"@ + store_id@ + "/streamed-list-objects"@,
{
    let mut p = String::from_str("/stores/");
    p.append(store_id);
    p.append("/streamed-list-objects");
    p
}

} // verus!
