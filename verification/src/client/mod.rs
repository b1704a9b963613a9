//! The high-level client's configuration, options and results, and the
//! decisions it makes before and after talking to the server: which store
//! and model a request is for, how a configuration is validated, how writes
//! are split into chunks, and how batch-check results are gathered.

pub mod requests;
pub mod write;

use std::collections::HashMap;
use vstd::prelude::*;
use vstd::std_specs::hash::obeys_key_model;
use vstd::string::*;
use crate::api::configuration::{completed_configuration, configuration_problem, Configuration};
use crate::credentials::Credentials;
use crate::error::OpenFgaError;
use crate::internal::constants::{CLIENT_MAX_METHOD_PARALLEL_REQUESTS, DEFAULT_USER_AGENT};
use crate::internal::headers::opt_str_view;
use crate::internal::retry::RetryParams;
use crate::internal::ulid::{is_ulid_text, is_well_formed_ulid};
use crate::models::{
    AuthorizationModel, CheckRequest, CheckRequestTupleKey, CheckResponse, ContextualTupleKeys,
    ReadAuthorizationModelsResponse, TupleKey, TupleKeyWithoutCondition, WriteRequest, WriteRequestDeletes,
    WriteRequestWrites,
};
use crate::telemetry::TelemetryConfiguration;

verus! {

// ────────────────────────────────────────────────────────────────────────────
// ClientConfiguration
// ────────────────────────────────────────────────────────────────────────────

/// Configuration of the high-level client: the API configuration plus a
/// default store and authorization model.
#[derive(Debug)]
pub struct ClientConfiguration {
    /// Full API base URL, e.g. `https://api.fga.example`.
    pub api_url: String,
    /// Default store ID (ULID). Can be overridden per request.
    pub store_id: Option<String>,
    /// Default authorization model ID (ULID). Can be overridden per request.
    pub authorization_model_id: Option<String>,
    /// Authentication credentials.
    pub credentials: Option<Credentials>,
    /// Default HTTP headers sent with every request.
    pub default_headers: HashMap<String, String>,
    /// If `true`, log request/response details.
    pub debug: bool,
    /// Retry configuration.
    pub retry_params: Option<RetryParams>,
    /// Telemetry configuration.
    pub telemetry: Option<TelemetryConfiguration>,
}

impl Default for ClientConfiguration {
    fn default() -> (c: Self)
        ensures
            c.api_url@ == Seq::<char>::empty(),
            c.store_id is None,
            c.authorization_model_id is None,
            c.credentials is None,
            c.default_headers@ == Map::<String, String>::empty(),
            !c.debug,
            c.retry_params is None,
            c.telemetry is None,
    {
        ClientConfiguration {
            api_url: String::new(),
            store_id: None,
            authorization_model_id: None,
            credentials: None,
            default_headers: HashMap::new(),
            debug: false,
            retry_params: None,
            telemetry: None,
        }
    }
}

/// The message for an identifier that is not a ULID.
pub open spec fn not_ulid_message(id: Seq<char>) -> Seq<char> {
    "'"@ + id + "' is not a valid ULID"@
}

/// The error for parameter `param` whose value `id` is not a ULID.
pub open spec fn is_invalid_id_error(e: OpenFgaError, param: Seq<char>, id: Seq<char>) -> bool {
    e matches OpenFgaError::InvalidParam { param: p, description: d }
        && p@ == param && d@ == not_ulid_message(id)
}

fn invalid_id(param: &str, id: &str) -> (e: OpenFgaError)
    ensures
        is_invalid_id_error(e, param@, id@),
{
    let mut description = String::from_str("'");
    description.append(id);
    description.append("' is not a valid ULID");
    OpenFgaError::InvalidParam { param: String::from_str(param), description }
}

/// A default identifier is acceptable when absent, empty, or a ULID.
pub open spec fn acceptable_default_id(id: Option<String>) -> bool {
    match id {
        Some(s) => s@.len() == 0 || is_ulid_text(s@),
        None => true,
    }
}

/// Checks that `id` is a ULID, for parameter `param`.
pub fn check_ulid_param(param: &str, id: &str) -> (r: Result<(), OpenFgaError>)
    ensures
        r is Ok <==> (id@.len() != 0 && is_ulid_text(id@)),
        r matches Err(e) ==> is_invalid_id_error(e, param@, id@),
{
    if !is_well_formed_ulid(id) {
        return Err(invalid_id(param, id));
    }
    Ok(())
}

fn check_default_id(param: &str, id: &Option<String>) -> (r: Result<(), OpenFgaError>)
    ensures
        r is Ok <==> acceptable_default_id(*id),
        r matches Err(e) ==> id matches Some(s) && is_invalid_id_error(e, param@, s@),
{
    match id {
        Some(s) => {
            if !s.as_str().is_empty() && !is_well_formed_ulid(s.as_str()) {
                return Err(invalid_id(param, s.as_str()));
            }
            Ok(())
        },
        None => Ok(()),
    }
}

/// The API configuration that a client configuration stands for, with the
/// default user agent.
pub open spec fn api_configuration_of(c: ClientConfiguration, a: Configuration) -> bool {
    &&& a.api_url == c.api_url
    &&& a.credentials == c.credentials
    &&& a.default_headers@ == c.default_headers@
    &&& a.user_agent@ == DEFAULT_USER_AGENT@
    &&& a.debug == c.debug
    &&& a.retry_params == c.retry_params
    &&& match (a.telemetry, c.telemetry) {
        (Some(x), Some(y)) => x.metrics.same_as(&y.metrics),
        (None, None) => true,
        _ => false,
    }
}

/// Validates a client configuration and derives the API configuration from
/// it: the default store and model ids must be empty or ULIDs (the store id
/// is checked first), then the API configuration must validate.
pub fn validate_client_configuration(cfg: &ClientConfiguration) -> (r: Result<Configuration, OpenFgaError>)
    ensures
        !acceptable_default_id(cfg.store_id) ==> (r matches Err(e)
            && is_invalid_id_error(e, "store_id"@, cfg.store_id->0@)),
        acceptable_default_id(cfg.store_id) && !acceptable_default_id(cfg.authorization_model_id)
            ==> (r matches Err(e) && is_invalid_id_error(e, "authorization_model_id"@, cfg.authorization_model_id->0@)),
        acceptable_default_id(cfg.store_id) && acceptable_default_id(cfg.authorization_model_id) ==>
            exists|a: Configuration| #[trigger] api_configuration_of(*cfg, a) && match configuration_problem(a) {
                Some(msg) => r matches Err(OpenFgaError::Configuration(m)) && m@ == msg,
                None => r matches Ok(c) && completed_configuration(a, c),
            },
{
    proof {
        reveal_strlit("store_id");
        reveal_strlit("authorization_model_id");
    }
    match check_default_id("store_id", &cfg.store_id) {
        Err(e) => { return Err(e); },
        Ok(()) => {},
    }
    match check_default_id("authorization_model_id", &cfg.authorization_model_id) {
        Err(e) => { return Err(e); },
        Ok(()) => {},
    }
    let credentials = match &cfg.credentials {
        Some(c) => Some(c.clone()),
        None => None,
    };
    let telemetry = match &cfg.telemetry {
        Some(t) => Some(t.clone()),
        None => None,
    };
    let low = Configuration {
        api_url: cfg.api_url.clone(),
        credentials,
        default_headers: cfg.default_headers.clone(),
        user_agent: String::from_str(DEFAULT_USER_AGENT),
        debug: cfg.debug,
        retry_params: cfg.retry_params,
        telemetry,
    };
    assert(api_configuration_of(*cfg, low));
    Configuration::new(low)
}

// ────────────────────────────────────────────────────────────────────────────
// Per-request options
// ────────────────────────────────────────────────────────────────────────────

/// Per-request options shared by most methods.
#[derive(Debug, Clone)]
pub struct ClientRequestOptions {
    /// Override the default store ID for this request.
    pub store_id: Option<String>,
    /// Override the default authorization model ID for this request.
    pub authorization_model_id: Option<String>,
    /// Additional per-request HTTP headers.
    pub headers: Option<HashMap<String, String>>,
}

impl Default for ClientRequestOptions {
    fn default() -> (o: Self)
        ensures
            o.store_id is None,
            o.authorization_model_id is None,
            o.headers is None,
    {
        ClientRequestOptions { store_id: None, authorization_model_id: None, headers: None }
    }
}

/// Options specific to `Write`.
#[derive(Debug, Clone)]
pub struct ClientWriteOptions {
    /// Per-request overrides.
    pub base: ClientRequestOptions,
    /// Non-transaction write settings.
    pub transaction: Option<TransactionOptions>,
}

impl Default for ClientWriteOptions {
    fn default() -> (o: Self)
        ensures
            o.base.store_id is None,
            o.base.authorization_model_id is None,
            o.base.headers is None,
            o.transaction is None,
    {
        ClientWriteOptions { base: ClientRequestOptions::default(), transaction: None }
    }
}

/// Controls non-transaction (chunked) write behaviour.
#[derive(Debug, Clone, Copy)]
pub struct TransactionOptions {
    /// If `true`, disable single-transaction writes and use chunked mode.
    pub disable: bool,
    /// Maximum items per write chunk (default: 100).
    pub max_per_chunk: usize,
    /// Maximum parallel chunk requests (default: 10).
    pub max_parallel_requests: usize,
}

/// Items per chunk when the options give no chunk size.
pub const DEFAULT_MAX_PER_CHUNK: usize = 100;

impl Default for TransactionOptions {
    fn default() -> (o: Self)
        ensures
            !o.disable,
            o.max_per_chunk == DEFAULT_MAX_PER_CHUNK,
            o.max_parallel_requests == CLIENT_MAX_METHOD_PARALLEL_REQUESTS,
    {
        TransactionOptions {
            disable: false,
            max_per_chunk: DEFAULT_MAX_PER_CHUNK,
            max_parallel_requests: CLIENT_MAX_METHOD_PARALLEL_REQUESTS,
        }
    }
}

// ────────────────────────────────────────────────────────────────────────────
// Store and model selection
// ────────────────────────────────────────────────────────────────────────────

/// The store a request is for: the one the options name, else the client's
/// default; refused when there is neither.
pub fn effective_store_id(opts: Option<&ClientRequestOptions>, configured: &Option<String>) -> (r: Result<String, OpenFgaError>)
    ensures
        match opts {
            Some(o) if o.store_id is Some => r matches Ok(s) && s@ == o.store_id->0@,
            _ => match configured {
                Some(c) => r matches Ok(s) && s@ == c@,
                None => r matches Err(OpenFgaError::Configuration(m)) && m@ == "No store_id configured"@,
            },
        },
{
    match opts {
        Some(o) => match &o.store_id {
            Some(s) => { return Ok(s.clone()); },
            None => {},
        },
        None => {},
    }
    configured_store_id(configured)
}

/// The client's default store, refused when there is none.
pub fn configured_store_id(configured: &Option<String>) -> (r: Result<String, OpenFgaError>)
    ensures
        match configured {
            Some(c) => r matches Ok(s) && s@ == c@,
            None => r matches Err(OpenFgaError::Configuration(m)) && m@ == "No store_id configured"@,
        },
{
    match configured {
        Some(c) => Ok(c.clone()),
        None => Err(OpenFgaError::Configuration(String::from_str("No store_id configured"))),
    }
}

/// The authorization model a request is for: the one the options name, else
/// the client's default, if any.
pub fn effective_model_id(opts: Option<&ClientRequestOptions>, configured: &Option<String>) -> (r: Option<String>)
    ensures
        match opts {
            Some(o) if o.authorization_model_id is Some => opt_str_view(r) == opt_str_view(o.authorization_model_id),
            _ => opt_str_view(r) == opt_str_view(*configured),
        },
{
    match opts {
        Some(o) => match &o.authorization_model_id {
            Some(m) => { return Some(m.clone()); },
            None => {},
        },
        None => {},
    }
    match configured {
        Some(c) => Some(c.clone()),
        None => None,
    }
}

/// The authorization model a request needs: refused when there is none.
pub fn required_model_id(model_id: Option<String>) -> (r: Result<String, OpenFgaError>)
    ensures
        match model_id {
            Some(m) => r == Ok::<String, OpenFgaError>(m),
            None => r matches Err(OpenFgaError::Configuration(msg)) && msg@ == "No authorization_model_id configured"@,
        },
{
    match model_id {
        Some(m) => Ok(m),
        None => Err(OpenFgaError::Configuration(String::from_str("No authorization_model_id configured"))),
    }
}

/// The model id a request body carries: its own when it has one, else the
/// effective one.
pub fn model_id_or(own: Option<String>, effective: Option<String>) -> (r: Option<String>)
    ensures
        r == (match own {
            Some(m) => Some(m),
            None => effective,
        }),
{
    match own {
        Some(m) => Some(m),
        None => effective,
    }
}

/// The newest authorization model of a one-item listing.
pub fn first_authorization_model(resp: ReadAuthorizationModelsResponse) -> (m: Option<AuthorizationModel>)
    ensures
        resp.authorization_models@.len() == 0 ==> m is None,
        resp.authorization_models@.len() > 0 ==> m == Some(resp.authorization_models@[0]),
{
    let mut models = resp.authorization_models;
    if models.len() == 0 {
        None
    } else {
        Some(models.remove(0))
    }
}

/// The store and authorization model a client falls back on when a request
/// names none. The client keeps one behind a lock; its setters accept only
/// ULIDs.
#[derive(Debug, Clone)]
pub struct ClientIds {
    /// The default store, if any.
    pub store_id: Option<String>,
    /// The default authorization model, if any.
    pub authorization_model_id: Option<String>,
}

/// What setting the default store to `id` does: a ULID becomes the default
/// store and the model stays; anything else changes nothing.
pub open spec fn store_id_set(before: ClientIds, id: Seq<char>, after: ClientIds) -> bool {
    if id.len() != 0 && is_ulid_text(id) {
        opt_str_view(after.store_id) == Some(id) && after.authorization_model_id == before.authorization_model_id
    } else {
        after == before
    }
}

/// What setting the default model to `id` does: a ULID becomes the default
/// model and the store stays; anything else changes nothing.
pub open spec fn model_id_set(before: ClientIds, id: Seq<char>, after: ClientIds) -> bool {
    if id.len() != 0 && is_ulid_text(id) {
        opt_str_view(after.authorization_model_id) == Some(id) && after.store_id == before.store_id
    } else {
        after == before
    }
}

/// A default that was set is what is read back: after the store (or model)
/// is set to a ULID, the client's default store (or model) is that id, and
/// the other default is untouched; a refused id leaves both as they were.
pub proof fn lemma_set_ids_read_back(before: ClientIds, id: Seq<char>, after_store: ClientIds, after_model: ClientIds)
    requires
        store_id_set(before, id, after_store),
        model_id_set(before, id, after_model),
    ensures
        id.len() != 0 && is_ulid_text(id) ==> {
            &&& after_store.store_id matches Some(s) && s@ == id
            &&& after_store.authorization_model_id == before.authorization_model_id
            &&& after_model.authorization_model_id matches Some(m) && m@ == id
            &&& after_model.store_id == before.store_id
        },
        !(id.len() != 0 && is_ulid_text(id)) ==> after_store == before && after_model == before,
{
}

/// The default an optional id stands for: none when absent or empty.
pub open spec fn named_default(id: Option<String>) -> Option<Seq<char>> {
    match id {
        Some(s) => if s@.len() == 0 { None } else { Some(s@) },
        None => None,
    }
}

fn default_id(id: &Option<String>) -> (r: Option<String>)
    ensures
        opt_str_view(r) == named_default(*id),
{
    match id {
        Some(s) => {
            if s.as_str().is_empty() {
                None
            } else {
                Some(s.clone())
            }
        },
        None => None,
    }
}

impl ClientIds {
    /// The defaults a client configuration names; an empty id means no
    /// default.
    pub fn new(cfg: &ClientConfiguration) -> (r: Self)
        ensures
            opt_str_view(r.store_id) == named_default(cfg.store_id),
            opt_str_view(r.authorization_model_id) == named_default(cfg.authorization_model_id),
    {
        ClientIds { store_id: default_id(&cfg.store_id), authorization_model_id: default_id(&cfg.authorization_model_id) }
    }

    /// The default store; refused when there is none.
    pub fn store_id(&self) -> (r: Result<String, OpenFgaError>)
        ensures
            match self.store_id {
                Some(c) => r matches Ok(s) && s@ == c@,
                None => r matches Err(OpenFgaError::Configuration(m)) && m@ == "No store_id configured"@,
            },
    {
        configured_store_id(&self.store_id)
    }

    /// Sets the default store; `id` must be a ULID, else nothing changes.
    pub fn set_store_id(&mut self, id: &str) -> (r: Result<(), OpenFgaError>)
        ensures
            r is Ok <==> (id@.len() != 0 && is_ulid_text(id@)),
            store_id_set(*old(self), id@, *final(self)),
            r matches Err(e) ==> is_invalid_id_error(e, "store_id"@, id@),
    {
        proof { reveal_strlit("store_id"); }
        match check_ulid_param("store_id", id) {
            Err(e) => Err(e),
            Ok(()) => {
                self.store_id = Some(String::from_str(id));
                Ok(())
            },
        }
    }

    /// The default authorization model, if any.
    pub fn authorization_model_id(&self) -> (r: Option<String>)
        ensures
            opt_str_view(r) == opt_str_view(self.authorization_model_id),
    {
        match &self.authorization_model_id {
            Some(m) => Some(m.clone()),
            None => None,
        }
    }

    /// Sets the default authorization model; `id` must be a ULID, else
    /// nothing changes.
    pub fn set_authorization_model_id(&mut self, id: &str) -> (r: Result<(), OpenFgaError>)
        ensures
            r is Ok <==> (id@.len() != 0 && is_ulid_text(id@)),
            model_id_set(*old(self), id@, *final(self)),
            r matches Err(e) ==> is_invalid_id_error(e, "authorization_model_id"@, id@),
    {
        proof { reveal_strlit("authorization_model_id"); }
        match check_ulid_param("authorization_model_id", id) {
            Err(e) => Err(e),
            Ok(()) => {
                self.authorization_model_id = Some(String::from_str(id));
                Ok(())
            },
        }
    }
}

/// The body of `write_tuples`: the tuples to write, nothing to delete, and
/// no model of its own.
pub fn write_tuples_body(tuples: Vec<TupleKey>) -> (r: WriteRequest)
    ensures
        r.writes matches Some(w) && w.tuple_keys == tuples,
        r.deletes is None,
        r.authorization_model_id is None,
{
    WriteRequest { writes: Some(WriteRequestWrites { tuple_keys: tuples }), deletes: None, authorization_model_id: None }
}

/// The body of `delete_tuples`: the tuples to delete, nothing to write, and
/// no model of its own.
pub fn delete_tuples_body(tuples: Vec<TupleKeyWithoutCondition>) -> (r: WriteRequest)
    ensures
        r.writes is None,
        r.deletes matches Some(d) && d.tuple_keys == tuples,
        r.authorization_model_id is None,
{
    WriteRequest { writes: None, deletes: Some(WriteRequestDeletes { tuple_keys: tuples }), authorization_model_id: None }
}

// ────────────────────────────────────────────────────────────────────────────
// Client-side batch check
// ────────────────────────────────────────────────────────────────────────────

/// A single item in a client-side batch check request.
#[derive(Debug, Clone)]
pub struct ClientBatchCheckItem {
    /// Subject.
    pub user: String,
    /// Relation.
    pub relation: String,
    /// Object.
    pub object: String,
    /// Caller-provided correlation ID.
    pub correlation_id: String,
    /// Contextual tuples.
    pub contextual_tuples: Option<ContextualTupleKeys>,
    /// ABAC context.
    pub context: Option<serde_json::Value>,
}

/// The result of a single client-side batch check item.
#[derive(Debug)]
pub struct ClientBatchCheckSingleResult {
    /// Whether the check passed. Always `false` on error.
    pub allowed: bool,
    /// The request item this result answers.
    pub request: ClientBatchCheckItem,
    /// Error, if the individual check failed.
    pub error: Option<OpenFgaError>,
}

/// Response from the client-side `batch_check` method.
#[derive(Debug)]
pub struct ClientBatchCheckResponse {
    /// Per-item results keyed by `correlation_id`.
    pub responses: HashMap<String, ClientBatchCheckSingleResult>,
}

/// The `Check` request for one batch item: its tuple, contextual tuples and
/// context, with the effective model and neither trace nor consistency.
pub fn batch_item_check_request(item: ClientBatchCheckItem, model_id: Option<String>) -> (r: CheckRequest)
    ensures
        r.tuple_key.user == item.user,
        r.tuple_key.relation == item.relation,
        r.tuple_key.object == item.object,
        r.contextual_tuples == item.contextual_tuples,
        r.context == item.context,
        r.authorization_model_id == model_id,
        r.trace is None,
        r.consistency is None,
{
    CheckRequest {
        tuple_key: CheckRequestTupleKey { user: item.user, relation: item.relation, object: item.object },
        contextual_tuples: item.contextual_tuples,
        authorization_model_id: model_id,
        trace: None,
        context: item.context,
        consistency: None,
    }
}

/// The result `r` for batch item `item` whose check came out as `outcome`:
/// allowed only when the check succeeded and allowed it; a failed check
/// keeps its error.
pub open spec fn batch_result_for(item: ClientBatchCheckItem, outcome: Result<CheckResponse, OpenFgaError>, r: ClientBatchCheckSingleResult) -> bool {
    &&& r.request == item
    &&& r.allowed == (outcome matches Ok(resp) && resp.allowed == Some(true))
    &&& match outcome {
        Ok(_) => r.error is None,
        Err(e) => r.error == Some(e),
    }
}

/// The result for one batch item: allowed only when the check succeeded and
/// allowed it; a failed check keeps its error.
pub fn batch_item_result(item: ClientBatchCheckItem, outcome: Result<CheckResponse, OpenFgaError>) -> (r: ClientBatchCheckSingleResult)
    ensures
        batch_result_for(item, outcome, r),
{
    match outcome {
        Ok(resp) => {
            let allowed = resp.is_allowed();
            ClientBatchCheckSingleResult { allowed, request: item, error: None }
        },
        Err(e) => ClientBatchCheckSingleResult { allowed: false, request: item, error: Some(e) },
    }
}

impl ClientBatchCheckResponse {
    /// No results yet.
    pub fn new() -> (r: Self)
        ensures
            r.responses@ == Map::<String, ClientBatchCheckSingleResult>::empty(),
    {
        ClientBatchCheckResponse { responses: HashMap::new() }
    }

    /// Records the result of the item with correlation id `correlation_id`;
    /// a later result for the same id replaces an earlier one.
    pub fn record(&mut self, correlation_id: String, result: ClientBatchCheckSingleResult)
        ensures
            obeys_key_model::<String>() ==> final(self).responses@ == old(self).responses@.insert(correlation_id, result),
    {
        self.responses.insert(correlation_id, result);
    }
}

/// The response of a client-side batch check from each item and the outcome
/// of its check, in order: one result per correlation id, that of the last
/// item with the id.
pub fn batch_check_response(results: Vec<(ClientBatchCheckItem, Result<CheckResponse, OpenFgaError>)>) -> (r: ClientBatchCheckResponse)
    ensures
        obeys_key_model::<String>() ==> {
            &&& forall|k: String| #[trigger] r.responses@.dom().contains(k)
                <==> exists|i: int| 0 <= i < results@.len() && results@[i].0.correlation_id == k
            &&& forall|i: int| 0 <= i < results@.len()
                && (forall|j: int| i < j < results@.len() ==> results@[j].0.correlation_id != results@[i].0.correlation_id)
                ==> batch_result_for(results@[i].0, results@[i].1, #[trigger] r.responses@[results@[i].0.correlation_id])
        },
{
    let ghost all = results@;
    let mut rest = results;
    let mut response = ClientBatchCheckResponse::new();
    let ghost mut k: int = 0;
    while rest.len() > 0
        invariant
            0 <= k <= all.len(),
            rest@ == all.subrange(k, all.len() as int),
            obeys_key_model::<String>() ==> {
                &&& forall|key: String| #[trigger] response.responses@.dom().contains(key)
                    <==> exists|i: int| 0 <= i < k && all[i].0.correlation_id == key
                &&& forall|i: int| 0 <= i < k
                    && (forall|j: int| i < j < k ==> all[j].0.correlation_id != all[i].0.correlation_id)
                    ==> batch_result_for(all[i].0, all[i].1, #[trigger] response.responses@[all[i].0.correlation_id])
            },
        decreases rest.len(),
    {
        let ghost before = response.responses@;
        let (item, outcome) = rest.remove(0);
        assert(item == all[k].0 && outcome == all[k].1);
        let id = item.correlation_id.clone();
        let single = batch_item_result(item, outcome);
        response.record(id, single);
        proof {
            if obeys_key_model::<String>() {
                let kk = k;
                assert forall|key: String| #[trigger] response.responses@.dom().contains(key)
                    <==> exists|i: int| 0 <= i < kk + 1 && all[i].0.correlation_id == key by {
                    if response.responses@.dom().contains(key) && key != all[kk].0.correlation_id {
                        assert(before.dom().contains(key));
                        let i = choose|i: int| 0 <= i < kk && all[i].0.correlation_id == key;
                        assert(0 <= i < kk + 1 && all[i].0.correlation_id == key);
                    }
                    if exists|i: int| 0 <= i < kk + 1 && all[i].0.correlation_id == key {
                        let i = choose|i: int| 0 <= i < kk + 1 && all[i].0.correlation_id == key;
                        if i < kk {
                            assert(before.dom().contains(key));
                        }
                    }
                }
                assert forall|i: int| 0 <= i < kk + 1
                    && (forall|j: int| i < j < kk + 1 ==> all[j].0.correlation_id != all[i].0.correlation_id)
                    implies batch_result_for(all[i].0, all[i].1, #[trigger] response.responses@[all[i].0.correlation_id]) by {
                    if i < kk {
                        assert(all[kk].0.correlation_id != all[i].0.correlation_id);
                        assert(forall|j: int| i < j < kk ==> all[j].0.correlation_id != all[i].0.correlation_id);
                    }
                }
            }
        }
        proof { k = k + 1; }
    }
    response
}

// ────────────────────────────────────────────────────────────────────────────
// Write response types
// ────────────────────────────────────────────────────────────────────────────

/// Status of a single write tuple in a non-transaction write.
#[derive(Debug)]
pub enum ClientWriteStatus {
    /// Successfully written.
    Success,
    /// Failed with an error.
    Failure(OpenFgaError),
}

/// Result of a single write chunk.
#[derive(Debug)]
pub struct ClientWriteTupleResult {
    /// The tuple key that was attempted.
    pub tuple_key: TupleKey,
    /// Whether this tuple write succeeded.
    pub status: ClientWriteStatus,
}

/// Result of a single delete chunk.
#[derive(Debug)]
pub struct ClientDeleteTupleResult {
    /// The tuple key that was attempted.
    pub tuple_key: TupleKeyWithoutCondition,
    /// Whether this tuple delete succeeded.
    pub status: ClientWriteStatus,
}

/// Response from the `write` method (non-transaction mode).
#[derive(Debug)]
pub struct ClientWriteResponse {
    /// Results for all written tuples.
    pub writes: Vec<ClientWriteTupleResult>,
    /// Results for all deleted tuples.
    pub deletes: Vec<ClientDeleteTupleResult>,
}


/// A batch item is reported allowed exactly when its check succeeded and
/// the server answered `allowed: true`, whatever else the answer holds; a
/// failed check is reported denied and keeps its error, and a successful
/// one carries no error.
pub proof fn lemma_batch_result_allowed_iff_check_allowed(
    item: ClientBatchCheckItem,
    outcome: Result<CheckResponse, OpenFgaError>,
    r: ClientBatchCheckSingleResult,
)
    requires
        batch_result_for(item, outcome, r),
    ensures
        r.request == item,
        outcome matches Ok(resp) && resp.allowed == Some(true) ==> r.allowed,
        outcome matches Ok(resp) && resp.allowed != Some(true) ==> !r.allowed,
        outcome matches Ok(resp) ==> r.error is None,
        outcome matches Err(e) ==> !r.allowed && r.error == Some(e),
{
}

} // verus!
