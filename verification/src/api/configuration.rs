//! Configuration of the API client and its validation.

use std::collections::HashMap;
use vstd::prelude::*;
use vstd::std_specs::hash::obeys_key_model;
use vstd::string::*;
use crate::credentials::{credentials_problem, Credentials};
use crate::error::OpenFgaError;
use crate::internal::constants::{DEFAULT_USER_AGENT, SDK_VERSION, DEFAULT_MAX_RETRY, DEFAULT_MIN_WAIT_MS};
use crate::internal::headers::opt_str_view;
use crate::internal::retry::{max_retry_message, RetryParams};
use crate::telemetry::{default_enabled_attributes, strings_view, TelemetryConfiguration};

verus! {

/// Configuration of the API client.
///
/// The HTTP client that sends the requests is not part of it: the transport
/// layer builds or receives one separately.
#[derive(Debug, Clone)]
pub struct Configuration {
    /// Full API base URL, e.g. `https://api.fga.example`.
    pub api_url: String,
    /// Authentication credentials.
    pub credentials: Option<Credentials>,
    /// Headers sent with every outgoing request.
    pub default_headers: HashMap<String, String>,
    /// `User-Agent` header value.
    pub user_agent: String,
    /// If `true`, log request/response details to stderr.
    pub debug: bool,
    /// Retry configuration.
    pub retry_params: Option<RetryParams>,
    /// Telemetry configuration.
    pub telemetry: Option<TelemetryConfiguration>,
}

impl Default for Configuration {
    fn default() -> (c: Self)
        ensures
            c.api_url@ == Seq::<char>::empty(),
            c.credentials is None,
            c.default_headers@ == Map::<String, String>::empty(),
            c.user_agent@ == DEFAULT_USER_AGENT@,
            !c.debug,
            c.retry_params is None,
            c.telemetry is None,
    {
        Configuration {
            api_url: String::new(),
            credentials: None,
            default_headers: HashMap::new(),
            user_agent: String::from_str(DEFAULT_USER_AGENT),
            debug: false,
            retry_params: None,
            telemetry: None,
        }
    }
}

/// The display text of the error with which `url::Url::parse` refuses a
/// text, or nothing when it accepts the text.
pub uninterp spec fn url_parse_error(text: Seq<char>) -> Option<Seq<char>>;

/// Calls `url::Url::parse` and returns the display text of its error, or
/// nothing when the text parses. The contract names the result and says
/// nothing more of it.
#[verifier::external_body]
fn url_parse_problem(text: &str) -> (r: Option<String>)
    ensures
        opt_str_view(r) == url_parse_error(text@),
{
    match url::Url::parse(text) {
        Ok(_) => None,
        Err(e) => Some(e.to_string()),
    }
}

/// The message for an API URL that does not parse.
pub open spec fn invalid_url_message(url: Seq<char>, problem: Seq<char>) -> Seq<char> {
    "api_url '"@ + url + "' is not a valid URL: "@ + problem
}

/// Why a configuration is refused, given what the URL parser says of its
/// `api_url` (its error text, or nothing when it parses), in the order the
/// checks are made: a missing URL, a URL that does not parse, retry
/// parameters out of range, incomplete credentials.
pub open spec fn configuration_problem_given(c: Configuration, url_problem: Option<Seq<char>>) -> Option<Seq<char>> {
    if c.api_url@.len() == 0 {
        Some("api_url is required"@)
    } else if url_problem is Some {
        Some(invalid_url_message(c.api_url@, url_problem->0))
    } else if c.retry_params matches Some(rp) && rp.max_retry > 15 {
        Some(max_retry_message(c.retry_params->0.max_retry as nat))
    } else if c.credentials is Some && credentials_problem(c.credentials->0) is Some {
        credentials_problem(c.credentials->0)
    } else {
        None
    }
}

/// Why a configuration is refused, with the URL parser's verdict on its
/// `api_url`.
pub open spec fn configuration_problem(c: Configuration) -> Option<Seq<char>> {
    configuration_problem_given(c, url_parse_error(c.api_url@))
}

/// The configuration that validation returns: a default user agent when
/// none was given, default retry parameters and telemetry when absent, and
/// everything else unchanged.
pub open spec fn completed_configuration(c: Configuration, r: Configuration) -> bool {
    &&& r.api_url == c.api_url
    &&& r.credentials == c.credentials
    &&& r.default_headers@ == c.default_headers@
    &&& r.user_agent@ == (if c.user_agent@.len() == 0 { DEFAULT_USER_AGENT@ } else { c.user_agent@ })
    &&& r.debug == c.debug
    &&& r.retry_params == (match c.retry_params {
        Some(p) => Some(p),
        None => Some(RetryParams { max_retry: DEFAULT_MAX_RETRY, min_wait_ms: DEFAULT_MIN_WAIT_MS }),
    })
    &&& match c.telemetry {
        Some(t) => r.telemetry == Some(t),
        None => r.telemetry matches Some(t) && t.metrics.all_metrics_on()
            && strings_view(t.metrics.enabled_attributes@) == default_enabled_attributes(),
    }
}

impl Configuration {
    /// Validates a configuration and fills in its defaults.
    ///
    /// Refused, as [`OpenFgaError::Configuration`], when `api_url` is empty
    /// or not a valid URL, or when the retry parameters or the credentials
    /// fail validation.
    pub fn new(cfg: Configuration) -> (r: Result<Configuration, OpenFgaError>)
        ensures
            match configuration_problem(cfg) {
                Some(msg) => r matches Err(OpenFgaError::Configuration(m)) && m@ == msg,
                None => r matches Ok(c) && completed_configuration(cfg, c),
            },
    {
        if cfg.api_url.as_str().is_empty() {
            return Self::validated(cfg, None);
        }
        let problem = url_parse_problem(cfg.api_url.as_str());
        Self::validated(cfg, problem)
    }

    /// Validates a configuration whose `api_url` the URL parser judged as
    /// `url_problem` (its error text, or nothing when it parses), and fills
    /// in its defaults.
    pub fn validated(cfg: Configuration, url_problem: Option<String>) -> (r: Result<Configuration, OpenFgaError>)
        ensures
            match configuration_problem_given(cfg, opt_str_view(url_problem)) {
                Some(msg) => r matches Err(OpenFgaError::Configuration(m)) && m@ == msg,
                None => r matches Ok(c) && completed_configuration(cfg, c),
            },
    {
        let mut cfg = cfg;
        if cfg.api_url.as_str().is_empty() {
            return Err(OpenFgaError::Configuration(String::from_str("api_url is required")));
        }
        match url_problem {
            Some(problem) => {
                let mut msg = String::from_str("api_url '");
                msg.append(cfg.api_url.as_str());
                msg.append("' is not a valid URL: ");
                msg.append(problem.as_str());
                return Err(OpenFgaError::Configuration(msg));
            },
            None => {},
        }
        if cfg.user_agent.as_str().is_empty() {
            cfg.user_agent = String::from_str(DEFAULT_USER_AGENT);
        }
        match cfg.retry_params {
            Some(rp) => {
                match rp.validate() {
                    Err(e) => {
                        return Err(OpenFgaError::Configuration(e));
                    },
                    Ok(()) => {},
                }
            },
            None => {
                cfg.retry_params = Some(RetryParams::default());
            },
        }
        match &cfg.credentials {
            Some(creds) => {
                match creds.validate() {
                    Err(e) => {
                        return Err(OpenFgaError::Configuration(e));
                    },
                    Ok(()) => {},
                }
            },
            None => {},
        }
        if cfg.telemetry.is_none() {
            cfg.telemetry = Some(TelemetryConfiguration::default());
        }
        Ok(cfg)
    }

    pub fn get_retry_params(&self) -> (p: RetryParams)
        ensures
            p == (match self.retry_params {
                Some(q) => q,
                None => RetryParams { max_retry: DEFAULT_MAX_RETRY, min_wait_ms: DEFAULT_MIN_WAIT_MS },
            }),
    {
        match self.retry_params {
            Some(p) => p,
            None => RetryParams::default(),
        }
    }

    /// Adds a default header to be sent with all requests.
    pub fn add_default_header(&mut self, key: &str, value: &str)
        ensures
            obeys_key_model::<String>() ==> exists|k: String, v: String| k@ == key@ && v@ == value@
                && final(self).default_headers@ == old(self).default_headers@.insert(k, v),
            final(self).api_url == old(self).api_url,
            final(self).credentials == old(self).credentials,
            final(self).user_agent == old(self).user_agent,
            final(self).debug == old(self).debug,
            final(self).retry_params == old(self).retry_params,
            final(self).telemetry == old(self).telemetry,
    {
        let k = String::from_str(key);
        let v = String::from_str(value);
        self.default_headers.insert(k, v);
    }

    /// The library version.
    pub fn sdk_version() -> (v: &'static str)
        ensures
            v@ == SDK_VERSION@,
    {
        SDK_VERSION
    }
}


/// A configuration is accepted exactly when every part of it is valid: a
/// non-empty API URL that the URL parser accepts, retry parameters (if any)
/// with `max_retry` at most 15, and credentials (if any) that validate,
/// whatever their method. When only the credentials fail, their own
/// validation message is the configuration's.
pub proof fn lemma_configuration_accepted_iff_parts_valid(c: Configuration, url_problem: Option<Seq<char>>)
    ensures
        configuration_problem_given(c, url_problem) is None <==> {
            &&& c.api_url@.len() > 0
            &&& url_problem is None
            &&& (c.retry_params matches Some(rp) ==> rp.max_retry <= 15)
            &&& (c.credentials matches Some(cr) ==> credentials_problem(cr) is None)
        },
        c.api_url@.len() > 0 && url_problem is None && (c.retry_params matches Some(rp) ==> rp.max_retry <= 15)
            && c.credentials is Some && credentials_problem(c.credentials->0) is Some
            ==> configuration_problem_given(c, url_problem) == credentials_problem(c.credentials->0),
{
}

} // verus!
