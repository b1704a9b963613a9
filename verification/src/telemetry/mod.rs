//! Telemetry configuration and metric naming.

pub mod attributes;
pub mod metrics;

use vstd::prelude::*;
use vstd::string::*;

verus! {

/// Top-level telemetry configuration.
#[derive(Debug)]
pub struct TelemetryConfiguration {
    /// Metric-level configuration.
    pub metrics: MetricsConfiguration,
}

/// Configures which metrics and attributes are emitted.
#[derive(Debug)]
pub struct MetricsConfiguration {
    /// Enable `fga_client_request_duration` histogram.
    pub request_duration: bool,
    /// Enable `fga_client_query_duration` histogram.
    pub query_duration: bool,
    /// Enable `fga_client_request_count` counter.
    pub request_count: bool,
    /// Enable `http_client_request_duration` histogram.
    pub http_request_duration: bool,
    /// Attributes to include. High-cardinality attributes such as
    /// `"url.full"` and `"fga_client.user"` are left out by default.
    pub enabled_attributes: Vec<String>,
}

/// The attributes enabled by default: every attribute but the
/// high-cardinality ones.
pub open spec fn default_enabled_attributes() -> Seq<Seq<char>> {
    seq![
        "http.host"@,
        "http.request.method"@,
        "http.response.status_code"@,
        "user_agent.original"@,
        "fga_client.request.client_id"@,
        "fga_client.request.method"@,
        "fga_client.request.model_id"@,
        "fga_client.request.store_id"@,
        "fga_client.response.model_id"@,
    ]
}

/// The view of a list of strings.
pub open spec fn strings_view(v: Seq<String>) -> Seq<Seq<char>> {
    v.map_values(|s: String| s@)
}

impl MetricsConfiguration {
    /// Every metric is on.
    pub open spec fn all_metrics_on(&self) -> bool {
        self.request_duration && self.query_duration && self.request_count && self.http_request_duration
    }
}

impl MetricsConfiguration {
    /// The same switches and the same attribute names.
    pub open spec fn same_as(&self, other: &Self) -> bool {
        &&& self.request_duration == other.request_duration
        &&& self.query_duration == other.query_duration
        &&& self.request_count == other.request_count
        &&& self.http_request_duration == other.http_request_duration
        &&& self.enabled_attributes@ == other.enabled_attributes@
    }
}

impl Clone for MetricsConfiguration {
    fn clone(&self) -> (m: Self)
        ensures
            m.same_as(self),
    {
        let mut enabled_attributes: Vec<String> = Vec::new();
        let n = self.enabled_attributes.len();
        let mut i: usize = 0;
        while i < n
            invariant
                i <= n,
                n == self.enabled_attributes@.len(),
                enabled_attributes@ == self.enabled_attributes@.take(i as int),
            decreases n - i,
        {
            enabled_attributes.push(self.enabled_attributes[i].clone());
            i = i + 1;
            assert(enabled_attributes@ =~= self.enabled_attributes@.take(i as int));
        }
        assert(self.enabled_attributes@.take(n as int) =~= self.enabled_attributes@);
        MetricsConfiguration {
            request_duration: self.request_duration,
            query_duration: self.query_duration,
            request_count: self.request_count,
            http_request_duration: self.http_request_duration,
            enabled_attributes,
        }
    }
}

impl Clone for TelemetryConfiguration {
    fn clone(&self) -> (t: Self)
        ensures
            t.metrics.same_as(&self.metrics),
    {
        TelemetryConfiguration { metrics: self.metrics.clone() }
    }
}

impl Default for MetricsConfiguration {
    fn default() -> (m: Self)
        ensures
            m.all_metrics_on(),
            strings_view(m.enabled_attributes@) == default_enabled_attributes(),
    {
        let mut enabled_attributes: Vec<String> = Vec::new();
        enabled_attributes.push(String::from_str(attributes::HTTP_HOST));
        enabled_attributes.push(String::from_str(attributes::HTTP_REQUEST_METHOD));
        enabled_attributes.push(String::from_str(attributes::HTTP_RESPONSE_STATUS_CODE));
        enabled_attributes.push(String::from_str(attributes::USER_AGENT_ORIGINAL));
        enabled_attributes.push(String::from_str(attributes::FGA_CLIENT_REQUEST_CLIENT_ID));
        enabled_attributes.push(String::from_str(attributes::FGA_CLIENT_REQUEST_METHOD));
        enabled_attributes.push(String::from_str(attributes::FGA_CLIENT_REQUEST_MODEL_ID));
        enabled_attributes.push(String::from_str(attributes::FGA_CLIENT_REQUEST_STORE_ID));
        enabled_attributes.push(String::from_str(attributes::FGA_CLIENT_RESPONSE_MODEL_ID));
        let m = MetricsConfiguration {
            request_duration: true,
            query_duration: true,
            request_count: true,
            http_request_duration: true,
            enabled_attributes,
        };
        assert(strings_view(m.enabled_attributes@) =~= default_enabled_attributes());
        m
    }
}

impl Default for TelemetryConfiguration {
    fn default() -> (t: Self)
        ensures
            t.metrics.all_metrics_on(),
            strings_view(t.metrics.enabled_attributes@) == default_enabled_attributes(),
    {
        TelemetryConfiguration { metrics: MetricsConfiguration::default() }
    }
}

/// A recorder that records nothing, used when metrics are not exported.
#[derive(Debug, Clone, Copy)]
pub struct NoopTelemetry;

impl Default for NoopTelemetry {
    fn default() -> (t: Self) {
        NoopTelemetry
    }
}

impl NoopTelemetry {
    /// Records a request count (does nothing).
    pub fn record_request_count(&self, _operation: &str, _store_id: &str) {
    }
}

} // verus!
