//! Compile-time-disabled external telemetry configuration: every resolver
//! returns `None`.
use crate::time::Duration;
use vstd::prelude::*;

verus! {

/// Name of the environment switch that no longer does anything.
pub const ENV_MASTER_SWITCH: &'static str = "GROK_EXTERNAL_OTEL";

/// OTLP transports.
#[derive(Debug, Clone, Copy, PartialEq, Eq, Structural)]
pub enum OtlpTransport {
    HttpProtobuf,
    Grpc,
}

impl Default for OtlpTransport {
    fn default() -> (t: OtlpTransport)
        ensures
            t == OtlpTransport::HttpProtobuf,
    {
        OtlpTransport::HttpProtobuf
    }
}

impl OtlpTransport {
    /// The protocol name of a transport.
    pub fn as_protocol_str(self) -> (res: &'static str)
        ensures
            res@ == (match self {
                OtlpTransport::HttpProtobuf => "http/protobuf"@,
                OtlpTransport::Grpc => "grpc"@,
            }),
    {
        match self {
            OtlpTransport::HttpProtobuf => "http/protobuf",
            OtlpTransport::Grpc => "grpc",
        }
    }
}

/// Exporter choices.
#[derive(Debug, Clone, Copy, PartialEq, Eq, Structural)]
pub enum ExporterSelection {
    NoExporter,
    Otlp,
    Console,
}

impl Default for ExporterSelection {
    fn default() -> (e: ExporterSelection)
        ensures
            e == ExporterSelection::NoExporter,
    {
        ExporterSelection::NoExporter
    }
}

impl ExporterSelection {
    /// No selection is ever active.
    pub fn is_active(self) -> (res: bool)
        ensures
            !res,
    {
        false
    }
}

/// Which content would be logged.
#[derive(Debug, Clone, Copy, Default, PartialEq, Eq, Structural)]
pub struct ContentGates {
    pub log_user_prompts: bool,
    pub log_tool_details: bool,
}

/// Metric temporality.
#[derive(Debug, Clone, Copy, PartialEq, Eq, Structural)]
pub enum TemporalityPreference {
    Delta,
    Cumulative,
}

impl Default for TemporalityPreference {
    fn default() -> (t: TemporalityPreference)
        ensures
            t == TemporalityPreference::Delta,
    {
        TemporalityPreference::Delta
    }
}

/// Client identification for exported records.
#[derive(Debug, Clone, Default)]
pub struct ExternalClientInfo {
    pub service_version: String,
    pub client_version: String,
    pub app_entrypoint: String,
}

/// File-level external OTEL settings (still readable, never acted on).
#[derive(Debug, Clone, Default)]
pub struct ExternalOtelFileConfig {
    pub enabled: Option<bool>,
    pub metrics_exporter: Option<String>,
    pub logs_exporter: Option<String>,
    pub endpoint: Option<String>,
    pub protocol: Option<String>,
    pub certificate: Option<String>,
    pub client_certificate: Option<String>,
    pub client_key: Option<String>,
    pub log_user_prompts: Option<bool>,
    pub log_tool_details: Option<bool>,
}

/// A resolved exporter configuration. None is ever resolved.
#[derive(Debug, Clone)]
pub struct ExternalOtelConfig {
    pub metrics_exporter: ExporterSelection,
    pub logs_exporter: ExporterSelection,
    pub logs_transport: OtlpTransport,
    pub metrics_transport: OtlpTransport,
    pub logs_endpoint: String,
    pub metrics_endpoint: String,
    pub logs_headers: Vec<(String, String)>,
    pub metrics_headers: Vec<(String, String)>,
    pub logs_ca_certificate: Option<String>,
    pub metrics_ca_certificate: Option<String>,
    pub logs_client_certificate: Option<String>,
    pub logs_client_key: Option<String>,
    pub metrics_client_certificate: Option<String>,
    pub metrics_client_key: Option<String>,
    pub timeout: Duration,
    pub metric_export_interval: Duration,
    pub logs_export_interval: Duration,
    pub gates: ContentGates,
    pub temporality: TemporalityPreference,
    pub include_session_id_on_metrics: bool,
    pub include_version_on_metrics: bool,
    pub client: ExternalClientInfo,
    pub internal_pipeline_consumed_otel_vars: bool,
    pub enabled_source: &'static str,
}

impl ExternalOtelConfig {
    /// No file setting activates export.
    pub fn resolve(_file: Option<&ExternalOtelFileConfig>) -> (res: Option<ExternalOtelConfig>)
        ensures
            res is None,
    {
        None
    }

    /// Neither the environment (never consulted) nor the file activates
    /// export.
    pub fn resolve_with<F>(_getenv: F, _file: Option<&ExternalOtelFileConfig>) -> (res: Option<
        ExternalOtelConfig,
    >)
        ensures
            res is None,
    {
        None
    }
}

/// Header lists are not parsed: no header is ever produced.
pub fn parse_header_list(_raw: &str) -> (res: Vec<(String, String)>)
    ensures
        res@.len() == 0,
{
    Vec::new()
}

} // verus!
