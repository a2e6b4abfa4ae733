//! Inert telemetry configuration: legacy fields still deserialize, but
//! build-time values, environment overrides, endpoints, tokens and feature
//! selections cannot activate telemetry.
use crate::text::{owned, trims_to_empty, is_blank};
use vstd::prelude::*;

verus! {

/// Telemetry modes. Every mode behaves as disabled.
#[derive(Debug, Clone, Copy, PartialEq, Eq, Structural)]
pub enum TelemetryMode {
    Disabled,
    SessionMetrics,
    Enabled,
}

impl Default for TelemetryMode {
    fn default() -> (m: TelemetryMode)
        ensures
            m == TelemetryMode::Disabled,
    {
        TelemetryMode::Disabled
    }
}

impl TelemetryMode {
    /// Every mode is disabled.
    pub fn is_disabled(&self) -> (res: bool)
        ensures
            res,
    {
        true
    }

    /// No mode is enabled.
    pub fn is_enabled(&self) -> (res: bool)
        ensures
            !res,
    {
        false
    }

    /// No mode collects session metrics.
    pub fn session_metrics_enabled(&self) -> (res: bool)
        ensures
            !res,
    {
        false
    }

    /// Any non-blank setting parses, and parses to `Disabled`; a blank one
    /// is no setting.
    pub fn parse(raw: &str) -> (res: Option<TelemetryMode>)
        ensures
            res == (if is_blank(raw@) {
                None
            } else {
                Some(TelemetryMode::Disabled)
            }),
    {
        if trims_to_empty(raw) {
            None
        } else {
            Some(TelemetryMode::Disabled)
        }
    }

    /// Display text: every mode reads `false`.
    pub fn to_string(&self) -> (res: String)
        ensures
            res@ == "false"@,
    {
        owned("false")
    }
}

impl From<bool> for TelemetryMode {
    fn from(_value: bool) -> (m: TelemetryMode) {
        TelemetryMode::Disabled
    }
}

impl vstd::std_specs::convert::FromSpecImpl<bool> for TelemetryMode {
    open spec fn obeys_from_spec() -> bool {
        true
    }

    open spec fn from_spec(v: bool) -> TelemetryMode {
        TelemetryMode::Disabled
    }
}

/// Whatever the environment holds, the mode read from it is `Disabled`.
pub fn env_telemetry_mode(_name: &str) -> (res: Option<TelemetryMode>)
    ensures
        res == Some(TelemetryMode::Disabled),
{
    Some(TelemetryMode::Disabled)
}

/// Legacy telemetry settings.
#[derive(Debug, Clone)]
pub struct TelemetryConfig {
    pub enabled: Option<bool>,
    pub events_url: Option<String>,
    pub events_api_key: Option<String>,
    pub mixpanel_token: Option<String>,
    pub mixpanel_enabled: bool,
    pub trace_upload: Option<bool>,
    pub otel_enabled: Option<bool>,
    pub otel_metrics_exporter: Option<String>,
    pub otel_logs_exporter: Option<String>,
    pub otel_endpoint: Option<String>,
    pub otel_protocol: Option<String>,
    pub otel_certificate: Option<String>,
    pub otel_client_certificate: Option<String>,
    pub otel_client_key: Option<String>,
    pub otel_log_user_prompts: Option<bool>,
    pub otel_log_tool_details: Option<bool>,
}

/// The default settings: every switch off, no endpoint, token or key.
pub open spec fn is_default_config(c: TelemetryConfig) -> bool {
    &&& c.enabled == Some(false)
    &&& c.events_url is None
    &&& c.events_api_key is None
    &&& c.mixpanel_token is None
    &&& !c.mixpanel_enabled
    &&& c.trace_upload == Some(false)
    &&& c.otel_enabled == Some(false)
    &&& c.otel_metrics_exporter is None
    &&& c.otel_logs_exporter is None
    &&& c.otel_endpoint is None
    &&& c.otel_protocol is None
    &&& c.otel_certificate is None
    &&& c.otel_client_certificate is None
    &&& c.otel_client_key is None
    &&& c.otel_log_user_prompts == Some(false)
    &&& c.otel_log_tool_details == Some(false)
}

impl Default for TelemetryConfig {
    fn default() -> (c: TelemetryConfig)
        ensures
            is_default_config(c),
    {
        TelemetryConfig {
            enabled: Some(false),
            events_url: None,
            events_api_key: None,
            mixpanel_token: None,
            mixpanel_enabled: false,
            trace_upload: Some(false),
            otel_enabled: Some(false),
            otel_metrics_exporter: None,
            otel_logs_exporter: None,
            otel_endpoint: None,
            otel_protocol: None,
            otel_certificate: None,
            otel_client_certificate: None,
            otel_client_key: None,
            otel_log_user_prompts: Some(false),
            otel_log_tool_details: Some(false),
        }
    }
}

impl TelemetryConfig {
    /// Environment overrides cannot switch anything on: the settings are
    /// reset to the defaults, whatever they were.
    pub fn apply_env_overrides(&mut self)
        ensures
            is_default_config(*final(self)),
    {
        *self = TelemetryConfig::default();
    }
}

/// The deployment id that uuid v5 (OID namespace) gives for a key, in
/// hyphenated lower-case form.
pub uninterp spec fn deployment_id_for(key: Seq<char>) -> Seq<char>;

/// Calls `uuid::Uuid::new_v5(&Uuid::NAMESPACE_OID, key.as_bytes())` and
/// formats it with `to_string`. Trusted: the text is the named function of
/// the key, and is 36 characters long (the crate's hyphenated form).
#[verifier::external_body]
fn uuid_v5_oid(key: &str) -> (res: String)
    ensures
        res@ == deployment_id_for(key@),
        res@.len() == 36,
{
    uuid::Uuid::new_v5(&uuid::Uuid::NAMESPACE_OID, key.as_bytes()).to_string()
}

/// A deployment id derived locally and deterministically from its key.
pub fn deployment_id_from_key(key: &str) -> (res: String)
    ensures
        res@ == deployment_id_for(key@),
        res@.len() == 36,
{
    uuid_v5_oid(key)
}

} // verus!
