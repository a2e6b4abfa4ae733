//! No-network telemetry client: the product-event sender is absent.
use super::config::{TelemetryConfig, TelemetryMode};
use vstd::prelude::*;

verus! {

/// A client that sends nothing.
#[derive(Clone, Copy, Debug, Default, PartialEq, Eq, Structural)]
pub struct TelemetryClient;

impl TelemetryClient {
    /// Every setting and identity is discarded.
    pub fn from_config<O, T>(
        _config: TelemetryConfig,
        _mode: TelemetryMode,
        _user_id: Option<String>,
        _team_id: Option<String>,
        _deployment_key: Option<String>,
        _origin_client: Option<O>,
        _shell_version: String,
        _subscription_tier: Option<String>,
        _http_client: T,
    ) -> (c: TelemetryClient)
        ensures
            c == TelemetryClient,
    {
        TelemetryClient
    }
}

/// Telemetry is never enabled.
pub fn is_enabled() -> (res: bool)
    ensures
        !res,
{
    false
}

/// Session metrics are never enabled.
pub fn is_session_metrics_enabled() -> (res: bool)
    ensures
        !res,
{
    false
}

/// Locale facts that would have accompanied events.
#[derive(Debug, Clone, Default)]
pub struct UserContext {
    pub country: String,
    pub language: String,
    pub timestamp: String,
}

impl UserContext {
    /// Nothing is collected: every field is empty.
    pub fn collect() -> (c: UserContext)
        ensures
            c.country@.len() == 0,
            c.language@.len() == 0,
            c.timestamp@.len() == 0,
    {
        UserContext { country: String::new(), language: String::new(), timestamp: String::new() }
    }
}

/// No event key is reserved: the list is empty.
pub fn reserved_event_keys() -> (res: Vec<&'static str>)
    ensures
        res@.len() == 0,
{
    Vec::new()
}

/// Events are dropped.
pub fn track<M>(_event_name: &str, _request_id: &str, _ctx: &UserContext, _metadata: M) {
}

/// No telemetry mode is active.
pub fn current_mode() -> (res: Option<TelemetryMode>)
    ensures
        res is None,
{
    None
}

/// No profile is synchronized.
pub fn sync_profile() {
}

/// Initialization does nothing.
pub fn init<O, T>(
    _config: TelemetryConfig,
    _mode: TelemetryMode,
    _user_id: Option<String>,
    _team_id: Option<String>,
    _deployment_key: Option<String>,
    _origin_client: Option<O>,
    _shell_version: String,
    _subscription_tier: Option<String>,
    _http_client: T,
) {
}

/// Initialization does nothing.
pub fn init_if_needed<O, T>(
    _config: TelemetryConfig,
    _mode: TelemetryMode,
    _user_id: Option<String>,
    _team_id: Option<String>,
    _deployment_key: Option<String>,
    _origin_client: Option<O>,
    _shell_version: String,
    _subscription_tier: Option<String>,
    _http_client: T,
) {
}

} // verus!
