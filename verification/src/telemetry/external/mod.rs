//! No-network external OTEL facade: exporter construction, providers,
//! redaction pipelines and background workers are absent.
use crate::time::Duration;
use vstd::prelude::*;

pub mod config;
pub mod schema;

verus! {

/// Identity attributes that would have labeled exported records.
#[derive(Debug, Clone, Default)]
pub struct IdentityAttrs {
    pub user_id: Option<String>,
    pub organization_id: Option<String>,
    pub team_id: Option<String>,
    pub deployment_id: Option<String>,
}

/// A remote policy that would have constrained external export.
#[derive(Debug, Clone, Copy, Default, PartialEq, Eq, Structural)]
pub struct ExternalOtelRemotePolicy {
    pub force_disable: bool,
    pub lock_content_gates: bool,
}

/// Handle type of the removed exporter.
pub struct ExternalTelemetry;

/// Export health counters.
#[derive(Debug, Clone, Copy, PartialEq, Eq, Default, Structural)]
pub struct ExportHealthSnapshot {
    pub records_dropped: u64,
    pub metric_exports_dropped: u64,
    pub export_failures: u64,
    pub export_successes: u64,
}

/// Initialization does nothing, whatever the configuration.
pub fn init(_cfg: Option<config::ExternalOtelConfig>) {
}

/// Setting the maximum wait has no effect.
pub fn set_settings_gate_max_wait(_max_wait: Duration) {
}

/// The settings gate never waits.
pub fn settings_gate_max_wait() -> (d: Duration)
    ensures
        d.secs_of() == 0 && d.nanos_of() == 0,
{
    Duration::zero()
}

/// Nothing to suppress.
pub fn suppress_external_otel_until_settings() {
}

/// Nothing to release.
pub fn mark_external_otel_settings_resolved() {
}

/// The settings gate never opens.
pub fn is_settings_gate_open() -> (res: bool)
    ensures
        !res,
{
    false
}

/// External export is never active.
pub fn is_active() -> (res: bool)
    ensures
        !res,
{
    false
}

/// Events are dropped unmapped.
pub fn emit<T>(_data: &T) {
}

/// Identity is not recorded.
pub fn set_identity(_attrs: IdentityAttrs) {
}

/// Remote policy is ignored.
pub fn apply_remote_policy(_policy: ExternalOtelRemotePolicy) {
}

/// Nothing to flush.
pub fn flush() {
}

/// Nothing to shut down.
pub fn shutdown() {
}

/// There is no exporter to report on.
pub fn export_health() -> (res: Option<ExportHealthSnapshot>)
    ensures
        res is None,
{
    None
}

} // verus!
