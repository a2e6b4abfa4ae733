//! No-export tracing layer settings.
use crate::time::Duration;
use vstd::prelude::*;

verus! {

/// Client identification for the removed trace exporter.
#[derive(Debug, Clone, Copy)]
pub struct OtelClientInfo {
    pub client_name: &'static str,
    pub client_version: &'static str,
    pub service_version: &'static str,
    pub app_entrypoint: &'static str,
}

/// Settings of the removed trace exporter.
#[derive(Debug, Default, Clone)]
pub struct OtelExporterConfig {
    pub traces_url: String,
    pub extra_headers: Vec<(String, String)>,
    pub export_interval: Option<Duration>,
    pub timeout: Option<Duration>,
    pub enabled: bool,
}

/// Shutting down the (absent) exporter does nothing.
pub fn shutdown_otel() {
    crate::telemetry::external::shutdown();
}

/// Guard for the (absent) exporter.
pub struct OtelGuard;

/// A guard; dropping it has nothing to shut down.
pub fn otel_guard() -> (g: OtelGuard)
    ensures
        g == OtelGuard,
{
    OtelGuard
}

} // verus!
