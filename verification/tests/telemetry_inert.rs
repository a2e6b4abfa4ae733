use grok_privacy::telemetry::client::{current_mode, is_enabled, is_session_metrics_enabled};
use grok_privacy::telemetry::config::{env_telemetry_mode, TelemetryConfig, TelemetryMode};
use grok_privacy::telemetry::external::config::{
    parse_header_list, ExporterSelection, ExternalOtelConfig,
};
use grok_privacy::telemetry::external::schema::ExternalRecord;
use grok_privacy::telemetry::external::{export_health, is_active, is_settings_gate_open};
use grok_privacy::telemetry::sentry;
use grok_privacy::telemetry::session_ctx::{cli_drain, drain_pending};
use grok_privacy::telemetry::NETWORK_TELEMETRY_COMPILED_IN;
use grok_privacy::time::Duration;

#[test]
fn telemetry_is_compile_time_inert() {
    assert!(!is_enabled());
    assert!(!is_session_metrics_enabled());
    assert!(current_mode().is_none());
}

#[test]
fn all_modes_and_inputs_collapse_to_disabled() {
    for value in ["true", "session_metrics", "false", "arbitrary"] {
        assert_eq!(TelemetryMode::parse(value), Some(TelemetryMode::Disabled));
    }
    assert_eq!(TelemetryMode::from(true), TelemetryMode::Disabled);
    assert_eq!(env_telemetry_mode("IGNORED"), Some(TelemetryMode::Disabled));

    let cfg = TelemetryConfig::default();
    assert_eq!(cfg.enabled, Some(false));
    assert_eq!(cfg.trace_upload, Some(false));
    assert_eq!(cfg.otel_enabled, Some(false));
    assert!(!cfg.mixpanel_enabled);
}

#[test]
fn every_activation_path_is_removed() {
    assert!(ExternalOtelConfig::resolve(None).is_none());
    assert!(ExternalOtelConfig::resolve_with(|_: &str| Some(String::from("1")), None).is_none());
    assert!(!ExporterSelection::Otlp.is_active());
    assert!(parse_header_list("authorization=secret").is_empty());
}

#[test]
fn external_export_is_permanently_inert() {
    assert!(!is_active());
    assert!(!is_settings_gate_open());
    assert!(export_health().is_none());
}

#[test]
fn external_record_carries_no_data() {
    assert_eq!(std::mem::size_of::<ExternalRecord>(), 0);
}

#[test]
fn exporter_marker_is_off() {
    assert!(!NETWORK_TELEMETRY_COMPILED_IN);
}

#[test]
fn sentry_guard_is_local_only() {
    let _guard = sentry::init(sentry::Config {
        client: "test",
        client_version: "test",
        release: "test",
        disabled: false,
    });
    sentry::flush_on_shutdown();
}

#[test]
fn session_facade_has_no_pending_network_work() {
    drain_pending(Duration::zero());
    assert_eq!(cli_drain(), Duration::zero());
}
