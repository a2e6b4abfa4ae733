//! Telemetry facades: every emitter, exporter and sender is compiled out,
//! and no configuration or environment can switch one on.
use vstd::prelude::*;

pub mod client;
pub mod config;
pub mod external;
pub mod otel_layer;
pub mod sentry;
pub mod session_ctx;
pub mod startup;

verus! {

/// Network telemetry is not compiled into this build.
pub const NETWORK_TELEMETRY_COMPILED_IN: bool = false;

} // verus!
