//! Inert workspace upload symbols: none can create a client, queue worker,
//! spill file or request.
use crate::file_utils::queue::{TraceExportSource, UploadQueue};
use crate::file_utils::upload_config::{is_unset_config, unset_config, TraceExportConfig};
use crate::file_utils::{data_uploads_removed_error, UploadsRemovedError};
use std::sync::Arc;
use vstd::prelude::*;

verus! {

/// Upload outcomes are not recorded.
pub fn record_upload_outcome(_phase: &str, _outcome: &str) {
}

/// Upload failures are not recorded.
pub fn record_upload_failed(_phase: &str, _error_category: &str) {
}

/// Skipped uploads are not recorded.
pub fn record_upload_skipped(_phase: &str, _skip_reason: &str) {
}

/// No upload metrics exist to register.
pub fn init_metrics() {
}

/// Inert replacement for the removed proxy-backed storage configuration.
pub struct ProxyStorageConfig;

impl ProxyStorageConfig {
    /// Credentials, base URL and identity are all dropped.
    pub fn new<A, I>(_auth: A, _api_base_url: String, _identity: I) -> (c: Self)
        ensures
            c == ProxyStorageConfig,
    {
        ProxyStorageConfig
    }
}

/// Inert resolver retained for callers that still construct one.
pub struct WorkspaceTraceExportSource;

impl WorkspaceTraceExportSource {
    /// The storage configuration is dropped.
    pub fn new(_proxy_storage_config: Arc<ProxyStorageConfig>) -> (s: Self)
        ensures
            s == WorkspaceTraceExportSource,
    {
        WorkspaceTraceExportSource
    }
}

impl TraceExportSource for WorkspaceTraceExportSource {
    /// Always the configuration with nothing set.
    fn resolve(&self) -> (c: TraceExportConfig)
        ensures
            is_unset_config(c),
    {
        unset_config()
    }
}

/// Tool state is never queued for upload.
pub fn upload_tool_state_queued(
    _state_bytes: Vec<u8>,
    _session_id: String,
    _turn_number: u64,
    _upload_queue: Arc<UploadQueue>,
) -> (r: Result<(), UploadsRemovedError>)
    ensures
        r == Err::<(), UploadsRemovedError>(UploadsRemovedError),
{
    Err(data_uploads_removed_error())
}

} // verus!
