//! No-upload storage configuration adapter.
use crate::file_utils::gcs::{config_bucket_url, StorageConfig};
use crate::file_utils::upload_config::{copy_config, TraceExportConfig, UploadMethod};
use vstd::prelude::*;

verus! {

/// A trace-export configuration with (discarded) authentication.
#[derive(Clone)]
pub struct TraceExportConfigWithAuth {
    inner: TraceExportConfig,
}

impl TraceExportConfigWithAuth {
    /// The wrapped configuration.
    pub closed spec fn inner_view(&self) -> TraceExportConfig {
        self.inner
    }

    /// Wrap a configuration; the auth manager is dropped.
    pub fn new<A>(inner: TraceExportConfig, _auth_manager: Option<A>) -> (c: TraceExportConfigWithAuth)
        ensures
            c.inner_view() == inner,
    {
        TraceExportConfigWithAuth { inner }
    }
}

impl StorageConfig for TraceExportConfigWithAuth {
    fn bucket_url(&self) -> (res: &str)
        ensures
            res@ == config_bucket_url(self.inner_view()),
    {
        self.inner.bucket_url()
    }

    fn upload_method(&self) -> (res: &UploadMethod)
        ensures
            res == &self.inner_view().upload_method,
    {
        self.inner.upload_method()
    }
}

/// Attaching (discarded) authentication to a configuration.
pub trait WithAuth {
    fn with_auth<A>(&self, auth_manager: Option<A>) -> TraceExportConfigWithAuth;
}

impl WithAuth for TraceExportConfig {
    /// A copy of the configuration, wrapped; the auth manager is dropped.
    fn with_auth<A>(&self, auth_manager: Option<A>) -> (c: TraceExportConfigWithAuth)
        ensures
            c.inner_view() == *self,
    {
        TraceExportConfigWithAuth::new(copy_config(self), auth_manager)
    }
}

/// No session-trace bucket exists.
pub fn session_traces_bucket() -> (res: Option<&'static str>)
    ensures
        res is None,
{
    None
}

/// Auth diagnostics are not uploaded.
pub fn upload_to_auth_diagnostics<M, A>(_log_bytes: &[u8], _user_id: &str, _upload_method: &M, _auth_manager: A) {
}

} // verus!
