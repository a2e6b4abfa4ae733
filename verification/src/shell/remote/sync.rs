//! Removed remote session synchronization worker.
use super::client::BackendClient;
use vstd::prelude::*;

verus! {

/// A synchronizer that records and sends nothing.
#[derive(Clone, Copy, Debug, Default, PartialEq, Eq, Structural)]
pub struct RemoteSync;

impl RemoteSync {
    /// Session id, metadata and client are dropped.
    pub fn new<M, A>(_session_id: String, _metadata: M, _client: BackendClient<A>) -> (s: RemoteSync)
        ensures
            s == RemoteSync,
    {
        RemoteSync
    }

    /// Notifications are dropped.
    pub fn queue<N>(&self, _notification: N) {
    }

    /// Nothing to flush.
    pub fn flush(&self) {
    }

    /// The title is not recorded.
    pub fn set_title(&self, _title: String) {
    }

    /// The title is not recorded.
    pub fn set_manual_title(&self, _title: String) {
    }

    /// Nothing to clear.
    pub fn clear_title(&self) {
    }

    /// The model id is not recorded.
    pub fn set_model_id(&self, _model_id: String) {
    }
}

} // verus!
