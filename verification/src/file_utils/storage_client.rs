//! No-network replacement for the proxy storage client.
use super::UploadsRemovedError;
use vstd::prelude::*;

verus! {

/// A storage client with no transport behind it.
#[derive(Clone, Copy, Debug, Default)]
pub struct StorageClient;

impl StorageClient {
    /// The endpoint and token are discarded.
    pub fn new(_proxy_base_url: &str, _user_token: &str) -> (c: StorageClient)
        ensures
            c == StorageClient,
    {
        StorageClient
    }

    /// The storage circuit breaker is permanently open.
    pub fn storage_breaker_is_open(&self) -> (open: bool)
        ensures
            open,
    {
        true
    }

    /// Removed: would download a blob to `_dest`.
    pub fn download_blob(&self, _storage_path: &str, _dest: &str) -> (res: Result<
        (),
        UploadsRemovedError,
    >)
        ensures
            res == Err::<(), UploadsRemovedError>(UploadsRemovedError),
    {
        Err(UploadsRemovedError)
    }

    /// Removed: would upload `_content`.
    pub fn upload(&self, _path: &str, _content: &[u8], _content_type: &str) -> (res: Result<
        (),
        UploadsRemovedError,
    >)
        ensures
            res == Err::<(), UploadsRemovedError>(UploadsRemovedError),
    {
        Err(UploadsRemovedError)
    }
}

} // verus!
