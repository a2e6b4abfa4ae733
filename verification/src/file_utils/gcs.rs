//! Fail-closed storage facade: the GCS, proxy-storage, signed-URL and
//! multipart uploaders are absent, and every attempt fails before reading
//! payload bytes.
use super::upload_config::{TraceExportConfig, UploadMethod};
use super::UploadsRemovedError;
use vstd::prelude::*;

verus! {

/// Uploads are never split into parts: no size reaches the threshold.
pub const MULTIPART_UPLOAD_THRESHOLD: u64 = u64::MAX;

/// Storage destination settings read by the (removed) uploaders.
pub trait StorageConfig {
    fn bucket_url(&self) -> &str;

    fn upload_method(&self) -> &UploadMethod;
}

/// The bucket URL of a trace-export configuration: the configured text, or
/// the empty text when none is set.
pub open spec fn config_bucket_url(config: TraceExportConfig) -> Seq<char> {
    match config.bucket_url {
        Some(url) => url@,
        None => Seq::empty(),
    }
}

impl StorageConfig for TraceExportConfig {
    fn bucket_url(&self) -> (res: &str)
        ensures
            res@ == config_bucket_url(*self),
    {
        match &self.bucket_url {
            Some(url) => url.as_str(),
            None => {
                proof { reveal_strlit(""); }
                ""
            },
        }
    }

    fn upload_method(&self) -> (res: &UploadMethod)
        ensures
            res == &self.upload_method,
    {
        &self.upload_method
    }
}

/// Removed: would upload bytes to object storage.
pub fn upload_bytes<C: StorageConfig>(
    _config: &C,
    _object_path: &str,
    _content: &[u8],
    _content_type: &str,
) -> (res: Result<String, UploadsRemovedError>)
    ensures
        res == Err::<String, UploadsRemovedError>(UploadsRemovedError),
{
    Err(UploadsRemovedError)
}

/// Removed: would upload bytes through a signed URL.
pub fn upload_bytes_signed<C: StorageConfig>(
    _config: &C,
    _object_path: &str,
    _content: &[u8],
    _content_type: &str,
) -> (res: Result<String, UploadsRemovedError>)
    ensures
        res == Err::<String, UploadsRemovedError>(UploadsRemovedError),
{
    Err(UploadsRemovedError)
}

/// Removed: would upload a local file.
pub fn upload_file<C: StorageConfig>(
    _config: &C,
    _object_path: &str,
    _file_path: &str,
    _content_type: &str,
) -> (res: Result<String, UploadsRemovedError>)
    ensures
        res == Err::<String, UploadsRemovedError>(UploadsRemovedError),
{
    Err(UploadsRemovedError)
}

/// Removed: would upload the output of a reader; the reader is never read.
pub fn upload_stream<C: StorageConfig, R>(
    _config: &C,
    _object_path: &str,
    _reader: R,
    _content_type: &str,
) -> (res: Result<String, UploadsRemovedError>)
    ensures
        res == Err::<String, UploadsRemovedError>(UploadsRemovedError),
{
    Err(UploadsRemovedError)
}

} // verus!
