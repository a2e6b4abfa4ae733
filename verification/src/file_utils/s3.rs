//! Fail-closed S3 facade: direct uploads, existence probes and presigned
//! URL generation are absent.
use super::UploadsRemovedError;
use crate::time::Duration;
use vstd::prelude::*;

verus! {

/// Static S3 credentials. They are never sent anywhere.
#[derive(Clone)]
pub struct S3StaticCredentials {
    pub access_key_id: String,
    pub secret_access_key: String,
}

/// The debug rendering of any credentials: both values are redacted.
pub const REDACTED_CREDENTIALS_DEBUG: &'static str =
    "S3StaticCredentials { access_key_id: \"[redacted]\", secret_access_key: \"[redacted]\" }";

impl S3StaticCredentials {
    /// Debug text that never reveals either key: it is the same for all
    /// credentials.
    pub fn debug_text(&self) -> (s: String)
        ensures
            s@ == REDACTED_CREDENTIALS_DEBUG@,
    {
        crate::text::owned(REDACTED_CREDENTIALS_DEBUG)
    }
}

/// Removed: would presign a PUT URL.
pub fn presign_put_url(
    _region: &str,
    _endpoint_url: Option<&str>,
    _creds: &S3StaticCredentials,
    _bucket: &str,
    _key: &str,
    _content_type: &str,
    _expires_in: Duration,
) -> (res: Result<String, UploadsRemovedError>)
    ensures
        res == Err::<String, UploadsRemovedError>(UploadsRemovedError),
{
    Err(UploadsRemovedError)
}

/// Removed: would presign a GET URL.
pub fn presign_get_url(
    _region: &str,
    _endpoint_url: Option<&str>,
    _creds: &S3StaticCredentials,
    _bucket: &str,
    _key: &str,
    _expires_in: Duration,
) -> (res: Result<String, UploadsRemovedError>)
    ensures
        res == Err::<String, UploadsRemovedError>(UploadsRemovedError),
{
    Err(UploadsRemovedError)
}

/// Removed: would upload bytes to a bucket.
pub fn upload_bytes(
    _bucket: &str,
    _object_path: &str,
    _content: &[u8],
    _content_type: &str,
    _region: &str,
    _credentials_content: Option<&str>,
    _credentials_file: Option<&str>,
    _endpoint_url: Option<&str>,
) -> (res: Result<String, UploadsRemovedError>)
    ensures
        res == Err::<String, UploadsRemovedError>(UploadsRemovedError),
{
    Err(UploadsRemovedError)
}

/// Removed: would upload a local file to a bucket.
pub fn upload_file(
    _bucket: &str,
    _object_path: &str,
    _file_path: &str,
    _content_type: &str,
    _region: &str,
    _credentials_content: Option<&str>,
    _credentials_file: Option<&str>,
    _endpoint_url: Option<&str>,
) -> (res: Result<String, UploadsRemovedError>)
    ensures
        res == Err::<String, UploadsRemovedError>(UploadsRemovedError),
{
    Err(UploadsRemovedError)
}

/// Removed: would upload the output of a reader; the reader is never read.
pub fn upload_stream<R>(
    _bucket: &str,
    _object_path: &str,
    _reader: R,
    _content_type: &str,
    _region: &str,
    _credentials_content: Option<&str>,
    _credentials_file: Option<&str>,
    _endpoint_url: Option<&str>,
) -> (res: Result<String, UploadsRemovedError>)
    ensures
        res == Err::<String, UploadsRemovedError>(UploadsRemovedError),
{
    Err(UploadsRemovedError)
}

/// The answer an existence probe would have given.
#[derive(Debug, Clone)]
pub struct S3ExistsResponse {
    pub bucket: String,
    pub path: String,
    pub size: i64,
}

/// A client that only remembers its bucket name.
pub struct S3StorageClient {
    bucket: String,
}

impl S3StorageClient {
    /// The bucket this client was created for.
    pub closed spec fn bucket_view(&self) -> Seq<char> {
        self.bucket@
    }

    /// The bucket name.
    pub fn bucket_name(&self) -> (res: &str)
        ensures
            res@ == self.bucket_view(),
    {
        self.bucket.as_str()
    }

    /// Always succeeds; region, credentials and endpoint are discarded.
    pub fn new(
        bucket: String,
        _region: &str,
        _credentials_content: Option<&str>,
        _credentials_file: Option<&str>,
        _endpoint_url: Option<&str>,
    ) -> (res: Result<S3StorageClient, UploadsRemovedError>)
        ensures
            res matches Ok(c) && c.bucket_view() == bucket@,
    {
        Ok(S3StorageClient { bucket })
    }

    /// No probe is made: nothing is ever reported to exist.
    pub fn check_exists(&self, _path: &str) -> (res: Option<S3ExistsResponse>)
        ensures
            res is None,
    {
        None
    }
}

} // verus!
