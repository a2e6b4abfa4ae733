//! Local data handling for the privacy build: every storage and upload entry
//! point fails closed, and only local hashing remains.
use crate::text::{hex_lower, hex_lower_string};
use sha2::Digest;
use vstd::prelude::*;

pub mod gcs;
pub mod queue;
pub mod s3;
pub mod storage_client;
pub mod trace_context;
pub mod upload_config;

verus! {

/// Passive/background data uploads are not compiled into this build.
pub const DATA_UPLOADS_COMPILED_IN: bool = false;

/// Stable error text returned by every removed storage/upload entry point.
pub const DATA_UPLOADS_REMOVED_MESSAGE: &'static str =
    "data upload capability was removed from this privacy build";

/// The fail-closed error of every removed storage/upload entry point.
#[derive(Debug, Clone, Copy, PartialEq, Eq, Structural)]
pub struct UploadsRemovedError;

impl UploadsRemovedError {
    /// The error's text.
    pub fn message(&self) -> (m: &'static str)
        ensures
            m@ == DATA_UPLOADS_REMOVED_MESSAGE@,
    {
        DATA_UPLOADS_REMOVED_MESSAGE
    }

    /// The error's text as an owned string.
    pub fn to_string(&self) -> (s: String)
        ensures
            s@ == DATA_UPLOADS_REMOVED_MESSAGE@,
    {
        crate::text::owned(DATA_UPLOADS_REMOVED_MESSAGE)
    }
}

/// Construct the fail-closed error returned by removed upload APIs.
pub fn data_uploads_removed_error() -> (e: UploadsRemovedError)
    ensures
        e == UploadsRemovedError,
{
    UploadsRemovedError
}

/// The SHA-256 digest of a byte string, as computed by the `sha2` crate.
pub uninterp spec fn sha256_of(data: Seq<u8>) -> Seq<u8>;

/// Calls `sha2::Sha256::digest`. Trusted: the result is the SHA-256 digest of
/// `data` (named, not restated) and is 32 bytes long, as the digest's output
/// array type fixes.
#[verifier::external_body]
fn sha256_digest(data: &[u8]) -> (res: Vec<u8>)
    ensures
        res@ == sha256_of(data@),
        res@.len() == 32,
{
    sha2::Sha256::digest(data).to_vec()
}

/// Compute SHA256 hash of content as a lower-case hex string.
pub fn sha256_hex(content: &[u8]) -> (res: String)
    ensures
        res@ == hex_lower(sha256_of(content@)),
        res@.len() == 64,
{
    let digest = sha256_digest(content);
    let res = hex_lower_string(digest.as_slice());
    proof { lemma_hex_lower_len(digest@); }
    res
}

/// The part of a file's content that is hashed: everything, or only the
/// first `max_bytes` bytes when a positive limit is set.
pub open spec fn hashed_prefix(content: Seq<u8>, max_bytes: Option<u64>) -> Seq<u8> {
    match max_bytes {
        Some(limit) => if limit > 0 && limit < content.len() {
            content.take(limit as int)
        } else {
            content
        },
        None => content,
    }
}

/// Hash a file's content, honouring an optional positive byte limit.
/// Reading the file is left to the caller.
pub fn sha256_hex_with_limit(content: &[u8], max_bytes: Option<u64>) -> (res: String)
    ensures
        res@ == hex_lower(sha256_of(hashed_prefix(content@, max_bytes))),
        res@.len() == 64,
{
    match max_bytes {
        Some(limit) => {
            if limit > 0 && (limit as u128) < (content.len() as u128) {
                let n = limit as usize;
                let prefix = slice_prefix(content, n);
                sha256_hex(prefix.as_slice())
            } else {
                sha256_hex(content)
            }
        },
        None => sha256_hex(content),
    }
}

fn slice_prefix(content: &[u8], n: usize) -> (res: Vec<u8>)
    requires
        n <= content@.len(),
    ensures
        res@ == content@.take(n as int),
{
    let mut res: Vec<u8> = Vec::new();
    let mut i: usize = 0;
    while i < n
        invariant
            i <= n,
            n <= content@.len(),
            res@ == content@.take(i as int),
        decreases n - i,
    {
        res.push(content[i]);
        i = i + 1;
        assert(content@.take(i as int) =~= content@.take(i - 1 as int).push(content@[i - 1]));
    }
    res
}

/// Hex text has two characters per byte.
pub proof fn lemma_hex_lower_len(bytes: Seq<u8>)
    ensures
        hex_lower(bytes).len() == 2 * bytes.len(),
    decreases bytes.len(),
{
    if bytes.len() > 0 {
        lemma_hex_lower_len(bytes.drop_last());
    }
}

} // verus!
