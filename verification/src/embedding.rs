//! Local-only memory embedding: the remote embedding client is absent, and
//! the deterministic test provider derives its vectors from a BLAKE3 hash.
use vstd::prelude::*;

verus! {

/// A provider that cannot be constructed from a session in this build.
#[derive(Debug, Clone, Copy, PartialEq, Eq, Structural)]
pub struct ApiEmbeddingProvider;

/// Error text of every remote embedding request.
pub const REMOTE_EMBEDDINGS_REMOVED_MESSAGE: &'static str =
    "remote memory embeddings are removed in the privacy build";

impl ApiEmbeddingProvider {
    /// No provider is built, whatever the configuration and credentials.
    pub fn from_session<C>(_config: &C, _proxy_base_url: String, _auth_key: String) -> (res:
        Option<ApiEmbeddingProvider>)
        ensures
            res is None,
    {
        None
    }

    /// The model name reported by the removed provider.
    pub fn model_name(&self) -> (res: &'static str)
        ensures
            res@ == "disabled"@,
    {
        "disabled"
    }

    /// The removed provider produces vectors of no dimension.
    pub fn dimensions(&self) -> (res: usize)
        ensures
            res == 0,
    {
        0
    }
}

/// Deterministic embeddings for tests.
#[derive(Debug, Clone, Copy, PartialEq, Eq, Structural)]
pub struct MockEmbeddingProvider {
    pub dimensions: usize,
}

/// The BLAKE3 hash of a byte string, as computed by the `blake3` crate.
pub uninterp spec fn blake3_of(data: Seq<u8>) -> Seq<u8>;

/// Calls `blake3::hash`. Trusted: the result is the named BLAKE3 hash of
/// `data`, 32 bytes long as its output type fixes.
#[verifier::external_body]
fn blake3_hash(data: &[u8]) -> (res: Vec<u8>)
    ensures
        res@ == blake3_of(data@),
        res@.len() == 32,
{
    blake3::hash(data).as_bytes().to_vec()
}

/// The bytes behind a mock embedding of `text`: component `i` is byte
/// `i % 32` of the text's BLAKE3 hash.
pub open spec fn mock_embedding_spec(text: Seq<u8>, dimensions: nat) -> Seq<u8> {
    Seq::new(dimensions, |i: int| blake3_of(text)[i % 32])
}

impl MockEmbeddingProvider {
    /// The mock model's name.
    pub fn model_name(&self) -> (res: &'static str)
        ensures
            res@ == "mock-embedding"@,
    {
        "mock-embedding"
    }

    /// The configured dimension.
    pub fn dimensions(&self) -> (res: usize)
        ensures
            res == self.dimensions,
    {
        self.dimensions
    }

    /// The byte components of the embedding of `text` (each is later scaled
    /// by 1/255 to a float in the caller).
    pub fn embedding_bytes(&self, text: &str) -> (res: Vec<u8>)
        ensures
            res@ == mock_embedding_spec(vstd::utf8::encode_utf8(text@), self.dimensions as nat),
    {
        let hash = blake3_hash(text.as_bytes());
        let mut res: Vec<u8> = Vec::new();
        let mut i: usize = 0;
        while i < self.dimensions
            invariant
                i <= self.dimensions,
                hash@ == blake3_of(vstd::utf8::encode_utf8(text@)),
                hash@.len() == 32,
                res@ =~= mock_embedding_spec(vstd::utf8::encode_utf8(text@), i as nat),
            decreases self.dimensions - i,
        {
            res.push(hash[i % 32]);
            i = i + 1;
        }
        res
    }
}

} // verus!
