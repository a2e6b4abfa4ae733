//! Inert facade for removed server-delivered agents, skills, roles,
//! personas and workflows.
use super::privacy_build::REMOVED_MESSAGE;
use crate::text::owned;
use crate::time::Duration;
use vstd::prelude::*;

verus! {

/// How long a synced bundle would have stayed fresh: one hour.
pub fn bundle_sync_ttl() -> (d: Duration)
    ensures
        d.secs_of() == 3600 && d.nanos_of() == 0,
{
    Duration::from_secs(3600)
}

/// agent_client_protocol's `Error`, opaque to verification.
#[verifier::external_type_specification]
#[verifier::external_body]
pub struct ExAcpError(agent_client_protocol::Error);

/// The error `agent_client_protocol::Error::internal_error().data(..)` makes
/// for a text: JSON-RPC code -32603 with its default message, and the text
/// as a JSON string in `data`.
pub uninterp spec fn acp_internal_error_data(text: Seq<char>) -> agent_client_protocol::Error;

/// Calls `agent_client_protocol::Error::internal_error` and sets `data` to
/// `text` as a JSON string. Trusted: the error is the named function of the
/// text alone (both calls only build a value from their arguments).
#[verifier::external_body]
fn acp_internal_error_with_data(text: &str) -> (e: agent_client_protocol::Error)
    ensures
        e == acp_internal_error_data(text@),
{
    agent_client_protocol::Error::internal_error().data(serde_json::Value::String(text.to_owned()))
}

/// The reply to every removed extension method: an internal error carrying
/// the removal message.
pub(crate) fn removed_extension_error() -> (e: agent_client_protocol::Error)
    ensures
        e == acp_internal_error_data(REMOVED_MESSAGE@),
{
    acp_internal_error_with_data(REMOVED_MESSAGE)
}

/// The bundle extension method is refused, whatever the request, with the
/// internal error that carries the removal message.
pub fn handle<G, R, T>(_agent: &G, _args: &R) -> (r: Result<T, agent_client_protocol::Error>)
    ensures
        r == Err::<T, agent_client_protocol::Error>(acp_internal_error_data(REMOVED_MESSAGE@)),
{
    Err(removed_extension_error())
}

/// Text of the bundle-sync refusal.
pub const NO_BUNDLE_CREDENTIALS_ERROR: &'static str =
    "server-delivered bundles are disabled by the privacy build";

/// The refusal of every explicit bundle sync.
#[derive(Debug, Clone, Copy, PartialEq, Eq, Structural)]
pub struct BundleSyncDisabled;

impl BundleSyncDisabled {
    /// The error's text.
    pub fn to_string(&self) -> (s: String)
        ensures
            s@ == NO_BUNDLE_CREDENTIALS_ERROR@,
    {
        owned(NO_BUNDLE_CREDENTIALS_ERROR)
    }
}

/// What a bundle sync would have reported.
#[derive(Debug, PartialEq, Eq)]
pub struct BundleSyncResult {
    pub updated: bool,
    pub version: String,
    pub personas_count: usize,
    pub roles_count: usize,
    pub agents_count: usize,
    pub skills_count: usize,
}

/// No credentials ever qualify for bundle sync.
pub fn has_bundle_credentials<A>(_auth_manager: Option<&A>, _deployment_key: Option<&str>) -> (res:
    bool)
    ensures
        !res,
{
    false
}

/// No bundle cache is ever fresh.
pub fn bundle_cache_is_fresh(_root: &str, _ttl: Duration) -> (res: bool)
    ensures
        !res,
{
    false
}

/// A conditional sync does nothing and reports nothing.
pub fn maybe_sync_bundle_to_root<A>(
    _root: &str,
    _proxy_base_url: &str,
    _auth_manager: Option<&A>,
    _deployment_key: Option<&str>,
    _alpha_test_key: Option<&str>,
    _force: bool,
    _ttl: Duration,
) -> (res: Result<Option<BundleSyncResult>, BundleSyncDisabled>)
    ensures
        res matches Ok(r) && r is None,
{
    Ok(None)
}

/// An explicit sync is refused.
pub fn sync_bundle_to_root<A>(
    _root: &str,
    _proxy_base_url: &str,
    _auth_manager: Option<&A>,
    _deployment_key: Option<&str>,
    _alpha_test_key: Option<&str>,
    _force: bool,
) -> (res: Result<BundleSyncResult, BundleSyncDisabled>)
    ensures
        res matches Err(e) && e == BundleSyncDisabled,
{
    Err(BundleSyncDisabled)
}

} // verus!
