//! Read-only/no-network facade for removed cloud-control and remote session
//! features. Model inference is handled elsewhere and is unaffected.
use crate::text::owned;
use std::sync::Arc;
use vstd::prelude::*;

verus! {

/// The remote backend is not compiled into this build.
pub const REMOTE_BACKEND_COMPILED_IN: bool = false;

/// Text of every remote backend refusal.
pub const REMOTE_BACKEND_REMOVED_MESSAGE: &'static str =
    "remote backend capability was removed from this privacy build";

/// Remote backend errors.
#[derive(Debug)]
pub enum BackendError {
    Network(reqwest::Error),
    RequestFailed { status: u16, body: String },
    Serialization(serde_json::Error),
    SessionNotFound { session_id: String },
    Hydration { path: String, source: std::io::Error },
    Auth(String),
}

/// The refusal every remote backend request gets: HTTP 403 with the removal
/// message as body.
pub open spec fn is_backend_refusal(e: BackendError) -> bool {
    e matches BackendError::RequestFailed { status, body } && status == 403 && body@
        == REMOTE_BACKEND_REMOVED_MESSAGE@
}

fn removed<T>() -> (res: Result<T, BackendError>)
    ensures
        res matches Err(e) && is_backend_refusal(e),
{
    Err(BackendError::RequestFailed { status: 403, body: owned(REMOTE_BACKEND_REMOVED_MESSAGE) })
}

/// No share link exists: the removal message stands in its place.
pub fn share_url(_permission_id: &str) -> (res: String)
    ensures
        res@ == REMOTE_BACKEND_REMOVED_MESSAGE@,
{
    owned(REMOTE_BACKEND_REMOVED_MESSAGE)
}

/// Removed: would fetch the subagent bundle.
pub fn fetch_subagent_bundle<A, B>(
    _cli_chat_proxy_base_url: &str,
    _auth_manager: Option<&Arc<A>>,
    _deployment_key: Option<&str>,
    _alpha_test_key: Option<&str>,
) -> (res: Result<B, BackendError>)
    ensures
        res matches Err(e) && is_backend_refusal(e),
{
    removed()
}

/// A fetched bundle: an archive, or a legacy structured bundle.
#[derive(Debug)]
pub enum FetchedBundle<B> {
    Archive(Vec<u8>),
    Legacy(B),
}

/// Removed: would fetch a bundle.
pub fn fetch_bundle<A, B>(
    _cli_chat_proxy_base_url: &str,
    _auth_manager: Option<&Arc<A>>,
    _deployment_key: Option<&str>,
    _alpha_test_key: Option<&str>,
) -> (res: Result<FetchedBundle<B>, BackendError>)
    ensures
        res matches Err(e) && is_backend_refusal(e),
{
    removed()
}

/// Reply to a share request.
#[derive(Debug, Clone)]
pub struct ShareResponse {
    pub permission_id: String,
}

/// Reply to a session-data load.
#[derive(Debug, Clone)]
pub struct LoadDataResponse {
    pub messages: Option<Vec<LoadedMessage>>,
    pub session: Option<SessionInfo>,
}

/// A message of a loaded session.
#[derive(Debug, Clone)]
pub struct LoadedMessage {
    pub id: String,
    pub content: String,
    pub timestamp: Option<String>,
}

/// A remote session description.
#[derive(Debug, Clone)]
pub struct SessionInfo {
    pub session_id: String,
    pub title: Option<String>,
    pub cwd: Option<String>,
    pub status: Option<String>,
    pub created_at: Option<String>,
    pub updated_at: Option<String>,
    pub metadata: Option<serde_json::Value>,
}

/// A remote session update.
#[derive(Debug, Clone)]
pub struct SessionUpdate {
    pub title: Option<String>,
    pub cwd: Option<String>,
    pub status: Option<String>,
    pub metadata: Option<serde_json::Value>,
}

/// Base URL of a client made without one; it names no server.
pub const DISABLED_BACKEND_URL: &'static str = "privacy://remote-backend-disabled";

/// A backend client with no transport.
pub struct BackendClient<A> {
    base_url: String,
    pub auth_manager: Option<Arc<A>>,
}

impl<A> Default for BackendClient<A> {
    fn default() -> (c: BackendClient<A>)
        ensures
            c.base_url_view() == DISABLED_BACKEND_URL@,
            c.auth_manager_view() is None,
    {
        BackendClient::new()
    }
}

impl<A> BackendClient<A> {
    /// The client's base URL.
    pub closed spec fn base_url_view(&self) -> Seq<char> {
        self.base_url@
    }

    /// The attached auth manager.
    pub closed spec fn auth_manager_view(&self) -> Option<Arc<A>> {
        self.auth_manager
    }

    /// A client whose base URL names no server.
    pub fn new() -> (c: BackendClient<A>)
        ensures
            c.base_url_view() == DISABLED_BACKEND_URL@,
            c.auth_manager_view() is None,
    {
        BackendClient { base_url: owned(DISABLED_BACKEND_URL), auth_manager: None }
    }

    /// A client with the given base URL.
    pub fn with_base_url(base_url: String) -> (c: BackendClient<A>)
        ensures
            c.base_url_view() == base_url@,
            c.auth_manager_view() is None,
    {
        BackendClient { base_url, auth_manager: None }
    }

    /// Attach an auth manager.
    pub fn with_auth_manager(self, manager: Arc<A>) -> (c: BackendClient<A>)
        ensures
            c.base_url_view() == self.base_url_view(),
            c.auth_manager_view() == Some(manager),
    {
        BackendClient { base_url: self.base_url, auth_manager: Some(manager) }
    }

    /// The base URL.
    pub fn base_url(&self) -> (res: &str)
        ensures
            res@ == self.base_url_view(),
    {
        self.base_url.as_str()
    }

    /// Removed: would share a session.
    pub fn share_session<S>(&self, _session: &S, _agent_id: &str) -> (res: Result<
        String,
        BackendError,
    >)
        ensures
            res matches Err(e) && is_backend_refusal(e),
    {
        removed()
    }

    /// Removed: would upsert session metadata.
    pub fn upsert_session<M>(&self, _session_id: &str, _metadata: &M, _agent_id: &str) -> (res:
        Result<(), BackendError>)
        ensures
            res matches Err(e) && is_backend_refusal(e),
    {
        removed()
    }

    /// Removed: would save session messages.
    pub fn save_session_data<E, M>(&self, _session_id: &str, _messages: &[E], _metadata: Option<
        &M,
    >) -> (res: Result<(), BackendError>)
        ensures
            res matches Err(e) && is_backend_refusal(e),
    {
        removed()
    }

    /// Removed: would list remote sessions.
    pub fn list_sessions(&self) -> (res: Result<Vec<SessionInfo>, BackendError>)
        ensures
            res matches Err(e) && is_backend_refusal(e),
    {
        removed()
    }

    /// Removed: would load remote session data.
    pub fn load_session_data(&self, _session_id: &str) -> (res: Result<
        LoadDataResponse,
        BackendError,
    >)
        ensures
            res matches Err(e) && is_backend_refusal(e),
    {
        removed()
    }

    /// Removed: would create a share link.
    pub fn create_share_link(&self, _session_id: &str) -> (res: Result<ShareResponse, BackendError>)
        ensures
            res matches Err(e) && is_backend_refusal(e),
    {
        removed()
    }

    /// Removed: would delete remote session data.
    pub fn delete_session_data(&self, _session_id: &str) -> (res: Result<(), BackendError>)
        ensures
            res matches Err(e) && is_backend_refusal(e),
    {
        removed()
    }
}

/// The outcome of a remote-settings fetch.
#[derive(Debug)]
pub enum SettingsFetch<S> {
    Fetched(Box<S>),
    Rejected,
    Retry,
}

impl<S> SettingsFetch<S> {
    /// Remote settings are never used, whatever was fetched.
    pub fn into_option(self) -> (res: Option<S>)
        ensures
            res is None,
    {
        None
    }
}

/// Remote settings are always rejected.
pub fn fetch_settings_blocking<G, S>(
    _cli_chat_proxy_base_url: &str,
    _auth: &G,
    _alpha_test_key: Option<&str>,
) -> (res: SettingsFetch<S>)
    ensures
        res is Rejected,
{
    SettingsFetch::Rejected
}

/// No login rollout flag is fetched.
pub fn fetch_login_device_flow(_cli_chat_proxy_base_url: &str) -> (res: Option<bool>)
    ensures
        res is None,
{
    None
}

/// Context window assumed for models without remote metadata.
pub const DEFAULT_CONTEXT_WINDOW: u64 = 256000;

/// Address of the remote model catalog: a placeholder that names no server.
pub const MODEL_CATALOG_DISABLED_URL: &'static str = "privacy://remote-model-catalog-disabled";

/// The model catalog URL, whatever the endpoints and authentication.
pub fn models_list_url<E, F>(_endpoints: &E, _fetch_auth: F) -> (res: String)
    ensures
        res@ == MODEL_CATALOG_DISABLED_URL@,
{
    owned(MODEL_CATALOG_DISABLED_URL)
}

/// A fetched model list.
pub struct FetchModelsResult<M> {
    pub models: Vec<M>,
    pub etag: Option<String>,
}

/// Removed: would fetch the remote model catalog.
pub fn fetch_models_blocking<E, G, F, M>(_endpoints: &E, _auth: Option<&G>, _fetch_auth: F) -> (res:
    Result<FetchModelsResult<M>, BackendError>)
    ensures
        res matches Err(e) && is_backend_refusal(e),
{
    removed()
}

/// Remote model descriptions are never parsed.
pub fn parse_remote_model_value<M>(_value: &serde_json::Value, _default_base_url: &str) -> (res:
    Option<M>)
    ensures
        res is None,
{
    None
}

} // verus!
