//! Removed cloud-sandbox client.
use crate::shell::privacy_build::PrivacyRemovedError;
use std::sync::Arc;
use vstd::prelude::*;

verus! {

/// Cloud sandboxes are not compiled into this build.
pub const CLOUD_SANDBOX_COMPILED_IN: bool = false;

/// A sandbox client that only remembers its base URL.
pub struct SandboxClient<A> {
    base_url: String,
    auth_manager: Arc<A>,
}

impl<A> SandboxClient<A> {
    /// The base URL the client was made with.
    pub closed spec fn base_url_view(&self) -> Seq<char> {
        self.base_url@
    }

    /// Keep the base URL and auth manager; nothing is contacted.
    pub fn new(base_url: String, auth_manager: Arc<A>) -> (c: SandboxClient<A>)
        ensures
            c.base_url_view() == base_url@,
    {
        SandboxClient { base_url, auth_manager }
    }

    /// The base URL.
    pub fn base_url(&self) -> (res: &str)
        ensures
            res@ == self.base_url_view(),
    {
        self.base_url.as_str()
    }

    /// Removed: would fork a session into a sandbox.
    pub fn fork_session<Q, R>(&self, _request: &Q) -> (res: Result<R, PrivacyRemovedError>)
        ensures
            res matches Err(e) && e == PrivacyRemovedError,
    {
        Err(PrivacyRemovedError)
    }

    /// Removed: would terminate a sandbox session.
    pub fn terminate_session<Q>(&self, _session_id: &str, _request: &Q) -> (res: Result<
        (),
        PrivacyRemovedError,
    >)
        ensures
            res matches Err(e) && e == PrivacyRemovedError,
    {
        Err(PrivacyRemovedError)
    }

    /// Removed: would list sandbox environments.
    pub fn list_environments<Q, R>(&self, _request: &Q) -> (res: Result<R, PrivacyRemovedError>)
        ensures
            res matches Err(e) && e == PrivacyRemovedError,
    {
        Err(PrivacyRemovedError)
    }

    /// Removed: would create a sandbox environment.
    pub fn create_environment<Q, R>(&self, _request: &Q) -> (res: Result<R, PrivacyRemovedError>)
        ensures
            res matches Err(e) && e == PrivacyRemovedError,
    {
        Err(PrivacyRemovedError)
    }

    /// Removed: would update a sandbox environment.
    pub fn update_environment<Q, R>(&self, _environment_id: &str, _request: &Q) -> (res: Result<
        R,
        PrivacyRemovedError,
    >)
        ensures
            res matches Err(e) && e == PrivacyRemovedError,
    {
        Err(PrivacyRemovedError)
    }

    /// Removed: would delete a sandbox environment.
    pub fn delete_environment(&self, _environment_id: &str) -> (res: Result<
        (),
        PrivacyRemovedError,
    >)
        ensures
            res matches Err(e) && e == PrivacyRemovedError,
    {
        Err(PrivacyRemovedError)
    }
}

} // verus!
