//! Local-only version metadata for the privacy build. Network version
//! discovery and package-manager execution do not exist here.
use super::UpdaterRemovedError;
use crate::text::owned;
use vstd::prelude::*;

verus! {

/// The only update channel this build reports.
pub const PRIVACY_CHANNEL: &'static str = "privacy";

/// Suffix shown after the version in the UI.
pub const PRIVACY_CHANNEL_LABEL: &'static str = " [privacy]";

/// Update settings as the UI still passes them around; nothing reads them to
/// reach a network.
#[derive(Debug, Clone)]
pub struct UpdateConfig {
    pub proxy_base_url: String,
    pub auth_scope: String,
    pub deployment_key: Option<String>,
    pub alpha_test_key: Option<String>,
    pub channel: String,
    pub npm_registry: Option<String>,
}

impl UpdateConfig {
    /// Settings for an environment, from that environment's chat-proxy base
    /// URL and the default auth scope. The channel is always the privacy
    /// channel; no key or registry is ever set.
    pub fn from_environment(proxy_base_url: String, auth_scope: String) -> (res: Self)
        ensures
            res.proxy_base_url@ == proxy_base_url@,
            res.auth_scope@ == auth_scope@,
            res.deployment_key is None,
            res.alpha_test_key is None,
            res.channel@ == PRIVACY_CHANNEL@,
            res.npm_registry is None,
    {
        UpdateConfig {
            proxy_base_url,
            auth_scope,
            deployment_key: None,
            alpha_test_key: None,
            channel: owned(PRIVACY_CHANNEL),
            npm_registry: None,
        }
    }
}

/// npm dist-tag lookup was removed.
pub fn fetch_npm_tag_for_test(_tag: &str, _npm_registry: Option<&str>) -> (r: Result<
    String,
    UpdaterRemovedError,
>)
    ensures
        r == Err::<String, UpdaterRemovedError>(UpdaterRemovedError),
{
    Err(UpdaterRemovedError)
}

/// npm version lookup was removed.
pub fn fetch_npm_version_for_test(_channel: &str, _npm_registry: Option<&str>) -> (r: Result<
    String,
    UpdaterRemovedError,
>)
    ensures
        r == Err::<String, UpdaterRemovedError>(UpdaterRemovedError),
{
    Err(UpdaterRemovedError)
}

/// GitHub release lookup was removed.
pub fn fetch_gh_release_version(_channel: &str) -> (r: Result<String, UpdaterRemovedError>)
    ensures
        r == Err::<String, UpdaterRemovedError>(UpdaterRemovedError),
{
    Err(UpdaterRemovedError)
}

/// Bucket version lookup was removed.
pub fn fetch_gcs_version_from_base(_channel: &str, _base_url: &str) -> (r: Result<
    String,
    UpdaterRemovedError,
>)
    ensures
        r == Err::<String, UpdaterRemovedError>(UpdaterRemovedError),
{
    Err(UpdaterRemovedError)
}

/// Latest-version discovery was removed.
pub fn fetch_latest_version(_installer: &str, _config: &UpdateConfig) -> (r: Result<
    String,
    UpdaterRemovedError,
>)
    ensures
        r == Err::<String, UpdaterRemovedError>(UpdaterRemovedError),
{
    Err(UpdaterRemovedError)
}

/// Latest-version discovery was removed.
pub fn get_latest_version(_installer: &str, _config: &UpdateConfig) -> (r: Result<
    String,
    UpdaterRemovedError,
>)
    ensures
        r == Err::<String, UpdaterRemovedError>(UpdaterRemovedError),
{
    Err(UpdaterRemovedError)
}

/// No version cache is written.
pub fn write_version_cache(_version: &str, _stable_version: Option<&str>) {
}

/// The (absent) version cache never asks for a refresh.
pub fn is_version_cache_fresh() -> (fresh: bool)
    ensures
        fresh,
{
    true
}

/// No on-disk install is probed.
pub fn installed_on_disk_version() -> (v: Option<String>)
    ensures
        v is None,
{
    None
}

/// No cached stable version exists.
pub fn cached_stable_version() -> (v: Option<String>)
    ensures
        v is None,
{
    None
}

/// The channel name shown to users.
pub fn channel_name() -> (name: Option<&'static str>)
    ensures
        name is Some,
        name->0@ == PRIVACY_CHANNEL@,
{
    Some(PRIVACY_CHANNEL)
}

/// The channel suffix shown after the version.
pub fn channel_label() -> (label: &'static str)
    ensures
        label@ == PRIVACY_CHANNEL_LABEL@,
{
    PRIVACY_CHANNEL_LABEL
}

} // verus!
