//! No-network managed-configuration facade: the fetcher, parser, signature
//! policy, background synchronizer and artifact writer are absent, and
//! neither local files nor server responses can re-enable them.
use crate::telemetry::config::{deployment_id_for, deployment_id_from_key};
use crate::telemetry::startup::AuthMode;
use crate::text::owned;
use vstd::prelude::*;

verus! {

/// Marker consumed by the source audit.
pub const MANAGED_CONFIG_COMPILED_IN: bool = false;

/// Text of the managed-configuration error.
pub const MANAGED_CONFIG_REMOVED_MESSAGE: &'static str =
    "managed configuration was removed from this privacy build";

/// Stable error returned by explicit managed-config operations.
#[derive(Debug, Clone, Copy, PartialEq, Eq, Structural)]
pub struct ManagedConfigError;

impl ManagedConfigError {
    /// The error's text.
    pub fn to_string(&self) -> (s: String)
        ensures
            s@ == MANAGED_CONFIG_REMOVED_MESSAGE@,
    {
        owned(MANAGED_CONFIG_REMOVED_MESSAGE)
    }
}

/// Which configuration layer serves settings. Managed policy never does.
#[derive(Debug, Clone, Copy, PartialEq, Eq, Structural)]
pub enum ServingIdentity {
    Unmanaged,
}

/// Legacy cleanup hook: managed artifacts are ignored, so no file changes.
pub fn clear_orphan() {
}

/// No background synchronization task is created; the cancellation token is
/// dropped.
pub fn spawn_sync<C>(_cancel: C) {
}

/// The deployment id, derived locally from a non-empty deployment key.
pub fn resolve_deployment_id(deployment_key: Option<&str>) -> (res: Option<String>)
    ensures
        match deployment_key {
            Some(k) => if k@.len() > 0 {
                res matches Some(id) && id@ == deployment_id_for(k@)
            } else {
                res is None
            },
            None => res is None,
        },
{
    match deployment_key {
        Some(key) => if crate::text::chars_of(key).len() > 0 {
            Some(deployment_id_from_key(key))
        } else {
            None
        },
        None => None,
    }
}

/// Remote managed-configuration fetch cannot happen.
pub fn is_fetch_enabled() -> (res: bool)
    ensures
        !res,
{
    false
}

/// No team principal is used for policy synchronization.
pub fn has_active_team_auth() -> (res: bool)
    ensures
        !res,
{
    false
}

/// No request and no write are performed.
pub fn sync() -> (res: Result<bool, ManagedConfigError>)
    ensures
        res == Ok::<bool, ManagedConfigError>(false),
{
    Ok(false)
}

/// What a managed-config synchronization did.
#[derive(Debug, Clone, Copy, PartialEq, Eq, Structural)]
pub enum ManagedConfigSync {
    Skipped,
    Updated { is_team: bool },
    NoChange,
    Failed,
}

/// Login never triggers a policy fetch.
pub fn post_login_sync<G>(_authenticated: Option<G>) -> (res: ManagedConfigSync)
    ensures
        res == ManagedConfigSync::Skipped,
{
    ManagedConfigSync::Skipped
}

/// `grok setup` has no eligible managed-policy principal.
pub fn has_principal() -> (res: bool)
    ensures
        !res,
{
    false
}

/// Managed policy is never a serving configuration layer.
pub fn current_serving_identity() -> (res: ServingIdentity)
    ensures
        res == ServingIdentity::Unmanaged,
{
    ServingIdentity::Unmanaged
}

/// No team id is ever known.
pub fn active_team_id_any_expiry() -> (res: Option<String>)
    ensures
        res is None,
{
    None
}

/// Local startup labeling only: a resolved deployment key means deployment
/// mode, otherwise personal mode.
pub fn classify_auth_mode(deployment_key: Option<String>) -> (res: AuthMode)
    ensures
        res == (if deployment_key is Some {
            AuthMode::Deployment
        } else {
            AuthMode::Personal
        }),
{
    if deployment_key.is_some() {
        AuthMode::Deployment
    } else {
        AuthMode::Personal
    }
}

/// Session startup performs no remote policy operation.
pub fn ensure_managed_policy_present<A>(_auth_manager: &A) {
}

/// There is no cloud-managed policy gate.
pub fn managed_policy_gate() -> (res: Result<(), String>)
    ensures
        res is Ok,
{
    Ok(())
}

/// What `grok setup` did.
#[derive(Debug)]
pub enum SetupOutcome {
    Installed,
    NothingConfigured,
    Skipped,
    Failed(ManagedConfigError),
}

/// The setup report shape.
#[derive(Debug)]
pub struct SetupReport {
    pub source: Option<&'static str>,
    pub configured: bool,
    pub deployment_id: Option<String>,
    pub team_id: Option<String>,
    pub managed_config: Option<String>,
    pub requirements: Option<String>,
    pub fail_closed: bool,
}

/// No setup report can be fetched.
pub fn fetch_setup_report() -> (res: Result<SetupReport, ManagedConfigError>)
    ensures
        res matches Err(e) && e == ManagedConfigError,
{
    Err(ManagedConfigError)
}

/// Setup is skipped.
pub fn run_setup() -> (res: SetupOutcome)
    ensures
        res is Skipped,
{
    SetupOutcome::Skipped
}

} // verus!
