//! What is left of the updater: the small API surface the UI still calls.
//! No entry point checks, downloads, installs, relaunches or switches update
//! channels. The update-trigger telemetry type is a type parameter here, as
//! nothing reads it.
use super::version::UpdateConfig;
use super::{UpdaterRemovedError, UPDATER_REMOVED_MESSAGE};
use crate::text::owned;
use vstd::prelude::*;

verus! {

/// Whether an update run blocks the caller.
#[derive(Clone, Copy, Debug, PartialEq, Eq, Structural)]
pub enum UpdateRunMode {
    Blocking,
    NonBlocking,
}

/// What `grok update --status` reports.
#[derive(Debug)]
pub struct UpdateStatus {
    pub current_version: String,
    pub latest_version: Option<String>,
    pub update_available: bool,
    pub installer: Option<String>,
    pub channel: String,
    pub auto_update: Option<bool>,
    pub error: Option<String>,
}

/// The status of the running binary: its installed version, no latest
/// version, no update, no installer, the configured channel, auto-update off,
/// and the removal message as the error.
pub fn check_update_status(update_config: &UpdateConfig, installed_version: String) -> (res:
    UpdateStatus)
    ensures
        res.current_version@ == installed_version@,
        res.latest_version is None,
        !res.update_available,
        res.installer is None,
        res.channel@ == update_config.channel@,
        res.auto_update == Some(false),
        res.error is Some,
        res.error->0@ == UPDATER_REMOVED_MESSAGE@,
{
    UpdateStatus {
        current_version: installed_version,
        latest_version: None,
        update_available: false,
        installer: None,
        channel: update_config.channel.clone(),
        auto_update: Some(false),
        error: Some(owned(UPDATER_REMOVED_MESSAGE)),
    }
}

/// There is never an auto-update target.
pub fn auto_update_target(_update_config: &UpdateConfig) -> (t: Option<(&'static str, String)>)
    ensures
        t is None,
{
    None
}

/// Result of making sure the newest build is on disk.
#[derive(Debug)]
pub struct EnsureLatestOutcome {
    pub installed: Option<String>,
    pub relaunch_needed: bool,
}

/// Installs nothing and asks for no relaunch.
pub fn ensure_latest_on_disk(_update_config: &UpdateConfig) -> (r: Result<
    EnsureLatestOutcome,
    UpdaterRemovedError,
>)
    ensures
        r is Ok,
        r->Ok_0.installed is None,
        !r->Ok_0.relaunch_needed,
{
    Ok(EnsureLatestOutcome { installed: None, relaunch_needed: false })
}

/// No installer is ever detected.
pub fn get_installer() -> (i: Option<&'static str>)
    ensures
        i is None,
{
    None
}

/// A newer release that was found (never, in this build).
#[derive(Debug, Clone)]
pub struct UpdateAvailable {
    pub latest_version: String,
}

/// Compatibility handle with no process behind it.
pub struct DisabledDownload;

impl DisabledDownload {
    /// Waiting on the (absent) download always fails with the removal error.
    pub fn wait(&mut self) -> (r: Result<(), UpdaterRemovedError>)
        ensures
            r == Err::<(), UpdaterRemovedError>(UpdaterRemovedError),
    {
        Err(UpdaterRemovedError)
    }
}

/// Result of a background update check.
pub struct BackgroundUpdateCheck {
    pub update: Option<UpdateAvailable>,
    pub download: Option<DisabledDownload>,
}

/// Finds no update and starts no download.
pub fn check_update_background(_update_config: &UpdateConfig) -> (c: BackgroundUpdateCheck)
    ensures
        c.update is None,
        c.download is None,
{
    BackgroundUpdateCheck { update: None, download: None }
}

/// Never updates: reports that no update ran.
pub fn run_update_if_available<T>(
    _run_mode: UpdateRunMode,
    _interactive: bool,
    _trigger: T,
    _update_config: &UpdateConfig,
) -> (r: Result<bool, UpdaterRemovedError>)
    ensures
        r == Ok::<bool, UpdaterRemovedError>(false),
{
    Ok(false)
}

/// Relaunching was removed.
pub fn restart_grok() -> (r: Result<(), UpdaterRemovedError>)
    ensures
        r == Err::<(), UpdaterRemovedError>(UpdaterRemovedError),
{
    Err(UpdaterRemovedError)
}

/// Install scripts are never run.
pub fn run_install_script<T>(
    _installer: &str,
    _target: Option<&str>,
    _update_config: &UpdateConfig,
    _trigger: T,
) -> (r: Result<(), UpdaterRemovedError>)
    ensures
        r == Err::<(), UpdaterRemovedError>(UpdaterRemovedError),
{
    Err(UpdaterRemovedError)
}

/// Downloads were removed.
pub fn download_with_progress(_url: &str, _dest: &str) -> (r: Result<(), UpdaterRemovedError>)
    ensures
        r == Err::<(), UpdaterRemovedError>(UpdaterRemovedError),
{
    Err(UpdaterRemovedError)
}

/// Downloads were removed.
pub fn download_silent(_url: &str, _dest: &str) -> (r: Result<(), UpdaterRemovedError>)
    ensures
        r == Err::<(), UpdaterRemovedError>(UpdaterRemovedError),
{
    Err(UpdaterRemovedError)
}

/// Internal installs were removed, whatever the mirrors.
pub fn install_internal_from_bases(
    _target: Option<&str>,
    _update_config: &UpdateConfig,
    _bases: &[&str],
) -> (r: Result<String, UpdaterRemovedError>)
    ensures
        r == Err::<String, UpdaterRemovedError>(UpdaterRemovedError),
{
    Err(UpdaterRemovedError)
}

/// Internal installs were removed.
pub fn install_internal_from_base(
    _target: Option<&str>,
    _update_config: &UpdateConfig,
    _base: &str,
) -> (r: Result<String, UpdaterRemovedError>)
    ensures
        r == Err::<String, UpdaterRemovedError>(UpdaterRemovedError),
{
    Err(UpdaterRemovedError)
}

/// npm installs were removed.
pub fn install_npm_for_test(
    _target: Option<&str>,
    _channel: &str,
    _npm_registry: Option<&str>,
) -> (r: Result<(), UpdaterRemovedError>)
    ensures
        r == Err::<(), UpdaterRemovedError>(UpdaterRemovedError),
{
    Err(UpdaterRemovedError)
}

/// Channel switches are ignored: the settings are left as they were.
pub fn apply_channel_switch(_channel_switch: Option<&str>, update_config: &mut UpdateConfig)
    ensures
        *final(update_config) == *old(update_config),
{
}

/// Forced, pinned or channel-switching updates all fail with the removal
/// error and leave the settings as they were.
pub fn run_update<T>(
    _force: bool,
    _pinned_version: Option<&str>,
    _channel_switch: Option<&str>,
    update_config: &mut UpdateConfig,
    _trigger: T,
) -> (r: Result<Option<String>, UpdaterRemovedError>)
    ensures
        r == Err::<Option<String>, UpdaterRemovedError>(UpdaterRemovedError),
        *final(update_config) == *old(update_config),
{
    Err(UpdaterRemovedError)
}

} // verus!
