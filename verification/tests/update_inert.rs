use grok_privacy::update::auto_update::{
    apply_channel_switch, auto_update_target, check_update_background, check_update_status,
    download_silent, download_with_progress, ensure_latest_on_disk, get_installer,
    install_internal_from_base, install_internal_from_bases, install_npm_for_test, restart_grok,
    run_install_script, run_update, run_update_if_available, DisabledDownload, UpdateRunMode,
};
use grok_privacy::update::version::{
    cached_stable_version, fetch_gcs_version_from_base, fetch_gh_release_version,
    fetch_latest_version, fetch_npm_tag_for_test, fetch_npm_version_for_test, get_latest_version,
    installed_on_disk_version, is_version_cache_fresh,
};
use grok_privacy::update::{
    channel_label, channel_name, enforce_version_policy_or_exit, write_version_cache,
    UpdateConfig, UpdaterRemovedError, UPDATER_COMPILED_IN, UPDATER_REMOVED_MESSAGE,
};

/// Stand-in for the telemetry trigger type that the updater ignores.
#[derive(Clone, Copy)]
enum CliUpdateTrigger {
    UserCommand,
}

fn config() -> UpdateConfig {
    UpdateConfig::from_environment(
        "https://proxy.invalid".to_owned(),
        "scope".to_owned(),
    )
}

#[test]
fn remote_version_policy_is_inert() {
    enforce_version_policy_or_exit();
}

#[test]
fn every_update_entry_point_is_inert() {
    let cfg = config();
    assert!(get_installer().is_none());
    assert!(auto_update_target(&cfg).is_none());
    assert!(!run_update_if_available(
        UpdateRunMode::Blocking,
        true,
        CliUpdateTrigger::UserCommand,
        &cfg,
    )
    .unwrap());
    assert!(run_update(
        true,
        Some("999.0.0"),
        Some("alpha"),
        &mut cfg.clone(),
        CliUpdateTrigger::UserCommand,
    )
    .is_err());
}

#[test]
fn remote_version_sources_are_removed() {
    let cfg = config();
    assert!(fetch_latest_version("internal", &cfg).is_err());
    assert!(fetch_gcs_version_from_base("stable", "http://127.0.0.1:1").is_err());
    assert_eq!(channel_name(), Some("privacy"));
}

#[test]
fn update_config_uses_privacy_channel_only() {
    let cfg = config();
    assert_eq!(cfg.proxy_base_url, "https://proxy.invalid");
    assert_eq!(cfg.auth_scope, "scope");
    assert_eq!(cfg.channel, "privacy");
    assert!(cfg.deployment_key.is_none());
    assert!(cfg.alpha_test_key.is_none());
    assert!(cfg.npm_registry.is_none());
}

#[test]
fn update_status_reports_removal() {
    let cfg = config();
    let status = check_update_status(&cfg, "1.0.8".to_owned());
    assert_eq!(status.current_version, "1.0.8");
    assert!(status.latest_version.is_none());
    assert!(!status.update_available);
    assert!(status.installer.is_none());
    assert_eq!(status.channel, "privacy");
    assert_eq!(status.auto_update, Some(false));
    assert_eq!(status.error.as_deref(), Some(UPDATER_REMOVED_MESSAGE));
}

#[test]
fn every_install_path_fails_with_removal_error() {
    let cfg = config();
    assert!(!UPDATER_COMPILED_IN);
    assert_eq!(restart_grok(), Err(UpdaterRemovedError));
    assert_eq!(
        run_install_script("npm", None, &cfg, CliUpdateTrigger::UserCommand),
        Err(UpdaterRemovedError)
    );
    assert_eq!(download_with_progress("u", "d"), Err(UpdaterRemovedError));
    assert_eq!(download_silent("u", "d"), Err(UpdaterRemovedError));
    assert!(install_internal_from_bases(None, &cfg, &["a", "b"]).is_err());
    assert!(install_internal_from_base(Some("1.0"), &cfg, "a").is_err());
    assert_eq!(install_npm_for_test(None, "stable", None), Err(UpdaterRemovedError));
    assert_eq!(DisabledDownload.wait(), Err(UpdaterRemovedError));
    assert_eq!(UpdaterRemovedError.to_string(), UPDATER_REMOVED_MESSAGE);
}

#[test]
fn version_discovery_is_removed() {
    let cfg = config();
    assert!(fetch_npm_tag_for_test("latest", None).is_err());
    assert!(fetch_npm_version_for_test("stable", Some("https://registry.invalid")).is_err());
    assert!(fetch_gh_release_version("stable").is_err());
    assert!(get_latest_version("internal", &cfg).is_err());
    write_version_cache("1.0.8", Some("1.0.7"));
    assert!(is_version_cache_fresh());
    assert!(installed_on_disk_version().is_none());
    assert!(cached_stable_version().is_none());
    assert_eq!(channel_label(), " [privacy]");
}

#[test]
fn background_check_and_channel_switch_do_nothing() {
    let mut cfg = config();
    let check = check_update_background(&cfg);
    assert!(check.update.is_none());
    assert!(check.download.is_none());
    let outcome = ensure_latest_on_disk(&cfg).unwrap();
    assert!(outcome.installed.is_none());
    assert!(!outcome.relaunch_needed);
    apply_channel_switch(Some("alpha"), &mut cfg);
    assert_eq!(cfg.channel, "privacy");
    let _ = run_update(false, None, Some("alpha"), &mut cfg, CliUpdateTrigger::UserCommand);
    assert_eq!(cfg.channel, "privacy");
}
