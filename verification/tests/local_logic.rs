use grok_privacy::shell::session_registry_client::{LocalSessionSummary, SessionRecord};
use grok_privacy::bundle::bundled_root;
use grok_privacy::changelog::{bullets_from_entries, strip_markdown_inline, usable_cache, ChangelogEntry, ChangelogManager};
use grok_privacy::embedding::MockEmbeddingProvider;
use grok_privacy::file_utils::queue::{sidecar_path_for, strip_sidecar_suffix, temp_path_for_sidecar};
use grok_privacy::file_utils::{sha256_hex, sha256_hex_with_limit};
use grok_privacy::paths::join_relative;
use grok_privacy::shell::heap_profile::{
    clamp_poll_interval_secs, is_valid_session_id, normalize_thresholds, object_paths,
    resolve_jemalloc_heap_profile, sanitize_version, should_latch, DumpAttemptOutcome,
};
use grok_privacy::shell::managed_config::{classify_auth_mode, resolve_deployment_id};
use grok_privacy::shell::relay_sync::build_share_url;
use grok_privacy::shell::upload::trace::mime_type_to_extension;
use grok_privacy::telemetry::config::{deployment_id_from_key, TelemetryConfig, TelemetryMode};
use grok_privacy::telemetry::startup::AuthMode;

fn entry(description: &str) -> ChangelogEntry {
    ChangelogEntry {
        category: "feature".to_owned(),
        description: description.to_owned(),
        breaking_change: false,
    }
}

#[test]
fn sanitize_version_keeps_safe_characters() {
    assert_eq!(sanitize_version("1.2.3-rc_1"), "1.2.3-rc_1");
    assert_eq!(sanitize_version("v1.2 beta!!"), "v1.2_beta");
    assert_eq!(sanitize_version("a_!b"), "a_b");
    assert_eq!(sanitize_version("__x__"), "x");
    assert_eq!(sanitize_version("é/1"), "1");
}

#[test]
fn sanitize_version_falls_back_to_unknown() {
    assert_eq!(sanitize_version(""), "unknown");
    assert_eq!(sanitize_version("___"), "unknown");
    assert_eq!(sanitize_version("!!!"), "unknown");
}

#[test]
fn sanitize_version_is_idempotent_on_examples() {
    for v in ["v1.2 beta!!", "", "__a__b__", "1.0/2.0", "日本"] {
        let once = sanitize_version(v);
        assert_eq!(sanitize_version(&once), once);
        assert!(!once.is_empty());
        assert!(!once.starts_with('_') && !once.ends_with('_'));
    }
}

#[test]
fn object_paths_name_heap_and_meta() {
    let (heap, meta) = object_paths("s1", "1.0 x", 42);
    assert_eq!(heap, "s1/jemalloc/s1-1.0_x-42.heap");
    assert_eq!(meta, "s1/jemalloc/s1-1.0_x-42.meta.json");
}

#[test]
fn normalize_thresholds_sorts_and_dedups() {
    assert_eq!(normalize_thresholds(vec![5, 1, 5, 3]), vec![1, 3, 5]);
    assert_eq!(normalize_thresholds(vec![]), Vec::<u64>::new());
    let once = normalize_thresholds(vec![9, u64::MAX, 0, 9]);
    assert_eq!(once, vec![0, 9, u64::MAX]);
    assert_eq!(normalize_thresholds(once.clone()), once);
    assert_eq!(normalize_thresholds(vec![u64::MAX, 9, 9, 0]), once);
}

#[test]
fn poll_interval_is_clamped() {
    assert_eq!(clamp_poll_interval_secs(None), 30);
    assert_eq!(clamp_poll_interval_secs(Some(0)), 5);
    assert_eq!(clamp_poll_interval_secs(Some(4)), 5);
    assert_eq!(clamp_poll_interval_secs(Some(5)), 5);
    assert_eq!(clamp_poll_interval_secs(Some(60)), 60);
    assert_eq!(clamp_poll_interval_secs(Some(300)), 300);
    assert_eq!(clamp_poll_interval_secs(Some(u64::MAX)), 300);
    let c = clamp_poll_interval_secs(Some(1000));
    assert_eq!(clamp_poll_interval_secs(Some(c)), c);
}

#[test]
fn heap_profiling_is_forced_off() {
    let cfg = resolve_jemalloc_heap_profile(Some(true), Some(&[1, 2]), Some(1), false, true, true);
    assert!(!cfg.enabled);
    assert!(cfg.thresholds.is_empty());
    assert_eq!(cfg.poll_interval.as_secs(), 5);
    assert!(!should_latch(DumpAttemptOutcome::Deferred));
    assert!(should_latch(DumpAttemptOutcome::UploadOk));
    assert!(should_latch(DumpAttemptOutcome::SizeCap));
}

#[test]
fn session_ids_must_be_uuids() {
    assert!(is_valid_session_id("67e55044-10b1-426f-9247-bb680e5fe0c8"));
    assert!(!is_valid_session_id("not-a-uuid"));
    assert!(!is_valid_session_id(""));
}

#[test]
fn sidecar_paths_round_trip() {
    let sidecar = sidecar_path_for("/tmp/q/item.bin");
    assert_eq!(sidecar, "/tmp/q/item.bin.meta.json");
    assert_eq!(temp_path_for_sidecar(&sidecar).as_deref(), Some("/tmp/q/item.bin"));
    assert_eq!(strip_sidecar_suffix("x.meta.json").as_deref(), Some("x"));
    assert_eq!(strip_sidecar_suffix("x.json"), None);
    assert_eq!(temp_path_for_sidecar("/tmp/q/item.bin"), None);
}

#[test]
fn sha256_matches_known_digests() {
    assert_eq!(
        sha256_hex(b"abc"),
        "ba7816bf8f01cfea414140de5dae2223b00361a396177a9cb410ff61f20015ad"
    );
    assert_eq!(
        sha256_hex(b""),
        "e3b0c44298fc1c149afbf4c8996fb92427ae41e4649b934ca495991b7852b855"
    );
    assert_eq!(sha256_hex_with_limit(b"abcdef", Some(3)), sha256_hex(b"abc"));
    assert_eq!(sha256_hex_with_limit(b"abcdef", Some(0)), sha256_hex(b"abcdef"));
    assert_eq!(sha256_hex_with_limit(b"abc", Some(10)), sha256_hex(b"abc"));
    assert_eq!(sha256_hex_with_limit(b"abc", None), sha256_hex(b"abc"));
}

#[test]
fn mime_types_map_to_extensions() {
    assert_eq!(mime_type_to_extension("image/png"), "png");
    assert_eq!(mime_type_to_extension("image/jpg"), "jpeg");
    assert_eq!(mime_type_to_extension("image/jpeg"), "jpeg");
    assert_eq!(mime_type_to_extension("image/svg+xml"), "svg");
    assert_eq!(mime_type_to_extension("image/avif"), "avif");
    assert_eq!(mime_type_to_extension("text/plain"), "bin");
    assert_eq!(mime_type_to_extension("IMAGE/PNG"), "bin");
}

#[test]
fn deployment_ids_are_uuid_v5_of_the_key() {
    let expected = uuid::Uuid::new_v5(&uuid::Uuid::NAMESPACE_OID, b"team-key").to_string();
    assert_eq!(deployment_id_from_key("team-key"), expected);
    assert_eq!(deployment_id_from_key("team-key").len(), 36);
    assert_eq!(resolve_deployment_id(Some("team-key")), Some(expected));
    assert_eq!(resolve_deployment_id(Some("")), None);
    assert_eq!(resolve_deployment_id(None), None);
    assert_eq!(classify_auth_mode(Some("k".to_owned())), AuthMode::Deployment);
    assert_eq!(classify_auth_mode(None), AuthMode::Personal);
}

#[test]
fn mock_embedding_repeats_the_blake3_hash() {
    let provider = MockEmbeddingProvider { dimensions: 40 };
    let hash = blake3::hash(b"hello");
    let bytes = provider.embedding_bytes("hello");
    assert_eq!(bytes.len(), 40);
    for (i, b) in bytes.iter().enumerate() {
        assert_eq!(*b, hash.as_bytes()[i % 32]);
    }
    assert_eq!(provider.model_name(), "mock-embedding");
    assert_eq!(provider.dimensions(), 40);
}

#[test]
fn changelog_bullets_skip_empty_and_strip_markdown() {
    let entries = vec![entry(""), entry("**Bold** `code`"), entry("second"), entry("third")];
    assert_eq!(bullets_from_entries(&entries, 2), vec!["Bold code", "second"]);
    assert_eq!(bullets_from_entries(&entries, 0), Vec::<String>::new());
    assert_eq!(bullets_from_entries(&entries, 10).len(), 3);
    assert_eq!(strip_markdown_inline("a***b"), "a*b");
    assert_eq!(strip_markdown_inline("*`*"), "**");
}

#[test]
fn changelog_caches_live_under_grok_home() {
    let m = ChangelogManager::new(Some("/home/u/.grok"), "/default");
    assert_eq!(m.md_cache(), "/home/u/.grok/CHANGELOG.md");
    assert_eq!(m.json_cache(), "/home/u/.grok/CHANGELOG.json");
    let d = ChangelogManager::new(Some(""), "/default/");
    assert_eq!(d.md_cache(), "/default/CHANGELOG.md");
    let n = ChangelogManager::new(None, "/default");
    assert_eq!(n.json_cache(), "/default/CHANGELOG.json");
    assert_eq!(usable_cache(Some(" \n\t".to_owned())), None);
    assert_eq!(usable_cache(Some("x".to_owned())), Some("x".to_owned()));
    assert_eq!(usable_cache(None), None);
}

#[test]
fn local_paths_are_joined() {
    assert_eq!(join_relative("/a", "b"), "/a/b");
    assert_eq!(join_relative("/a/", "b"), "/a/b");
    assert_eq!(join_relative("", "b"), "b");
    assert_eq!(bundled_root("/home/u/.grok"), "/home/u/.grok/bundled-disabled");
    assert_eq!(build_share_url("abc"), "privacy://relay-disabled/abc");
}

#[test]
fn telemetry_blank_settings_are_no_setting() {
    assert_eq!(TelemetryMode::parse(""), None);
    assert_eq!(TelemetryMode::parse(" \t\n"), None);
    assert_eq!(TelemetryMode::parse(" yes "), Some(TelemetryMode::Disabled));
    assert_eq!(TelemetryMode::Enabled.to_string(), "false");
    assert!(TelemetryMode::Enabled.is_disabled());
    assert!(!TelemetryMode::SessionMetrics.session_metrics_enabled());
    let mut cfg = TelemetryConfig::default();
    cfg.enabled = Some(true);
    cfg.otel_endpoint = Some("https://collector.invalid".to_owned());
    cfg.mixpanel_enabled = true;
    cfg.apply_env_overrides();
    assert_eq!(cfg.enabled, Some(false));
    assert!(cfg.otel_endpoint.is_none());
    assert!(!cfg.mixpanel_enabled);
}

#[test]
fn local_session_summary_becomes_registry_record() {
    let record = SessionRecord::from_summary(LocalSessionSummary {
        session_id: "sess-1".into(),
        cwd: "/work".into(),
        session_summary: "Refactor".into(),
        current_model_id: "grok-code".into(),
        created_at_rfc3339: "2025-01-01T00:00:00+00:00".into(),
        updated_at_rfc3339: "2025-01-02T00:00:00+00:00".into(),
        num_messages: 12,
        last_active_at_rfc3339: None,
    });
    assert_eq!(record.session_id, "sess-1");
    assert_eq!(record.summary, "Refactor");
    assert_eq!(record.model_id.as_deref(), Some("grok-code"));
    assert_eq!(record.last_turn_number, 12);
    assert_eq!(record.status, "local");
    assert_eq!(record.cwd, "/work");
    assert!(record.gcs_bucket.is_empty() && record.gcs_trace_prefix.is_empty());
    assert!(record.first_prompt.is_none() && record.hostname.is_none());
    let wrapped = SessionRecord::from_summary(LocalSessionSummary {
        session_id: String::new(),
        cwd: String::new(),
        session_summary: String::new(),
        current_model_id: String::new(),
        created_at_rfc3339: String::new(),
        updated_at_rfc3339: String::new(),
        num_messages: (i32::MAX as usize) + 1,
        last_active_at_rfc3339: Some("t".into()),
    });
    assert_eq!(wrapped.last_turn_number, i32::MIN);
    assert_eq!(wrapped.last_active_at.as_deref(), Some("t"));
}

#[test]
fn session_ids_accept_every_uuid_shape() {
    assert!(is_valid_session_id("67e5504410b1426f9247bb680e5fe0c8"));
    assert!(is_valid_session_id("{67e55044-10b1-426f-9247-bb680e5fe0c8}"));
    assert!(is_valid_session_id("URN:uuid:67e55044-10b1-426f-9247-bb680e5fe0c8"));
    assert!(is_valid_session_id("67E55044-10B1-426F-9247-BB680E5FE0C8"));
    assert!(!is_valid_session_id("67e55044-10b1-426f-9247-bb680e5fe0cg"));
    assert!(!is_valid_session_id("67e55044_10b1-426f-9247-bb680e5fe0c8"));
    assert!(!is_valid_session_id("urn:uuid-67e55044-10b1-426f-9247-bb680e5fe0c8"));
}
