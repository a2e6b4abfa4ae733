use grok_privacy::file_utils::gcs::StorageConfig;
use grok_privacy::file_utils::upload_config::{unset_config, TraceExportConfig};
use grok_privacy::shell::upload::gcs::WithAuth;
use grok_privacy::fastrace_compat::{
    init_fastrace, span_ctx_or_random, span_parent_for, traceparent_of, SpanCtx,
    TraceExportDisabled, TRACE_EXPORT_DISABLED_MESSAGE,
};
use grok_privacy::file_utils::upload_config::UploadMethod;
use grok_privacy::file_utils::queue::TraceExportSource;
use grok_privacy::managed_mcp::{
    call_gateway_tool, fetch_gateway_tool_catalog, normalize_url, GatewayTool, GatewayToolCatalog,
    GatewayToolCatalogCache, ManagedMcpFetchError, ManagedMcpState,
};
use grok_privacy::shell::upload::turn::{
    apply_yolo_mode_to_matching_sessions, finish_streaming_partial, lookup_session_model,
    parse_ask_user_question_from_meta, SessionYoloSlot, StreamingTurnCapture,
};
use grok_privacy::workspace::export_github::{run_export, ExportGithubParams};
use grok_privacy::workspace::upload::{upload_tool_state_queued, WorkspaceTraceExportSource};
use grok_privacy::file_utils::queue::UploadQueue;
use std::sync::Arc;

const TRACEPARENT: &str = "00-0af7651916cd43dd8448eb211c80319c-b7ad6b7169203331-01";

fn is_inert(s: &ManagedMcpState) -> bool {
    !s.gateway_tools_active && matches!(s.gateway_tool_cache, GatewayToolCatalogCache::NotFetched)
}

fn empty_catalog() -> GatewayToolCatalog {
    GatewayToolCatalog { tools: vec![], total_tools: 0, connectors_needing_reauth: vec![] }
}

#[test]
fn gateway_state_never_activates_and_epoch_advances() {
    let mut s = ManagedMcpState::default();
    assert!(is_inert(&s));
    assert_eq!(s.gateway_tool_epoch, 0);
    assert_eq!(s.enable_gateway_tools(), 1);
    assert!(is_inert(&s));
    assert_eq!(s.start_gateway_tool_fetch(), None);
    assert_eq!(s.gateway_tool_epoch, 1);
    assert!(!s.complete_gateway_tool_fetch(1, empty_catalog()));
    assert_eq!(s.gateway_tool_epoch, 2);
    s.fail_gateway_tool_fetch(2);
    assert_eq!(s.gateway_tool_epoch, 3);
    assert!(is_inert(&s));
    s.gateway_tool_epoch = u64::MAX;
    s.disable_gateway_tools();
    assert_eq!(s.gateway_tool_epoch, 0);
    assert!(is_inert(&s));
}

#[test]
fn gateway_requests_are_refused_with_403() {
    let err = fetch_gateway_tool_catalog("https://proxy.invalid", "key").unwrap_err();
    assert_eq!(err.to_string(), "HTTP 403: vendor-managed MCP gateway disabled by privacy build");
    let err = call_gateway_tool("https://proxy.invalid", "key", "id", serde_json::Value::Null)
        .unwrap_err();
    assert!(matches!(err, ManagedMcpFetchError::Status { status: 403, .. }));
    assert_eq!(ManagedMcpFetchError::Transport("reset".into()).to_string(), "transport: reset");
    assert_eq!(ManagedMcpFetchError::NoAuth.to_string(), "no auth token available");
}

#[test]
fn gateway_tool_names_and_urls() {
    let tool = GatewayTool {
        connector_id: "gh".into(),
        connector_name: "GitHub".into(),
        tool_id: "search".into(),
        tool_name: "Search".into(),
        call_id: "c".into(),
        description: String::new(),
        json_schema: serde_json::Value::Null,
    };
    assert_eq!(tool.qualified_name(), "gh__search");
    assert_eq!(normalize_url("https://a.invalid/b//"), "https://a.invalid/b");
    assert_eq!(normalize_url("https://a.invalid"), "https://a.invalid");
    assert_eq!(normalize_url("///"), "");
    let once = normalize_url("x//");
    assert_eq!(normalize_url(&once), once);
}

#[test]
fn traceparent_decodes_and_encodes_back() {
    let parent = span_parent_for(TRACEPARENT).expect("valid traceparent");
    assert_eq!(
        parent,
        SpanCtx { trace_id: 0x0af7651916cd43dd8448eb211c80319c, span_id: 0xb7ad6b7169203331, sampled: true }
    );
    assert_eq!(traceparent_of(Some(parent)).as_deref(), Some(TRACEPARENT));
    assert_eq!(traceparent_of(None), None);
    let unsampled = SpanCtx { trace_id: 1, span_id: 2, sampled: false };
    assert_eq!(
        traceparent_of(Some(unsampled)).as_deref(),
        Some("00-00000000000000000000000000000001-0000000000000002-00")
    );
}

#[test]
fn malformed_traceparents_are_rejected() {
    assert_eq!(span_parent_for("garbage"), None);
    assert_eq!(span_parent_for("01-0af7651916cd43dd8448eb211c80319c-b7ad6b7169203331-01"), None);
    assert_eq!(span_parent_for("00-00000000000000000000000000000000-b7ad6b7169203331-01"), None);
    assert_eq!(span_parent_for("00-0af7651916cd43dd8448eb211c80319c-0000000000000000-01"), None);
}

#[test]
fn random_context_is_a_fresh_sampled_root() {
    let fresh = span_ctx_or_random(None);
    assert_eq!(fresh.span_id, 0);
    assert!(fresh.sampled);
    let given = SpanCtx { trace_id: 7, span_id: 8, sampled: false };
    assert_eq!(span_ctx_or_random(Some(given)), given);
}

#[test]
fn trace_export_is_never_installed() {
    let attrs: Vec<(String, String)> = vec![("service.name".into(), "grok".into())];
    assert_eq!(
        init_fastrace("http://collector.invalid".into(), "grok".into(), attrs),
        Err(TraceExportDisabled)
    );
    assert_eq!(TraceExportDisabled.to_string(), TRACE_EXPORT_DISABLED_MESSAGE);
}

fn capture(model: Option<&str>, reason: Option<&str>, doom: bool) -> StreamingTurnCapture {
    StreamingTurnCapture {
        model_id: model.map(str::to_owned),
        reason: reason.map(str::to_owned),
        has_doom_loop_segments: doom,
    }
}

#[test]
fn streaming_partials_are_finished_locally() {
    assert!(finish_streaming_partial(None, false, Some("m".into())).is_none());
    assert!(finish_streaming_partial(Some(capture(None, None, false)), true, None).is_none());
    let kept = finish_streaming_partial(Some(capture(None, None, true)), true, Some("m".into()))
        .unwrap();
    assert_eq!(kept.model_id.as_deref(), Some("m"));
    assert_eq!(kept.reason.as_deref(), Some("doom_loop_recovered"));
    let kept = finish_streaming_partial(Some(capture(Some("own"), Some("r"), true)), true, Some("m".into()))
        .unwrap();
    assert_eq!(kept.model_id.as_deref(), Some("own"));
    assert_eq!(kept.reason.as_deref(), Some("r"));
    let kept = finish_streaming_partial(Some(capture(None, None, false)), false, Some("m".into()))
        .unwrap();
    assert_eq!(kept.model_id.as_deref(), Some("m"));
    assert_eq!(kept.reason, None);
}

fn slot(origin: Option<&str>, yolo: bool) -> SessionYoloSlot {
    SessionYoloSlot { origin_product: origin.map(str::to_owned), yolo_mode: yolo }
}

#[test]
fn yolo_mode_reaches_only_matching_sessions() {
    let mut sessions = vec![slot(Some("cli"), false), slot(Some("ide"), false), slot(None, false)];
    let updated = apply_yolo_mode_to_matching_sessions(&mut sessions, Some("cli"), true);
    assert_eq!(updated, vec![0]);
    assert!(sessions[0].yolo_mode);
    assert!(!sessions[1].yolo_mode && !sessions[2].yolo_mode);
    let updated = apply_yolo_mode_to_matching_sessions(&mut sessions, None, true);
    assert_eq!(updated, vec![0, 1, 2]);
    assert!(sessions.iter().all(|s| s.yolo_mode));
    assert_eq!(sessions[1].origin_product.as_deref(), Some("ide"));
}

#[test]
fn prompt_meta_and_model_lookup() {
    let mut meta = serde_json::Map::new();
    assert_eq!(parse_ask_user_question_from_meta(None), None);
    assert_eq!(parse_ask_user_question_from_meta(Some(&meta)), None);
    meta.insert("askUserQuestion".into(), serde_json::Value::Bool(true));
    assert_eq!(parse_ask_user_question_from_meta(Some(&meta)), Some(true));
    meta.insert("askUserQuestion".into(), serde_json::Value::String("yes".into()));
    assert_eq!(parse_ask_user_question_from_meta(Some(&meta)), None);
    assert_eq!(lookup_session_model(Some("a".to_owned()), &"d".to_owned()), "a");
    assert_eq!(lookup_session_model(None, &"d".to_owned()), "d");
}

#[test]
fn workspace_export_and_uploads_are_refused() {
    let params = ExportGithubParams {
        project_dir: "/work/project",
        repo_full_name: Some("me/repo"),
        remote_url_base: "https://github.invalid",
        web_url_base: "https://github.invalid",
        branch: None,
        commit_message: None,
    };
    let failure = run_export::<()>(params).unwrap_err();
    assert_eq!(failure.message, "repository export was removed from this privacy build");
    let cfg = WorkspaceTraceExportSource.resolve();
    assert!(cfg.bucket_url.is_none() && cfg.gcs_prefix.is_none() && !cfg.absolute_paths);
    assert!(matches!(cfg.upload_method, UploadMethod::Direct { service_account_key: None }));
    assert!(upload_tool_state_queued(vec![1, 2], "s".into(), 1, Arc::new(UploadQueue::disabled())).is_err());
}

#[test]
fn storage_configs_keep_their_bucket_and_drop_auth() {
    let mut cfg: TraceExportConfig = unset_config();
    assert_eq!(cfg.bucket_url(), "");
    cfg.bucket_url = Some("gs://bucket".to_owned());
    let wrapped = cfg.with_auth::<()>(None);
    assert_eq!(wrapped.bucket_url(), "gs://bucket");
    assert!(matches!(wrapped.upload_method(), UploadMethod::Direct { service_account_key: None }));
}
