use grok_privacy::shell::feedback_client::{signals_to_update, snapshot_to_turn_delta};
use grok_privacy::shell::privacy_build::REMOVED_MESSAGE;
use grok_privacy::shell::heap_profile::{resolve_jemalloc_heap_profile, HeapProfileMonitor};
use grok_privacy::shell::relay::RelayConfig;
use grok_privacy::shell::relay_sync::{ConnectionState, RelaySync, RelaySyncState};
use std::cell::{Cell, RefCell};
use grok_privacy::shell::signals::{SessionSignals, ToolOutcome, TurnDelta, TurnDeltaSnapshot};
use grok_privacy::time::Duration;

fn signals() -> SessionSignals {
    SessionSignals {
        turn_count: 3,
        user_message_count: 4,
        assistant_message_count: 5,
        cancellation_count: 1,
        consecutive_cancellations: 0,
        error_count: 2,
        tool_failure_count: 1,
        tool_call_count: 9,
        compaction_count: 0,
        regeneration_count: 0,
        edit_and_retry_count: 0,
        positive_ratings: 1,
        negative_ratings: 0,
        long_pauses_count: 0,
        session_duration_seconds: 600,
        tools_used: vec!["read".into(), "edit".into()],
        models_used: vec!["grok-code".into()],
        primary_model_id: Some("grok-code".into()),
        avg_time_to_first_token_ms: 120,
        avg_response_time_ms: 900,
        min_time_to_first_token_ms: 80,
        max_time_to_first_token_ms: 200,
        latency_sample_count: 3,
        itl_p50_ms: Some(12),
        itl_p99_ms: Some(40),
        itl_max_ms: Some(55),
        itl_mean_ms: Some(15),
        total_chunk_count: 300,
        itl_sample_count: 0,
        inference_idle_timeouts: 0,
        inference_idle_timeout_configured_secs: Some(90),
        doom_loop_recovery_attempts: 0,
        doom_loop_recovery_accepted_after_budget: 2,
        doom_loop_recovery_top_trigger: None,
        doom_loop_recovery_aborted_chunks: 0,
        gcs_queue_enqueued: 0,
        gcs_queue_uploaded: 0,
        gcs_queue_failed: 0,
        gcs_queue_fallbacks: 0,
        gcs_queue_circuit_breaker_trips: 0,
        gcs_queue_pending: 0,
        gcs_queue_pending_bytes: u64::MAX,
        gcs_queue_orphans_cleaned: 0,
        agent_lines_added: 10,
        agent_lines_removed: -1,
        agent_lines_added_reverted: 0,
        agent_lines_removed_reverted: 0,
        human_lines_added: 2,
        human_lines_removed: 0,
        human_lines_added_reverted: 0,
        human_lines_removed_reverted: 0,
        agent_files_touched: 2,
        human_files_touched: 1,
        total_files_touched: 3,
        context_window_usage: 42,
        total_tokens_before_compaction: 7000,
    }
}

fn delta() -> TurnDelta {
    TurnDelta {
        turn_number: 3,
        delta_tool_calls: 4,
        delta_tool_failures: 1,
        delta_errors: 0,
        delta_cancellations: 0,
        delta_regenerations: 0,
        delta_compactions: 0,
        delta_edit_and_retries: 0,
        delta_positive_ratings: 0,
        delta_negative_ratings: 0,
        delta_assistant_messages: 2,
        delta_long_pauses: 0,
        delta_successful_tool_uses: 3,
        consecutive_cancellations: 0,
        last_time_to_first_token_ms: Some(100),
        last_total_response_time_ms: None,
        last_itl_p50_ms: Some(11),
        last_itl_p99_ms: None,
        last_itl_max_ms: None,
        last_itl_mean_ms: None,
        tools_this_turn: vec!["edit".into()],
        error_types_this_turn: vec![],
        tool_outcomes_this_turn: vec![],
        response_tokens: Some(250),
        thinking_tokens: None,
        delta_agent_lines_added: 5,
        delta_agent_lines_removed: 0,
        delta_agent_lines_added_reverted: 0,
        delta_agent_lines_removed_reverted: 0,
        delta_human_lines_added: 0,
        delta_human_lines_removed: 0,
        delta_human_lines_added_reverted: 0,
        delta_human_lines_removed_reverted: 0,
        delta_agent_files_touched: 1,
        delta_human_files_touched: 0,
        delta_total_files_touched: 1,
    }
}

#[test]
fn signals_map_to_wire_update() {
    let u = signals_to_update(&signals(), "cli");
    assert_eq!(u.client_type, "cli");
    assert_eq!(u.total_turns, Some(3));
    assert_eq!(u.tool_call_count, Some(9));
    assert_eq!(u.session_duration_seconds, Some(600));
    assert_eq!(u.tools_used, vec!["read".to_owned(), "edit".to_owned()]);
    assert_eq!(u.primary_model_id.as_deref(), Some("grok-code"));
    assert_eq!(u.last_itl_p50_ms, None);
    assert_eq!(u.last_itl_p99_ms, None);
    assert_eq!(u.worst_itl_max_ms, Some(55));
    assert_eq!(u.doom_loop_recovery_fired, Some(true));
    assert!(u.doom_loop_warnings.is_none() && u.doom_loop_threshold.is_none());
    assert_eq!(u.gcs_queue_pending_bytes, Some(-1));
    assert_eq!(u.agent_lines_removed, Some(-1));
    assert!(u.metadata.is_none());
}

#[test]
fn itl_percentiles_are_sent_once_sampled() {
    let mut s = signals();
    s.itl_sample_count = 4;
    s.doom_loop_recovery_accepted_after_budget = 0;
    let u = signals_to_update(&s, ());
    assert_eq!(u.last_itl_p50_ms, Some(12));
    assert_eq!(u.last_itl_p99_ms, Some(40));
    assert_eq!(u.doom_loop_recovery_fired, Some(false));
}

#[test]
fn turn_delta_copies_snapshot() {
    let snapshot = TurnDeltaSnapshot {
        delta: delta(),
        current: signals(),
        start_prompt_mode: None,
        end_prompt_mode: None,
    };
    let d = snapshot_to_turn_delta(
        &snapshot,
        "cli",
        Some("req-1".into()),
        2,
        Some(17u64),
        true,
        Some(1200),
        Some("completed".into()),
        None,
        "[{\"tool_name\":\"edit\"}]".into(),
    );
    assert_eq!(d.turn_number, 3);
    assert_eq!(d.delta_tool_calls, 4);
    assert_eq!(d.time_to_first_token_ms, Some(100));
    assert_eq!(d.itl_p50_ms, Some(11));
    assert_eq!(d.context_window_usage, 42);
    assert_eq!(d.model_id.as_deref(), Some("grok-code"));
    assert_eq!(d.cumulative_tool_calls, 9);
    assert_eq!(d.total_tokens_before_compaction, 7000);
    assert_eq!(d.tool_outcomes, "");
    assert!(d.metadata.is_none());
    assert!(d.session_start_at.is_none());
    assert_eq!(d.last_feedback_request_at, Some(17));
    assert_eq!(d.feedback_requests_sent, 2);
    assert_eq!(d.request_id.as_deref(), Some("req-1"));
    assert!(d.loc_tracking_enabled);
}

#[test]
fn turn_delta_metadata_and_outcomes() {
    let mut t = delta();
    t.tool_outcomes_this_turn = vec![ToolOutcome { tool_name: "edit".into(), successes: 1, failures: 0 }];
    let snapshot = TurnDeltaSnapshot {
        delta: t,
        current: signals(),
        start_prompt_mode: Some("plan".into()),
        end_prompt_mode: None,
    };
    let d = snapshot_to_turn_delta::<(), u64>(
        &snapshot, (), None, 0, None, false, None, None, None, "[1]".into(),
    );
    assert_eq!(d.tool_outcomes, "[1]");
    let m = d.metadata.expect("a mode is known");
    assert_eq!(m.start_prompt_mode.as_deref(), Some("plan"));
    assert_eq!(m.end_prompt_mode, None);
}

#[test]
fn sync_state_save_is_permission_denied() {
    let err = RelaySyncState::default().save("/tmp/session").unwrap_err();
    assert_eq!(err.kind(), std::io::ErrorKind::PermissionDenied);
    assert_eq!(err.to_string(), REMOVED_MESSAGE);
}

#[test]
fn duration_new_carries_whole_seconds() {
    let d = Duration::new(1, 2_500_000_000);
    assert_eq!(d.as_secs(), 3);
    assert_eq!(d.subsec_nanos(), 500_000_000);
}

#[test]
fn relay_status_callback_hears_disconnected_once() {
    let seen = RefCell::new(Vec::new());
    let relay = RelaySync::new("s".into(), RelayConfig, 7u8, None, Some(|s: ConnectionState| seen.borrow_mut().push(s)));
    assert_eq!(*seen.borrow(), vec![ConnectionState::Disconnected]);
    assert_eq!(relay.session_id(), "s");
    assert!(!relay.is_connected());
    let quiet = RelaySync::new("t".into(), RelayConfig, 1u8, None, None::<fn(ConnectionState)>);
    assert_eq!(quiet.agent_type(), 1);
}

#[test]
fn reconfigure_turns_profiling_off() {
    let mut m = HeapProfileMonitor::new();
    let mut cfg = resolve_jemalloc_heap_profile(Some(true), None, Some(60), false, true, true);
    cfg.enabled = true;
    cfg.thresholds = vec![1, 2];
    let called = Cell::new(None);
    m.reconfigure(cfg, None, |active: bool| called.set(Some(active)));
    assert_eq!(called.get(), Some(false));
    assert!(!m.config().enabled);
    assert!(m.config().thresholds.is_empty());
    assert_eq!(m.config().poll_interval.as_secs(), 60);
}

#[test]
fn absolute_components_replace_the_base() {
    assert_eq!(grok_privacy::paths::join_relative("/a", "/etc/x"), "/etc/x");
    assert_eq!(grok_privacy::paths::join_relative("/a", ""), "/a/");
}
