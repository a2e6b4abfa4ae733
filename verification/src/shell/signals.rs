//! Session signal counters kept locally by the shell, as plain values. They
//! are read when building the (never sent) signal and turn-delta records.
use vstd::prelude::*;

verus! {

/// Cumulative signals of a session since it started.
#[derive(Debug, Clone)]
pub struct SessionSignals {
    pub turn_count: u64,
    pub user_message_count: u64,
    pub assistant_message_count: u64,
    pub cancellation_count: u64,
    pub consecutive_cancellations: u64,
    pub error_count: u64,
    pub tool_failure_count: u64,
    pub tool_call_count: u64,
    pub compaction_count: u64,
    pub regeneration_count: u64,
    pub edit_and_retry_count: u64,
    pub positive_ratings: u64,
    pub negative_ratings: u64,
    pub long_pauses_count: u64,
    pub session_duration_seconds: u64,
    pub tools_used: Vec<String>,
    pub models_used: Vec<String>,
    pub primary_model_id: Option<String>,
    pub avg_time_to_first_token_ms: u64,
    pub avg_response_time_ms: u64,
    pub min_time_to_first_token_ms: u64,
    pub max_time_to_first_token_ms: u64,
    pub latency_sample_count: u64,
    pub itl_p50_ms: Option<u64>,
    pub itl_p99_ms: Option<u64>,
    pub itl_max_ms: Option<u64>,
    pub itl_mean_ms: Option<u64>,
    pub total_chunk_count: u64,
    pub itl_sample_count: u64,
    pub inference_idle_timeouts: u64,
    pub inference_idle_timeout_configured_secs: Option<u64>,
    pub doom_loop_recovery_attempts: u64,
    pub doom_loop_recovery_accepted_after_budget: u64,
    pub doom_loop_recovery_top_trigger: Option<String>,
    pub doom_loop_recovery_aborted_chunks: u64,
    pub gcs_queue_enqueued: u64,
    pub gcs_queue_uploaded: u64,
    pub gcs_queue_failed: u64,
    pub gcs_queue_fallbacks: u64,
    pub gcs_queue_circuit_breaker_trips: u64,
    pub gcs_queue_pending: u64,
    pub gcs_queue_pending_bytes: u64,
    pub gcs_queue_orphans_cleaned: u64,
    pub agent_lines_added: i64,
    pub agent_lines_removed: i64,
    pub agent_lines_added_reverted: i64,
    pub agent_lines_removed_reverted: i64,
    pub human_lines_added: i64,
    pub human_lines_removed: i64,
    pub human_lines_added_reverted: i64,
    pub human_lines_removed_reverted: i64,
    pub agent_files_touched: u64,
    pub human_files_touched: u64,
    pub total_files_touched: u64,
    pub context_window_usage: u64,
    pub total_tokens_before_compaction: u64,
}

/// Successes and failures of one tool during a turn.
#[derive(Debug, Clone)]
pub struct ToolOutcome {
    pub tool_name: String,
    pub successes: u64,
    pub failures: u64,
}

/// What changed during one turn: counter deltas and turn-level values.
#[derive(Debug, Clone)]
pub struct TurnDelta {
    pub turn_number: u64,
    pub delta_tool_calls: i64,
    pub delta_tool_failures: i64,
    pub delta_errors: i64,
    pub delta_cancellations: i64,
    pub delta_regenerations: i64,
    pub delta_compactions: i64,
    pub delta_edit_and_retries: i64,
    pub delta_positive_ratings: i64,
    pub delta_negative_ratings: i64,
    pub delta_assistant_messages: i64,
    pub delta_long_pauses: i64,
    pub delta_successful_tool_uses: i64,
    pub consecutive_cancellations: u64,
    pub last_time_to_first_token_ms: Option<u64>,
    pub last_total_response_time_ms: Option<u64>,
    pub last_itl_p50_ms: Option<u64>,
    pub last_itl_p99_ms: Option<u64>,
    pub last_itl_max_ms: Option<u64>,
    pub last_itl_mean_ms: Option<u64>,
    pub tools_this_turn: Vec<String>,
    pub error_types_this_turn: Vec<String>,
    pub tool_outcomes_this_turn: Vec<ToolOutcome>,
    pub response_tokens: Option<u64>,
    pub thinking_tokens: Option<u64>,
    pub delta_agent_lines_added: i64,
    pub delta_agent_lines_removed: i64,
    pub delta_agent_lines_added_reverted: i64,
    pub delta_agent_lines_removed_reverted: i64,
    pub delta_human_lines_added: i64,
    pub delta_human_lines_removed: i64,
    pub delta_human_lines_added_reverted: i64,
    pub delta_human_lines_removed_reverted: i64,
    pub delta_agent_files_touched: i64,
    pub delta_human_files_touched: i64,
    pub delta_total_files_touched: i64,
}

/// A turn's delta with the session's cumulative signals at turn end and the
/// prompt modes the turn started and ended in.
#[derive(Debug, Clone)]
pub struct TurnDeltaSnapshot {
    pub delta: TurnDelta,
    pub current: SessionSignals,
    pub start_prompt_mode: Option<String>,
    pub end_prompt_mode: Option<String>,
}

} // verus!
