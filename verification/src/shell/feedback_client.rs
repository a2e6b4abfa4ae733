//! No-network feedback/signals facade: every transport method fails before
//! serializing or reading its payload.
use super::privacy_build::PrivacyRemovedError;
use super::signals::{SessionSignals, TurnDelta, TurnDeltaSnapshot};
use crate::text::{copy_option_string, copy_strings};
use vstd::prelude::*;

verus! {

/// An HTTP error from the feedback/signals API with its status code.
#[derive(Debug, Clone)]
pub struct FeedbackApiError {
    pub status: u16,
    pub context: &'static str,
    pub body: String,
}

impl FeedbackApiError {
    /// Whether this is a 401 Unauthorized response.
    pub fn is_unauthorized(&self) -> (res: bool)
        ensures
            res == (self.status == 401),
    {
        self.status == 401
    }

    /// Whether this is a 403 Forbidden response.
    pub fn is_forbidden(&self) -> (res: bool)
        ensures
            res == (self.status == 403),
    {
        self.status == 403
    }
}

/// A client facade with no transport: it only remembers a session id.
#[derive(Clone, Debug, Default)]
pub struct FeedbackClient {
    session_id: Option<String>,
}

impl FeedbackClient {
    /// The session id this client was tagged with.
    pub closed spec fn session_id_view(&self) -> Option<Seq<char>> {
        match self.session_id {
            Some(s) => Some(s@),
            None => None,
        }
    }

    /// Endpoint and token are discarded.
    pub fn new(_base_url: String, _user_token: Option<String>) -> (c: FeedbackClient)
        ensures
            c.session_id_view() is None,
    {
        FeedbackClient { session_id: None }
    }

    /// Tag the client with a session id.
    pub fn with_session_id(self, session_id: String) -> (c: FeedbackClient)
        ensures
            c.session_id_view() == Some(session_id@),
    {
        FeedbackClient { session_id: Some(session_id) }
    }

    /// The key is discarded.
    pub fn with_alpha_test_key(self, _key: Option<String>) -> (c: FeedbackClient)
        ensures
            c == self,
    {
        self
    }

    /// The key is discarded.
    pub fn with_deployment_key(self, _key: Option<String>) -> (c: FeedbackClient)
        ensures
            c == self,
    {
        self
    }

    /// The HTTP client, endpoint and token are discarded.
    pub fn with_client<T>(_http: T, _base_url: String, _user_token: Option<String>) -> (c:
        FeedbackClient)
        ensures
            c.session_id_view() is None,
    {
        FeedbackClient { session_id: None }
    }

    /// The auth manager is discarded.
    pub fn with_auth_manager<A>(self, _auth_manager: A) -> (c: FeedbackClient)
        ensures
            c == self,
    {
        self
    }

    /// No token refresher exists.
    pub fn has_token_refresher(&self) -> (res: bool)
        ensures
            !res,
    {
        false
    }

    /// Credentials are never refreshed.
    pub fn try_refresh_credentials(&self) -> (res: bool)
        ensures
            !res,
    {
        false
    }

    /// No refresh ever completes.
    pub fn wait_for_token_refresh(&self, _timeout: crate::time::Duration) -> (res: bool)
        ensures
            !res,
    {
        false
    }

    /// Authentication counts as permanently failed, so callers stop trying.
    pub fn is_auth_permanently_failed(&self) -> (res: bool)
        ensures
            res,
    {
        true
    }

    fn removed<T>(&self) -> (res: Result<T, PrivacyRemovedError>)
        ensures
            res matches Err(e) && e == PrivacyRemovedError,
    {
        Err(PrivacyRemovedError)
    }

    /// Removed: would send a session-signals update.
    pub fn update_signals<U, R>(&self, _session_id: &str, _update: &U) -> (res: Result<
        R,
        PrivacyRemovedError,
    >)
        ensures
            res matches Err(e) && e == PrivacyRemovedError,
    {
        self.removed()
    }

    /// Removed: would record a session event.
    pub fn record_event<E, R>(&self, _session_id: &str, _event: &E) -> (res: Result<
        R,
        PrivacyRemovedError,
    >)
        ensures
            res matches Err(e) && e == PrivacyRemovedError,
    {
        self.removed()
    }

    /// Removed: would submit feedback.
    pub fn submit_feedback<S, R>(&self, _submission: &S) -> (res: Result<R, PrivacyRemovedError>)
        ensures
            res matches Err(e) && e == PrivacyRemovedError,
    {
        self.removed()
    }

    /// Removed: would complete a feedback request.
    pub fn complete_request<S>(&self, _request_id: &str, _submission: &S) -> (res: Result<
        (),
        PrivacyRemovedError,
    >)
        ensures
            res matches Err(e) && e == PrivacyRemovedError,
    {
        self.removed()
    }

    /// Removed: would dismiss a feedback request.
    pub fn dismiss_request<R>(&self, _request_id: &str) -> (res: Result<R, PrivacyRemovedError>)
        ensures
            res matches Err(e) && e == PrivacyRemovedError,
    {
        self.removed()
    }

    /// Removed: would create a feedback request.
    pub fn create_feedback_request<I, R>(&self, _input: &I) -> (res: Result<
        R,
        PrivacyRemovedError,
    >)
        ensures
            res matches Err(e) && e == PrivacyRemovedError,
    {
        self.removed()
    }

    /// Removed: would fetch the feedback heuristics configuration.
    pub fn get_feedback_config<R>(&self) -> (res: Result<R, PrivacyRemovedError>)
        ensures
            res matches Err(e) && e == PrivacyRemovedError,
    {
        self.removed()
    }

    /// Removed: would send a per-turn delta.
    pub fn send_turn_delta<D, R>(&self, _session_id: &str, _delta: &D) -> (res: Result<
        R,
        PrivacyRemovedError,
    >)
        ensures
            res matches Err(e) && e == PrivacyRemovedError,
    {
        self.removed()
    }
}


/// A session-signals update as it would go on the wire; the client surface
/// is a type parameter.
#[derive(Debug, Clone)]
pub struct SessionSignalsUpdate<C> {
    pub client_type: C,
    pub total_turns: Option<i64>,
    pub user_message_count: Option<i64>,
    pub assistant_message_count: Option<i64>,
    pub cancellation_count: Option<i64>,
    pub consecutive_cancellations: Option<i64>,
    pub error_count: Option<i64>,
    pub tool_failure_count: Option<i64>,
    pub tool_call_count: Option<i64>,
    pub compaction_count: Option<i64>,
    pub regeneration_count: Option<i64>,
    pub edit_and_retry_count: Option<i64>,
    pub positive_ratings: Option<i64>,
    pub negative_ratings: Option<i64>,
    pub long_pauses_count: Option<i64>,
    pub session_duration_seconds: Option<i64>,
    pub tools_used: Vec<String>,
    pub models_used: Vec<String>,
    pub primary_model_id: Option<String>,
    pub avg_time_to_first_token_ms: Option<i64>,
    pub avg_response_time_ms: Option<i64>,
    pub min_time_to_first_token_ms: Option<i64>,
    pub max_time_to_first_token_ms: Option<i64>,
    pub latency_sample_count: Option<i64>,
    pub last_itl_p50_ms: Option<i64>,
    pub last_itl_p99_ms: Option<i64>,
    pub worst_itl_max_ms: Option<i64>,
    pub avg_itl_mean_ms: Option<i64>,
    pub total_chunk_count: Option<i64>,
    pub itl_sample_count: Option<i64>,
    pub inference_idle_timeouts: Option<i64>,
    pub inference_idle_timeout_configured_secs: Option<i64>,
    pub doom_loop_warnings: Option<i64>,
    pub doom_loop_terminations: Option<i64>,
    pub doom_loop_threshold: Option<i64>,
    pub doom_loop_ro_threshold: Option<i64>,
    pub doom_loop_recovery_fired: Option<bool>,
    pub doom_loop_recovery_attempts: Option<i64>,
    pub doom_loop_recovery_accepted_after_budget: Option<i64>,
    pub doom_loop_recovery_top_trigger: Option<String>,
    pub doom_loop_recovery_aborted_chunks: Option<i64>,
    pub gcs_queue_enqueued: Option<i64>,
    pub gcs_queue_uploaded: Option<i64>,
    pub gcs_queue_failed: Option<i64>,
    pub gcs_queue_fallbacks: Option<i64>,
    pub gcs_queue_circuit_breaker_trips: Option<i64>,
    pub gcs_queue_pending: Option<i64>,
    pub gcs_queue_pending_bytes: Option<i64>,
    pub gcs_queue_orphans_cleaned: Option<i64>,
    pub agent_lines_added: Option<i64>,
    pub agent_lines_removed: Option<i64>,
    pub agent_lines_added_reverted: Option<i64>,
    pub agent_lines_removed_reverted: Option<i64>,
    pub human_lines_added: Option<i64>,
    pub human_lines_removed: Option<i64>,
    pub human_lines_added_reverted: Option<i64>,
    pub human_lines_removed_reverted: Option<i64>,
    pub agent_files_touched: Option<i64>,
    pub human_files_touched: Option<i64>,
    pub total_files_touched: Option<i64>,
    pub metadata: Option<serde_json::Value>,
}

/// A counter as the wire's signed 64-bit value (`as i64`).
pub open spec fn wire(x: u64) -> i64 {
    x as i64
}

/// An optional measurement as the wire's signed 64-bit value.
pub open spec fn wire_opt(o: Option<u64>) -> Option<i64> {
    match o {
        Some(v) => Some(v as i64),
        None => None,
    }
}

fn to_wire(o: Option<u64>) -> (r: Option<i64>)
    ensures
        r == wire_opt(o),
{
    match o {
        Some(v) => Some(v as i64),
        None => None,
    }
}

/// Whether the (server-detected, client-resampled) doom-loop recovery fired.
pub open spec fn doom_loop_recovery_fired(s: SessionSignals) -> bool {
    s.doom_loop_recovery_attempts > 0 || s.doom_loop_recovery_accepted_after_budget > 0
}

/// A percentile of inter-token latency, reported only once some latency was
/// sampled, so a fresh session sends no value.
pub open spec fn guarded_itl(s: SessionSignals, percentile: Option<u64>) -> Option<i64> {
    if s.itl_sample_count > 0 {
        wire_opt(percentile)
    } else {
        None
    }
}

/// `u` is the update made from `s`: every counter as `Some` of its wire
/// value, the p50/p99 latencies guarded by the sample count, the recovery
/// flag derived, the lists and names copied, and the legacy client-side
/// doom-loop columns and the metadata left empty.
pub open spec fn is_update_of<C>(u: SessionSignalsUpdate<C>, s: SessionSignals, client_type: C) -> bool {
    &&& u.client_type == client_type
    &&& u.total_turns == Some(wire(s.turn_count))
    &&& u.user_message_count == Some(wire(s.user_message_count))
    &&& u.assistant_message_count == Some(wire(s.assistant_message_count))
    &&& u.cancellation_count == Some(wire(s.cancellation_count))
    &&& u.consecutive_cancellations == Some(wire(s.consecutive_cancellations))
    &&& u.error_count == Some(wire(s.error_count))
    &&& u.tool_failure_count == Some(wire(s.tool_failure_count))
    &&& u.tool_call_count == Some(wire(s.tool_call_count))
    &&& u.compaction_count == Some(wire(s.compaction_count))
    &&& u.regeneration_count == Some(wire(s.regeneration_count))
    &&& u.edit_and_retry_count == Some(wire(s.edit_and_retry_count))
    &&& u.positive_ratings == Some(wire(s.positive_ratings))
    &&& u.negative_ratings == Some(wire(s.negative_ratings))
    &&& u.long_pauses_count == Some(wire(s.long_pauses_count))
    &&& u.session_duration_seconds == Some(wire(s.session_duration_seconds))
    &&& u.tools_used@ == s.tools_used@
    &&& u.models_used@ == s.models_used@
    &&& u.primary_model_id == s.primary_model_id
    &&& u.avg_time_to_first_token_ms == Some(wire(s.avg_time_to_first_token_ms))
    &&& u.avg_response_time_ms == Some(wire(s.avg_response_time_ms))
    &&& u.min_time_to_first_token_ms == Some(wire(s.min_time_to_first_token_ms))
    &&& u.max_time_to_first_token_ms == Some(wire(s.max_time_to_first_token_ms))
    &&& u.latency_sample_count == Some(wire(s.latency_sample_count))
    &&& u.last_itl_p50_ms == guarded_itl(s, s.itl_p50_ms)
    &&& u.last_itl_p99_ms == guarded_itl(s, s.itl_p99_ms)
    &&& u.worst_itl_max_ms == wire_opt(s.itl_max_ms)
    &&& u.avg_itl_mean_ms == wire_opt(s.itl_mean_ms)
    &&& u.total_chunk_count == Some(wire(s.total_chunk_count))
    &&& u.itl_sample_count == Some(wire(s.itl_sample_count))
    &&& u.inference_idle_timeouts == Some(wire(s.inference_idle_timeouts))
    &&& u.inference_idle_timeout_configured_secs == wire_opt(s.inference_idle_timeout_configured_secs)
    &&& u.doom_loop_warnings is None
    &&& u.doom_loop_terminations is None
    &&& u.doom_loop_threshold is None
    &&& u.doom_loop_ro_threshold is None
    &&& u.doom_loop_recovery_fired == Some(doom_loop_recovery_fired(s))
    &&& u.doom_loop_recovery_attempts == Some(wire(s.doom_loop_recovery_attempts))
    &&& u.doom_loop_recovery_accepted_after_budget == Some(
        wire(s.doom_loop_recovery_accepted_after_budget),
    )
    &&& u.doom_loop_recovery_top_trigger == s.doom_loop_recovery_top_trigger
    &&& u.doom_loop_recovery_aborted_chunks == Some(wire(s.doom_loop_recovery_aborted_chunks))
    &&& u.gcs_queue_enqueued == Some(wire(s.gcs_queue_enqueued))
    &&& u.gcs_queue_uploaded == Some(wire(s.gcs_queue_uploaded))
    &&& u.gcs_queue_failed == Some(wire(s.gcs_queue_failed))
    &&& u.gcs_queue_fallbacks == Some(wire(s.gcs_queue_fallbacks))
    &&& u.gcs_queue_circuit_breaker_trips == Some(wire(s.gcs_queue_circuit_breaker_trips))
    &&& u.gcs_queue_pending == Some(wire(s.gcs_queue_pending))
    &&& u.gcs_queue_pending_bytes == Some(wire(s.gcs_queue_pending_bytes))
    &&& u.gcs_queue_orphans_cleaned == Some(wire(s.gcs_queue_orphans_cleaned))
    &&& u.agent_lines_added == Some(s.agent_lines_added)
    &&& u.agent_lines_removed == Some(s.agent_lines_removed)
    &&& u.agent_lines_added_reverted == Some(s.agent_lines_added_reverted)
    &&& u.agent_lines_removed_reverted == Some(s.agent_lines_removed_reverted)
    &&& u.human_lines_added == Some(s.human_lines_added)
    &&& u.human_lines_removed == Some(s.human_lines_removed)
    &&& u.human_lines_added_reverted == Some(s.human_lines_added_reverted)
    &&& u.human_lines_removed_reverted == Some(s.human_lines_removed_reverted)
    &&& u.agent_files_touched == Some(wire(s.agent_files_touched))
    &&& u.human_files_touched == Some(wire(s.human_files_touched))
    &&& u.total_files_touched == Some(wire(s.total_files_touched))
    &&& u.metadata is None
}

/// Each counter of the update is the same-named counter of the signals,
/// as a wire value: the count of turns is sent as `total_turns`, every other
/// counter under its own name, and the line counts unchanged.
pub proof fn lemma_update_counters_keep_their_names<C>(u: SessionSignalsUpdate<C>, s: SessionSignals, client_type: C)
    requires
        is_update_of(u, s, client_type),
    ensures
        u.total_turns == Some(s.turn_count as i64),
        u.user_message_count == Some(s.user_message_count as i64),
        u.assistant_message_count == Some(s.assistant_message_count as i64),
        u.cancellation_count == Some(s.cancellation_count as i64),
        u.consecutive_cancellations == Some(s.consecutive_cancellations as i64),
        u.error_count == Some(s.error_count as i64),
        u.tool_failure_count == Some(s.tool_failure_count as i64),
        u.tool_call_count == Some(s.tool_call_count as i64),
        u.compaction_count == Some(s.compaction_count as i64),
        u.regeneration_count == Some(s.regeneration_count as i64),
        u.edit_and_retry_count == Some(s.edit_and_retry_count as i64),
        u.positive_ratings == Some(s.positive_ratings as i64),
        u.negative_ratings == Some(s.negative_ratings as i64),
        u.long_pauses_count == Some(s.long_pauses_count as i64),
        u.session_duration_seconds == Some(s.session_duration_seconds as i64),
        u.avg_time_to_first_token_ms == Some(s.avg_time_to_first_token_ms as i64),
        u.avg_response_time_ms == Some(s.avg_response_time_ms as i64),
        u.min_time_to_first_token_ms == Some(s.min_time_to_first_token_ms as i64),
        u.max_time_to_first_token_ms == Some(s.max_time_to_first_token_ms as i64),
        u.latency_sample_count == Some(s.latency_sample_count as i64),
        u.total_chunk_count == Some(s.total_chunk_count as i64),
        u.itl_sample_count == Some(s.itl_sample_count as i64),
        u.inference_idle_timeouts == Some(s.inference_idle_timeouts as i64),
        u.doom_loop_recovery_attempts == Some(s.doom_loop_recovery_attempts as i64),
        u.doom_loop_recovery_aborted_chunks == Some(s.doom_loop_recovery_aborted_chunks as i64),
        u.gcs_queue_enqueued == Some(s.gcs_queue_enqueued as i64),
        u.gcs_queue_uploaded == Some(s.gcs_queue_uploaded as i64),
        u.gcs_queue_failed == Some(s.gcs_queue_failed as i64),
        u.gcs_queue_fallbacks == Some(s.gcs_queue_fallbacks as i64),
        u.gcs_queue_circuit_breaker_trips == Some(s.gcs_queue_circuit_breaker_trips as i64),
        u.gcs_queue_pending == Some(s.gcs_queue_pending as i64),
        u.gcs_queue_pending_bytes == Some(s.gcs_queue_pending_bytes as i64),
        u.gcs_queue_orphans_cleaned == Some(s.gcs_queue_orphans_cleaned as i64),
        u.agent_files_touched == Some(s.agent_files_touched as i64),
        u.human_files_touched == Some(s.human_files_touched as i64),
        u.total_files_touched == Some(s.total_files_touched as i64),
        u.doom_loop_recovery_accepted_after_budget == Some(s.doom_loop_recovery_accepted_after_budget as i64),
        u.agent_lines_added == Some(s.agent_lines_added),
        u.agent_lines_removed == Some(s.agent_lines_removed),
        u.agent_lines_added_reverted == Some(s.agent_lines_added_reverted),
        u.agent_lines_removed_reverted == Some(s.agent_lines_removed_reverted),
        u.human_lines_added == Some(s.human_lines_added),
        u.human_lines_removed == Some(s.human_lines_removed),
        u.human_lines_added_reverted == Some(s.human_lines_added_reverted),
        u.human_lines_removed_reverted == Some(s.human_lines_removed_reverted),
        u.doom_loop_recovery_fired == Some(
            s.doom_loop_recovery_attempts > 0 || s.doom_loop_recovery_accepted_after_budget > 0,
        ),
        u.tools_used@ == s.tools_used@,
        u.models_used@ == s.models_used@,
        u.primary_model_id == s.primary_model_id,
        u.doom_loop_recovery_top_trigger == s.doom_loop_recovery_top_trigger,
        s.itl_max_ms matches Some(v) ==> u.worst_itl_max_ms == Some(v as i64),
        s.itl_max_ms is None ==> u.worst_itl_max_ms is None,
        s.itl_mean_ms matches Some(v) ==> u.avg_itl_mean_ms == Some(v as i64),
        s.itl_mean_ms is None ==> u.avg_itl_mean_ms is None,
        u.doom_loop_warnings is None && u.doom_loop_terminations is None,
        u.doom_loop_threshold is None && u.doom_loop_ro_threshold is None,
        u.metadata is None,
        s.itl_sample_count == 0 ==> u.last_itl_p50_ms is None && u.last_itl_p99_ms is None,
        s.itl_sample_count > 0 ==> u.last_itl_p99_ms == (match s.itl_p99_ms {
            Some(v) => Some(v as i64),
            None => None,
        }),
        s.itl_sample_count > 0 ==> u.last_itl_p50_ms == (match s.itl_p50_ms {
            Some(v) => Some(v as i64),
            None => None,
        }),
{
}

/// The session-signals update made from the local session signals.
pub fn signals_to_update<C>(signals: &SessionSignals, client_type: C) -> (u: SessionSignalsUpdate<C>)
    ensures
        is_update_of(u, *signals, client_type),
{
    let s = signals;
    let sampled = s.itl_sample_count > 0;
    SessionSignalsUpdate {
        client_type,
        total_turns: Some(s.turn_count as i64),
        user_message_count: Some(s.user_message_count as i64),
        assistant_message_count: Some(s.assistant_message_count as i64),
        cancellation_count: Some(s.cancellation_count as i64),
        consecutive_cancellations: Some(s.consecutive_cancellations as i64),
        error_count: Some(s.error_count as i64),
        tool_failure_count: Some(s.tool_failure_count as i64),
        tool_call_count: Some(s.tool_call_count as i64),
        compaction_count: Some(s.compaction_count as i64),
        regeneration_count: Some(s.regeneration_count as i64),
        edit_and_retry_count: Some(s.edit_and_retry_count as i64),
        positive_ratings: Some(s.positive_ratings as i64),
        negative_ratings: Some(s.negative_ratings as i64),
        long_pauses_count: Some(s.long_pauses_count as i64),
        session_duration_seconds: Some(s.session_duration_seconds as i64),
        tools_used: copy_strings(&s.tools_used),
        models_used: copy_strings(&s.models_used),
        primary_model_id: copy_option_string(&s.primary_model_id),
        avg_time_to_first_token_ms: Some(s.avg_time_to_first_token_ms as i64),
        avg_response_time_ms: Some(s.avg_response_time_ms as i64),
        min_time_to_first_token_ms: Some(s.min_time_to_first_token_ms as i64),
        max_time_to_first_token_ms: Some(s.max_time_to_first_token_ms as i64),
        latency_sample_count: Some(s.latency_sample_count as i64),
        last_itl_p50_ms: if sampled {
            to_wire(s.itl_p50_ms)
        } else {
            None
        },
        last_itl_p99_ms: if sampled {
            to_wire(s.itl_p99_ms)
        } else {
            None
        },
        worst_itl_max_ms: to_wire(s.itl_max_ms),
        avg_itl_mean_ms: to_wire(s.itl_mean_ms),
        total_chunk_count: Some(s.total_chunk_count as i64),
        itl_sample_count: Some(s.itl_sample_count as i64),
        inference_idle_timeouts: Some(s.inference_idle_timeouts as i64),
        inference_idle_timeout_configured_secs: to_wire(s.inference_idle_timeout_configured_secs),
        doom_loop_warnings: None,
        doom_loop_terminations: None,
        doom_loop_threshold: None,
        doom_loop_ro_threshold: None,
        doom_loop_recovery_fired: Some(
            s.doom_loop_recovery_attempts > 0 || s.doom_loop_recovery_accepted_after_budget > 0,
        ),
        doom_loop_recovery_attempts: Some(s.doom_loop_recovery_attempts as i64),
        doom_loop_recovery_accepted_after_budget: Some(
            s.doom_loop_recovery_accepted_after_budget as i64,
        ),
        doom_loop_recovery_top_trigger: copy_option_string(&s.doom_loop_recovery_top_trigger),
        doom_loop_recovery_aborted_chunks: Some(s.doom_loop_recovery_aborted_chunks as i64),
        gcs_queue_enqueued: Some(s.gcs_queue_enqueued as i64),
        gcs_queue_uploaded: Some(s.gcs_queue_uploaded as i64),
        gcs_queue_failed: Some(s.gcs_queue_failed as i64),
        gcs_queue_fallbacks: Some(s.gcs_queue_fallbacks as i64),
        gcs_queue_circuit_breaker_trips: Some(s.gcs_queue_circuit_breaker_trips as i64),
        gcs_queue_pending: Some(s.gcs_queue_pending as i64),
        gcs_queue_pending_bytes: Some(s.gcs_queue_pending_bytes as i64),
        gcs_queue_orphans_cleaned: Some(s.gcs_queue_orphans_cleaned as i64),
        agent_lines_added: Some(s.agent_lines_added),
        agent_lines_removed: Some(s.agent_lines_removed),
        agent_lines_added_reverted: Some(s.agent_lines_added_reverted),
        agent_lines_removed_reverted: Some(s.agent_lines_removed_reverted),
        human_lines_added: Some(s.human_lines_added),
        human_lines_removed: Some(s.human_lines_removed),
        human_lines_added_reverted: Some(s.human_lines_added_reverted),
        human_lines_removed_reverted: Some(s.human_lines_removed_reverted),
        agent_files_touched: Some(s.agent_files_touched as i64),
        human_files_touched: Some(s.human_files_touched as i64),
        total_files_touched: Some(s.total_files_touched as i64),
        metadata: None,
    }
}

/// The metadata of a turn delta: the prompt modes the turn started and
/// ended in, sent under the keys `startPromptMode` and `endPromptMode`, each
/// key present exactly when its mode is.
#[derive(Debug, Clone)]
pub struct TurnDeltaMetadata {
    pub start_prompt_mode: Option<String>,
    pub end_prompt_mode: Option<String>,
}

/// The per-turn delta record as it would go on the wire. The client
/// surface and the timestamp type are type parameters.
#[derive(Debug, Clone)]
pub struct SessionTurnDelta<C, T> {
    pub client_type: C,
    pub turn_number: i64,
    pub delta_tool_calls: i64,
    pub delta_tool_failures: i64,
    pub delta_errors: i64,
    pub delta_cancellations: i64,
    pub delta_regenerations: i64,
    pub delta_compactions: i64,
    pub delta_edit_and_retries: i64,
    pub delta_positive_ratings: i64,
    pub delta_negative_ratings: i64,
    pub delta_assistant_messages: i64,
    pub delta_long_pauses: i64,
    pub delta_successful_tool_uses: i64,
    pub consecutive_cancellations: i64,
    pub time_to_first_token_ms: Option<i64>,
    pub total_response_time_ms: Option<i64>,
    pub itl_p50_ms: Option<i64>,
    pub itl_p99_ms: Option<i64>,
    pub itl_max_ms: Option<i64>,
    pub itl_mean_ms: Option<i64>,
    pub context_window_usage: i64,
    pub model_id: Option<String>,
    pub turn_duration_ms: Option<i64>,
    pub turn_outcome: Option<String>,
    pub model_fingerprint: Option<String>,
    pub tools_used_this_turn: Vec<String>,
    pub error_types_this_turn: Vec<String>,
    pub tool_outcomes: String,
    pub cumulative_tool_calls: i64,
    pub cumulative_errors: i64,
    pub session_duration_seconds: i64,
    pub total_tokens_before_compaction: i64,
    pub metadata: Option<TurnDeltaMetadata>,
    pub request_id: Option<String>,
    pub session_start_at: Option<T>,
    pub feedback_requests_sent: i64,
    pub last_feedback_request_at: Option<T>,
    pub response_tokens: Option<i64>,
    pub thinking_tokens: Option<i64>,
    pub delta_agent_lines_added: i64,
    pub delta_agent_lines_removed: i64,
    pub delta_agent_lines_added_reverted: i64,
    pub delta_agent_lines_removed_reverted: i64,
    pub delta_human_lines_added: i64,
    pub delta_human_lines_removed: i64,
    pub delta_human_lines_added_reverted: i64,
    pub delta_human_lines_removed_reverted: i64,
    pub delta_agent_files_touched: i64,
    pub delta_human_files_touched: i64,
    pub delta_total_files_touched: i64,
    pub loc_tracking_enabled: bool,
}

/// The metadata of a turn: absent when neither prompt mode is known,
/// otherwise holding exactly the known modes.
pub open spec fn turn_metadata_matches(m: Option<TurnDeltaMetadata>, snap: TurnDeltaSnapshot) -> bool {
    match m {
        None => snap.start_prompt_mode is None && snap.end_prompt_mode is None,
        Some(md) => (snap.start_prompt_mode is Some || snap.end_prompt_mode is Some)
            && md.start_prompt_mode == snap.start_prompt_mode && md.end_prompt_mode
            == snap.end_prompt_mode,
    }
}

/// The deltas and turn-level values of `d` copied from the turn delta `t`.
pub open spec fn copies_turn_delta<C, T>(d: SessionTurnDelta<C, T>, t: TurnDelta) -> bool {
    &&& d.turn_number == wire(t.turn_number)
    &&& d.delta_tool_calls == t.delta_tool_calls
    &&& d.delta_tool_failures == t.delta_tool_failures
    &&& d.delta_errors == t.delta_errors
    &&& d.delta_cancellations == t.delta_cancellations
    &&& d.delta_regenerations == t.delta_regenerations
    &&& d.delta_compactions == t.delta_compactions
    &&& d.delta_edit_and_retries == t.delta_edit_and_retries
    &&& d.delta_positive_ratings == t.delta_positive_ratings
    &&& d.delta_negative_ratings == t.delta_negative_ratings
    &&& d.delta_assistant_messages == t.delta_assistant_messages
    &&& d.delta_long_pauses == t.delta_long_pauses
    &&& d.delta_successful_tool_uses == t.delta_successful_tool_uses
    &&& d.consecutive_cancellations == wire(t.consecutive_cancellations)
    &&& d.time_to_first_token_ms == wire_opt(t.last_time_to_first_token_ms)
    &&& d.total_response_time_ms == wire_opt(t.last_total_response_time_ms)
    &&& d.itl_p50_ms == wire_opt(t.last_itl_p50_ms)
    &&& d.itl_p99_ms == wire_opt(t.last_itl_p99_ms)
    &&& d.itl_max_ms == wire_opt(t.last_itl_max_ms)
    &&& d.itl_mean_ms == wire_opt(t.last_itl_mean_ms)
    &&& d.tools_used_this_turn@ == t.tools_this_turn@
    &&& d.error_types_this_turn@ == t.error_types_this_turn@
    &&& d.response_tokens == wire_opt(t.response_tokens)
    &&& d.thinking_tokens == wire_opt(t.thinking_tokens)
    &&& d.delta_agent_lines_added == t.delta_agent_lines_added
    &&& d.delta_agent_lines_removed == t.delta_agent_lines_removed
    &&& d.delta_agent_lines_added_reverted == t.delta_agent_lines_added_reverted
    &&& d.delta_agent_lines_removed_reverted == t.delta_agent_lines_removed_reverted
    &&& d.delta_human_lines_added == t.delta_human_lines_added
    &&& d.delta_human_lines_removed == t.delta_human_lines_removed
    &&& d.delta_human_lines_added_reverted == t.delta_human_lines_added_reverted
    &&& d.delta_human_lines_removed_reverted == t.delta_human_lines_removed_reverted
    &&& d.delta_agent_files_touched == t.delta_agent_files_touched
    &&& d.delta_human_files_touched == t.delta_human_files_touched
    &&& d.delta_total_files_touched == t.delta_total_files_touched
}

/// The cumulative values of `d` read from the session signals `c`.
pub open spec fn copies_cumulative<C, T>(d: SessionTurnDelta<C, T>, c: SessionSignals) -> bool {
    &&& d.context_window_usage == wire(c.context_window_usage)
    &&& d.model_id == c.primary_model_id
    &&& d.cumulative_tool_calls == wire(c.tool_call_count)
    &&& d.cumulative_errors == wire(c.error_count)
    &&& d.session_duration_seconds == wire(c.session_duration_seconds)
    &&& d.total_tokens_before_compaction == wire(c.total_tokens_before_compaction)
}

/// Each delta, turn-level and cumulative field of the record is the
/// same-named value of the turn delta or of the session signals (the
/// `last_*` measurements under their short names, `tools_this_turn` as
/// `tools_used_this_turn`, the primary model as `model_id`).
pub proof fn lemma_turn_delta_fields_keep_their_names<C, T>(
    d: SessionTurnDelta<C, T>,
    t: TurnDelta,
    c: SessionSignals,
)
    requires
        copies_turn_delta(d, t),
        copies_cumulative(d, c),
    ensures
        d.turn_number == t.turn_number as i64,
        d.consecutive_cancellations == t.consecutive_cancellations as i64,
        d.delta_tool_calls == t.delta_tool_calls,
        d.delta_tool_failures == t.delta_tool_failures,
        d.delta_errors == t.delta_errors,
        d.delta_cancellations == t.delta_cancellations,
        d.delta_regenerations == t.delta_regenerations,
        d.delta_compactions == t.delta_compactions,
        d.delta_edit_and_retries == t.delta_edit_and_retries,
        d.delta_positive_ratings == t.delta_positive_ratings,
        d.delta_negative_ratings == t.delta_negative_ratings,
        d.delta_assistant_messages == t.delta_assistant_messages,
        d.delta_long_pauses == t.delta_long_pauses,
        d.delta_successful_tool_uses == t.delta_successful_tool_uses,
        d.delta_agent_lines_added == t.delta_agent_lines_added,
        d.delta_agent_lines_removed == t.delta_agent_lines_removed,
        d.delta_agent_lines_added_reverted == t.delta_agent_lines_added_reverted,
        d.delta_agent_lines_removed_reverted == t.delta_agent_lines_removed_reverted,
        d.delta_human_lines_added == t.delta_human_lines_added,
        d.delta_human_lines_removed == t.delta_human_lines_removed,
        d.delta_human_lines_added_reverted == t.delta_human_lines_added_reverted,
        d.delta_human_lines_removed_reverted == t.delta_human_lines_removed_reverted,
        d.delta_agent_files_touched == t.delta_agent_files_touched,
        d.delta_human_files_touched == t.delta_human_files_touched,
        d.delta_total_files_touched == t.delta_total_files_touched,
        d.tools_used_this_turn@ == t.tools_this_turn@,
        d.error_types_this_turn@ == t.error_types_this_turn@,
        t.last_time_to_first_token_ms is None ==> d.time_to_first_token_ms is None,
        t.last_time_to_first_token_ms matches Some(v) ==> d.time_to_first_token_ms == Some(v as i64),
        t.last_total_response_time_ms is None ==> d.total_response_time_ms is None,
        t.last_total_response_time_ms matches Some(v) ==> d.total_response_time_ms == Some(v as i64),
        t.last_itl_p50_ms is None ==> d.itl_p50_ms is None,
        t.last_itl_p50_ms matches Some(v) ==> d.itl_p50_ms == Some(v as i64),
        t.last_itl_p99_ms is None ==> d.itl_p99_ms is None,
        t.last_itl_p99_ms matches Some(v) ==> d.itl_p99_ms == Some(v as i64),
        t.last_itl_max_ms is None ==> d.itl_max_ms is None,
        t.last_itl_max_ms matches Some(v) ==> d.itl_max_ms == Some(v as i64),
        t.last_itl_mean_ms is None ==> d.itl_mean_ms is None,
        t.last_itl_mean_ms matches Some(v) ==> d.itl_mean_ms == Some(v as i64),
        t.response_tokens is None ==> d.response_tokens is None,
        t.response_tokens matches Some(v) ==> d.response_tokens == Some(v as i64),
        t.thinking_tokens is None ==> d.thinking_tokens is None,
        t.thinking_tokens matches Some(v) ==> d.thinking_tokens == Some(v as i64),
        d.context_window_usage == c.context_window_usage as i64,
        d.cumulative_tool_calls == c.tool_call_count as i64,
        d.cumulative_errors == c.error_count as i64,
        d.session_duration_seconds == c.session_duration_seconds as i64,
        d.total_tokens_before_compaction == c.total_tokens_before_compaction as i64,
        d.model_id == c.primary_model_id,
{
}

/// The serialised tool outcomes of a turn: empty when the turn had none,
/// otherwise the JSON text the caller serialised them to.
pub open spec fn tool_outcomes_text(t: TurnDelta, tool_outcomes_json: Seq<char>) -> Seq<char> {
    if t.tool_outcomes_this_turn@.len() == 0 {
        Seq::empty()
    } else {
        tool_outcomes_json
    }
}

fn copy_modes(snapshot: &TurnDeltaSnapshot) -> (m: Option<TurnDeltaMetadata>)
    ensures
        turn_metadata_matches(m, *snapshot),
{
    if snapshot.start_prompt_mode.is_none() && snapshot.end_prompt_mode.is_none() {
        None
    } else {
        Some(
            TurnDeltaMetadata {
                start_prompt_mode: copy_option_string(&snapshot.start_prompt_mode),
                end_prompt_mode: copy_option_string(&snapshot.end_prompt_mode),
            },
        )
    }
}

/// The per-turn delta record built from a snapshot of the signals. The
/// caller supplies what the signals do not track (feedback state, request
/// id, outcome, fingerprint, duration) and the turn's tool outcomes already
/// serialised as JSON; the session start time is left for the caller to
/// set.
pub fn snapshot_to_turn_delta<C, T>(
    snapshot: &TurnDeltaSnapshot,
    client_type: C,
    request_id: Option<String>,
    feedback_requests_sent: u32,
    last_feedback_request_at: Option<T>,
    loc_tracking_enabled: bool,
    turn_duration_ms: Option<i64>,
    turn_outcome: Option<String>,
    model_fingerprint: Option<String>,
    tool_outcomes_json: String,
) -> (d: SessionTurnDelta<C, T>)
    ensures
        d.client_type == client_type,
        copies_turn_delta(d, snapshot.delta),
        copies_cumulative(d, snapshot.current),
        turn_metadata_matches(d.metadata, *snapshot),
        d.tool_outcomes@ == tool_outcomes_text(snapshot.delta, tool_outcomes_json@),
        d.request_id == request_id,
        d.session_start_at is None,
        d.feedback_requests_sent == feedback_requests_sent as i64,
        d.last_feedback_request_at == last_feedback_request_at,
        d.turn_duration_ms == turn_duration_ms,
        d.turn_outcome == turn_outcome,
        d.model_fingerprint == model_fingerprint,
        d.loc_tracking_enabled == loc_tracking_enabled,
{
    let metadata = copy_modes(snapshot);
    let t = &snapshot.delta;
    let c = &snapshot.current;
    let tool_outcomes = if t.tool_outcomes_this_turn.len() == 0 {
        String::new()
    } else {
        tool_outcomes_json
    };
    SessionTurnDelta {
        client_type,
        turn_number: t.turn_number as i64,
        delta_tool_calls: t.delta_tool_calls,
        delta_tool_failures: t.delta_tool_failures,
        delta_errors: t.delta_errors,
        delta_cancellations: t.delta_cancellations,
        delta_regenerations: t.delta_regenerations,
        delta_compactions: t.delta_compactions,
        delta_edit_and_retries: t.delta_edit_and_retries,
        delta_positive_ratings: t.delta_positive_ratings,
        delta_negative_ratings: t.delta_negative_ratings,
        delta_assistant_messages: t.delta_assistant_messages,
        delta_long_pauses: t.delta_long_pauses,
        delta_successful_tool_uses: t.delta_successful_tool_uses,
        consecutive_cancellations: t.consecutive_cancellations as i64,
        time_to_first_token_ms: to_wire(t.last_time_to_first_token_ms),
        total_response_time_ms: to_wire(t.last_total_response_time_ms),
        itl_p50_ms: to_wire(t.last_itl_p50_ms),
        itl_p99_ms: to_wire(t.last_itl_p99_ms),
        itl_max_ms: to_wire(t.last_itl_max_ms),
        itl_mean_ms: to_wire(t.last_itl_mean_ms),
        context_window_usage: c.context_window_usage as i64,
        model_id: copy_option_string(&c.primary_model_id),
        turn_duration_ms,
        turn_outcome,
        model_fingerprint,
        tools_used_this_turn: copy_strings(&t.tools_this_turn),
        error_types_this_turn: copy_strings(&t.error_types_this_turn),
        tool_outcomes,
        cumulative_tool_calls: c.tool_call_count as i64,
        cumulative_errors: c.error_count as i64,
        session_duration_seconds: c.session_duration_seconds as i64,
        total_tokens_before_compaction: c.total_tokens_before_compaction as i64,
        metadata,
        request_id,
        session_start_at: None,
        feedback_requests_sent: feedback_requests_sent as i64,
        last_feedback_request_at,
        response_tokens: to_wire(t.response_tokens),
        thinking_tokens: to_wire(t.thinking_tokens),
        delta_agent_lines_added: t.delta_agent_lines_added,
        delta_agent_lines_removed: t.delta_agent_lines_removed,
        delta_agent_lines_added_reverted: t.delta_agent_lines_added_reverted,
        delta_agent_lines_removed_reverted: t.delta_agent_lines_removed_reverted,
        delta_human_lines_added: t.delta_human_lines_added,
        delta_human_lines_removed: t.delta_human_lines_removed,
        delta_human_lines_added_reverted: t.delta_human_lines_added_reverted,
        delta_human_lines_removed_reverted: t.delta_human_lines_removed_reverted,
        delta_agent_files_touched: t.delta_agent_files_touched,
        delta_human_files_touched: t.delta_human_files_touched,
        delta_total_files_touched: t.delta_total_files_touched,
        loc_tracking_enabled,
    }
}

} // verus!
