//! No-upload trace facade: artifact collectors, archive builders, queue
//! resolvers, retry/recovery workers and cloud writers are absent. What is
//! left never serializes or reads a payload for transmission.
use super::turn::{UploadOutcome, UploadWait};
use crate::file_utils::queue::{initial_stats, UploadQueue};
use crate::file_utils::upload_config::TraceExportConfig;
use crate::shell::privacy_build::PrivacyRemovedError;
use crate::text::{owned, str_eq};
use crate::time::Duration;
use vstd::prelude::*;

verus! {

/// Reason recorded for every refused trace upload.
pub const UPLOAD_CAPABILITY_REMOVED: &'static str = "upload_capability_removed";

/// Tool definitions are not uploaded.
pub fn upload_tool_definitions<A, D, T>(
    _gcs_config: TraceExportConfig,
    _auth_manager: Option<A>,
    _tool_definitions: &[D],
    _artifact_tracker: Option<&T>,
) {
}

/// Session state is never uploaded: the attempt fails with the removal
/// reason and no status code.
pub fn upload_session_state<C, R>(_ctx: &C, _phase: &str, _session_copy_rx: R, _wait: UploadWait) -> (o:
    UploadOutcome)
    ensures
        o matches UploadOutcome::Failed { reason, status_code } && reason@
            == UPLOAD_CAPABILITY_REMOVED@ && status_code is None,
{
    UploadOutcome::Failed { reason: UPLOAD_CAPABILITY_REMOVED, status_code: None }
}

/// No local sandbox telemetry is gathered.
pub fn local_sandbox_telemetry<T>() -> (res: Option<T>)
    ensures
        res is None,
{
    None
}

/// URLs are never recorded, so nothing of them is kept.
pub fn strip_url_credentials(_url_str: &str) -> (res: String)
    ensures
        res@.len() == 0,
{
    String::new()
}

/// Repository information is not collected.
pub fn resolve_git_repo_info(_cwd: &str) -> (res: (Option<String>, Option<String>))
    ensures
        res.0 is None && res.1 is None,
{
    (None, None)
}

/// Git metadata is not collected.
pub fn enrich_git_metadata<C, M>(_ctx: &C, _metadata: &mut M) {
}

/// Prompt metadata is not uploaded.
pub fn upload_metadata<C, M>(_ctx: &C, _metadata: M) {
}

/// Subagent metadata is not uploaded.
pub fn upload_subagent_metadata<S, M, A>(_metadata: &S, _bucket_url: &str, _upload_method: M, _auth_manager: A) {
}

/// Images are not uploaded.
pub fn upload_images<C, I>(_ctx: &C, _images: &[I]) {
}

/// The file extension used for an image MIME type (`bin` for anything
/// unknown).
pub open spec fn extension_for(mime_type: Seq<char>) -> Seq<char> {
    if mime_type == "image/png"@ {
        "png"@
    } else if mime_type == "image/jpeg"@ || mime_type == "image/jpg"@ {
        "jpeg"@
    } else if mime_type == "image/gif"@ {
        "gif"@
    } else if mime_type == "image/webp"@ {
        "webp"@
    } else if mime_type == "image/svg+xml"@ {
        "svg"@
    } else if mime_type == "image/bmp"@ {
        "bmp"@
    } else if mime_type == "image/tiff"@ {
        "tiff"@
    } else if mime_type == "image/heic"@ {
        "heic"@
    } else if mime_type == "image/heif"@ {
        "heif"@
    } else if mime_type == "image/avif"@ {
        "avif"@
    } else {
        "bin"@
    }
}

/// For each image type whose subtype is a plain extension, the extension is
/// that subtype: `image/x` maps to `x` for png, gif, webp, bmp, tiff, heic,
/// heif, avif and jpeg; `image/jpg` also maps to `jpeg`, and `image/svg+xml`
/// to `svg`.
pub proof fn lemma_image_subtype_is_extension(sub: Seq<char>)
    requires
        sub == "png"@ || sub == "gif"@ || sub == "webp"@ || sub == "bmp"@ || sub == "tiff"@ || sub
            == "heic"@ || sub == "heif"@ || sub == "avif"@ || sub == "jpeg"@,
    ensures
        extension_for("image/"@ + sub) == sub,
        extension_for("image/jpg"@) == "jpeg"@,
        extension_for("image/svg+xml"@) == "svg"@,
{
    reveal_strlit("image/");
    reveal_strlit("png");
    reveal_strlit("gif");
    reveal_strlit("webp");
    reveal_strlit("bmp");
    reveal_strlit("tiff");
    reveal_strlit("heic");
    reveal_strlit("heif");
    reveal_strlit("avif");
    reveal_strlit("jpeg");
    reveal_strlit("svg");
    reveal_strlit("image/png");
    reveal_strlit("image/jpeg");
    reveal_strlit("image/jpg");
    reveal_strlit("image/gif");
    reveal_strlit("image/webp");
    reveal_strlit("image/svg+xml");
    reveal_strlit("image/bmp");
    reveal_strlit("image/tiff");
    reveal_strlit("image/heic");
    reveal_strlit("image/heif");
    reveal_strlit("image/avif");
    let m = "image/"@ + sub;
    if sub == "png"@ {
        assert(m =~= "image/png"@);
    } else if sub == "gif"@ {
        assert(m =~= "image/gif"@);
        assert(m[6] != "image/png"@[6]);
        assert(m[6] != "image/jpeg"@[6]);
        assert(m.len() != "image/jpg"@.len() || m[6] != "image/jpg"@[6]);
    } else if sub == "webp"@ {
        assert(m =~= "image/webp"@);
        assert(m[6] != "image/png"@[6]);
        assert(m[6] != "image/jpeg"@[6]);
        assert(m[6] != "image/jpg"@[6]);
        assert(m[6] != "image/gif"@[6]);
    } else if sub == "bmp"@ {
        assert(m =~= "image/bmp"@);
        assert(m[6] != "image/png"@[6]);
        assert(m[6] != "image/jpeg"@[6]);
        assert(m[6] != "image/jpg"@[6]);
        assert(m[6] != "image/gif"@[6]);
        assert(m[6] != "image/webp"@[6]);
        assert(m[6] != "image/svg+xml"@[6]);
    } else if sub == "tiff"@ {
        assert(m =~= "image/tiff"@);
        assert(m[6] != "image/png"@[6]);
        assert(m[6] != "image/jpeg"@[6]);
        assert(m[6] != "image/jpg"@[6]);
        assert(m[6] != "image/gif"@[6]);
        assert(m[6] != "image/webp"@[6]);
        assert(m[6] != "image/svg+xml"@[6]);
        assert(m[6] != "image/bmp"@[6]);
    } else if sub == "heic"@ {
        assert(m =~= "image/heic"@);
        assert(m[6] != "image/png"@[6]);
        assert(m[6] != "image/jpeg"@[6]);
        assert(m[6] != "image/jpg"@[6]);
        assert(m[6] != "image/gif"@[6]);
        assert(m[6] != "image/webp"@[6]);
        assert(m[6] != "image/svg+xml"@[6]);
        assert(m[6] != "image/bmp"@[6]);
        assert(m[6] != "image/tiff"@[6]);
    } else if sub == "heif"@ {
        assert(m =~= "image/heif"@);
        assert(m[6] != "image/png"@[6]);
        assert(m[6] != "image/jpeg"@[6]);
        assert(m[6] != "image/jpg"@[6]);
        assert(m[6] != "image/gif"@[6]);
        assert(m[6] != "image/webp"@[6]);
        assert(m[6] != "image/svg+xml"@[6]);
        assert(m[6] != "image/bmp"@[6]);
        assert(m[6] != "image/tiff"@[6]);
        assert(m[9] != "image/heic"@[9]);
    } else if sub == "avif"@ {
        assert(m =~= "image/avif"@);
        assert(m[6] != "image/png"@[6]);
        assert(m[6] != "image/jpeg"@[6]);
        assert(m[6] != "image/jpg"@[6]);
        assert(m[6] != "image/gif"@[6]);
        assert(m[6] != "image/webp"@[6]);
        assert(m[6] != "image/svg+xml"@[6]);
        assert(m[6] != "image/bmp"@[6]);
        assert(m[6] != "image/tiff"@[6]);
        assert(m[6] != "image/heic"@[6]);
        assert(m[6] != "image/heif"@[6]);
    } else {
        assert(m =~= "image/jpeg"@);
        assert(m[6] != "image/png"@[6]);
    }
    assert("image/jpg"@[6] != "image/png"@[6]);
    assert("image/jpg"@.len() != "image/jpeg"@.len());
    assert("image/svg+xml"@[6] != "image/png"@[6]);
    assert("image/svg+xml"@[6] != "image/jpeg"@[6]);
    assert("image/svg+xml"@[6] != "image/jpg"@[6]);
    assert("image/svg+xml"@[6] != "image/gif"@[6]);
    assert("image/svg+xml"@[6] != "image/webp"@[6]);
}

/// Map an image MIME type to a file extension.
pub fn mime_type_to_extension(mime_type: &str) -> (res: &'static str)
    ensures
        res@ == extension_for(mime_type@),
{
    if str_eq(mime_type, "image/png") {
        "png"
    } else if str_eq(mime_type, "image/jpeg") || str_eq(mime_type, "image/jpg") {
        "jpeg"
    } else if str_eq(mime_type, "image/gif") {
        "gif"
    } else if str_eq(mime_type, "image/webp") {
        "webp"
    } else if str_eq(mime_type, "image/svg+xml") {
        "svg"
    } else if str_eq(mime_type, "image/bmp") {
        "bmp"
    } else if str_eq(mime_type, "image/tiff") {
        "tiff"
    } else if str_eq(mime_type, "image/heic") {
        "heic"
    } else if str_eq(mime_type, "image/heif") {
        "heif"
    } else if str_eq(mime_type, "image/avif") {
        "avif"
    } else {
        "bin"
    }
}

/// The full prompt is not uploaded.
pub fn upload_full_prompt_txt<C>(_ctx: &C, _full_prompt: &str) {
}

/// Plugin state is not uploaded.
pub fn upload_plugin_state<C, R>(_ctx: &C, _registry: Option<&R>) {
}

/// No artifact reaches storage, so there is no URL.
pub fn upload_artifact_to_gcs<C>(
    _ctx: &C,
    _gcs_path: &str,
    _content: &[u8],
    _content_type: &str,
    _artifact: &str,
) -> (res: Option<String>)
    ensures
        res is None,
{
    None
}

/// Small artifacts are not uploaded.
pub fn upload_small_artifact<C>(
    _ctx: &C,
    _content: &[u8],
    _gcs_path: &str,
    _content_type: &str,
    _artifact_name: &str,
    _wait: UploadWait,
) {
}

/// A reference to a spawned subagent, as turn results would record it.
#[derive(Debug, Clone)]
pub struct SubagentSpawnedRef {
    pub subagent_id: String,
    pub child_session_id: String,
    pub subagent_type: String,
    pub description: String,
    pub persona: Option<String>,
    pub resumed_from: Option<String>,
}

/// Turn results are not uploaded.
pub fn upload_turn_result<C, R>(_ctx: &C, _result: &R, _wait: UploadWait) {
}

/// Streaming partials are not uploaded.
pub fn upload_streaming_partial<C, S>(_ctx: &C, _capture: &S, _wait: UploadWait) {
}

/// Kinds of session metadata.
#[derive(Debug, Clone, Copy, PartialEq, Eq, Structural)]
pub enum SessionMetadataType {
    Share,
}

/// Session metadata is not uploaded.
pub fn upload_session_metadata<C>(_ctx: &C, _metadata_type: SessionMetadataType) {
}

/// Memory state is not uploaded.
pub fn upload_memory_state<C>(_ctx: &C) {
}

/// The unified log is not uploaded.
pub fn upload_unified_log<C>(_ctx: &C, _wait: UploadWait) {
}

/// Permission events are not uploaded.
pub fn upload_permission_events<C, E>(_ctx: &C, _events: &[E], _wait: UploadWait) {
}

/// Turn messages are dropped; the call reports that nothing is left to do.
pub fn upload_turn_messages<C, T>(_ctx: &C, _capture: T, _wait: UploadWait) -> (res: bool)
    ensures
        res,
{
    true
}

/// Why a session-state archive could not be built.
#[derive(Debug)]
pub struct SessionStateBuildError {
    pub reason: &'static str,
    pub error: PrivacyRemovedError,
}

/// The archive refusal.
pub open spec fn is_archive_refusal(e: SessionStateBuildError) -> bool {
    e.reason@ == UPLOAD_CAPABILITY_REMOVED@ && e.error == PrivacyRemovedError
}

fn session_archive_removed() -> (e: SessionStateBuildError)
    ensures
        is_archive_refusal(e),
{
    SessionStateBuildError { reason: UPLOAD_CAPABILITY_REMOVED, error: PrivacyRemovedError }
}

/// No chat-history archive is built.
pub fn build_chat_history_session_state<M>(_messages: &[M]) -> (res: Result<
    Vec<u8>,
    SessionStateBuildError,
>)
    ensures
        res matches Err(e) && is_archive_refusal(e),
{
    Err(session_archive_removed())
}

/// No archive is built; the capture is handed back unchanged.
pub fn build_chat_history_then_move_capture<T>(capture: T) -> (res: (
    Result<Vec<u8>, SessionStateBuildError>,
    T,
))
    ensures
        res.0 matches Err(e) && is_archive_refusal(e),
        res.1 == capture,
{
    (Err(session_archive_removed()), capture)
}

/// Harness archives are never uploaded.
pub fn upload_harness_session_archive<C>(_ctx: &C, _tar: Result<Vec<u8>, SessionStateBuildError>) -> (res:
    bool)
    ensures
        !res,
{
    false
}

/// There is no spill directory to reconcile.
pub fn spawn_startup_spill_reconcile(_grok_home: String, _queue: Option<UploadQueue>) {
}

/// Nothing is queued, so nothing is flushed.
pub fn flush_upload_queue<C>(_ctx: &C, _deadline: Duration) -> (n: usize)
    ensures
        n == 0,
{
    0
}

/// No time is budgeted for blocking attempts.
pub fn blocking_attempt_budget(_deadline: Duration) -> (d: Duration)
    ensures
        d.secs_of() == 0 && d.nanos_of() == 0,
{
    Duration::zero()
}

/// No error manifest is written.
pub fn flush_then_write_error_manifest<C>(_ctx: &C, _deadline: Duration) {
}

/// No scratch directory is purged.
pub fn purge_stale_upload_scratch_dir(_scratch_dir: &str) -> (res: Result<bool, PrivacyRemovedError>)
    ensures
        res matches Ok(b) && !b,
{
    Ok(false)
}

/// No purge task is started.
pub fn spawn_purge_stale_upload_scratch() {
}

/// The inert queue, tagged with the client version when one is given.
pub fn spawn_upload_queue<A>(
    _grok_home: &str,
    _gcs_config: &TraceExportConfig,
    client_version: Option<&str>,
    _auth_manager: A,
) -> (q: UploadQueue)
    ensures
        q.stats_view() == initial_stats(),
        match client_version {
            Some(v) => q.version_view() matches Some(s) && s@ == v@,
            None => q.version_view() is None,
        },
{
    let queue = UploadQueue::disabled();
    match client_version {
        Some(version) => queue.with_client_version(owned(version)),
        None => queue,
    }
}

/// Deferred trace artifacts are refused.
pub fn upload_trace_artifact_deferred<C>(
    _ctx: &C,
    _content: &[u8],
    _gcs_path: &str,
    _content_type: &str,
    _artifact_name: &str,
    _deadline: Duration,
) -> (res: Result<(), PrivacyRemovedError>)
    ensures
        res matches Err(e) && e == PrivacyRemovedError,
{
    Err(PrivacyRemovedError)
}

/// Trace artifacts are not uploaded.
pub fn upload_trace_artifact<C>(
    _ctx: &C,
    _content: &[u8],
    _gcs_path: &str,
    _content_type: &str,
    _artifact_name: &str,
) {
}

} // verus!
