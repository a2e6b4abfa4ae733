//! No-spill, no-worker upload queue facade: no constructor creates a
//! directory or starts a task, and every enqueue fails.
use super::upload_config::TraceExportConfig;
use super::{UploadsRemovedError, DATA_UPLOADS_REMOVED_MESSAGE};
use crate::time::Duration;
use std::sync::Arc;
use vstd::prelude::*;

verus! {

/// Resolves where trace artifacts would be exported.
pub trait TraceExportSource {
    fn resolve(&self) -> TraceExportConfig;
}

/// Queued items never age out: nothing is ever queued.
pub fn default_max_age() -> (d: Duration)
    ensures
        d.secs_of() == 0 && d.nanos_of() == 0,
{
    Duration::zero()
}

/// No auth-parked item is ever probed.
pub fn default_auth_park_probe_interval() -> (d: Duration)
    ensures
        d.secs_of() == 0 && d.nanos_of() == 0,
{
    Duration::zero()
}

/// Schema version written into queue item sidecars.
pub const QUEUE_ITEM_SIDECAR_SCHEMA_VERSION: u32 = 1;

/// Metadata stored next to a spilled queue item.
#[derive(Debug, Clone, PartialEq, Eq)]
pub struct QueueItemSidecar {
    pub schema_version: u32,
    pub session_id: String,
    pub turn_number: u64,
    pub gcs_path: String,
    pub content_type: String,
    pub artifact_name: String,
    pub enqueued_at: String,
    pub sha256: String,
}

/// The schema version assumed when a sidecar omits it.
pub fn default_sidecar_schema_version() -> (v: u32)
    ensures
        v == QUEUE_ITEM_SIDECAR_SCHEMA_VERSION,
{
    QUEUE_ITEM_SIDECAR_SCHEMA_VERSION
}

/// Queue counters. In this build nothing is ever queued, so they keep their
/// initial values.
#[derive(Debug, Clone, Copy, PartialEq, Eq, Structural)]
pub struct UploadQueueStats {
    pub pending: u64,
    pub pending_bytes: u64,
    pub inflight: u64,
    pub enqueued: u64,
    pub deduplicated: u64,
    pub uploaded: u64,
    pub failed: u64,
    pub circuit_breaker_trips: u64,
    pub circuit_breaker_active: bool,
    pub enqueue_fallbacks: u64,
    pub leaked_temp_files: u64,
    pub reference_stale: u64,
    pub auth_parked: u64,
    pub cleanup_orphan_mismatched: u64,
}

/// The initial counters: all zero, with the circuit breaker already tripped.
pub open spec fn initial_stats() -> UploadQueueStats {
    UploadQueueStats {
        pending: 0,
        pending_bytes: 0,
        inflight: 0,
        enqueued: 0,
        deduplicated: 0,
        uploaded: 0,
        failed: 0,
        circuit_breaker_trips: 0,
        circuit_breaker_active: true,
        enqueue_fallbacks: 0,
        leaked_temp_files: 0,
        reference_stale: 0,
        auth_parked: 0,
        cleanup_orphan_mismatched: 0,
    }
}

impl UploadQueueStats {
    /// Fresh counters with the circuit breaker open.
    pub fn new() -> (s: UploadQueueStats)
        ensures
            s == initial_stats(),
    {
        UploadQueueStats {
            pending: 0,
            pending_bytes: 0,
            inflight: 0,
            enqueued: 0,
            deduplicated: 0,
            uploaded: 0,
            failed: 0,
            circuit_breaker_trips: 0,
            circuit_breaker_active: true,
            enqueue_fallbacks: 0,
            leaked_temp_files: 0,
            reference_stale: 0,
            auth_parked: 0,
            cleanup_orphan_mismatched: 0,
        }
    }

    /// The notifier is dropped: there are no transitions to announce.
    pub fn set_transition_notify(&self, _notify: Arc<tokio::sync::Notify>) {
    }
}

impl Default for UploadQueueStats {
    fn default() -> (s: UploadQueueStats)
        ensures
            s == initial_stats(),
    {
        UploadQueueStats::new()
    }
}

/// No temporary file exists to remove.
pub fn try_remove_temp(_path: &str, _stats: Option<&UploadQueueStats>) {
}

/// The error a closed queue reports.
#[derive(Debug, Clone, Copy, PartialEq, Eq, Structural)]
pub struct QueueClosed;

impl QueueClosed {
    /// The error's text.
    pub fn to_string(&self) -> (s: String)
        ensures
            s@ == DATA_UPLOADS_REMOVED_MESSAGE@,
    {
        crate::text::owned(DATA_UPLOADS_REMOVED_MESSAGE)
    }
}

/// What happened to an enqueue request.
#[derive(Debug, Clone, PartialEq, Eq)]
pub enum EnqueueOutcome {
    Enqueued,
    FellBackToInline,
    Failed { reason: String },
    Deduplicated,
    Skipped { reason: String },
}

/// What a finished upload would have reported. The compression kind is a
/// type parameter here.
#[derive(Debug)]
pub struct UploadCompletion<C> {
    pub gcs_url: String,
    pub compression: C,
    pub original_size: u64,
    pub stored_size: u64,
}

/// The outcome of every enqueue attempt in this build.
pub open spec fn is_removed_failure(o: EnqueueOutcome) -> bool {
    o matches EnqueueOutcome::Failed { reason } && reason@ == DATA_UPLOADS_REMOVED_MESSAGE@
}

/// An inert queue: no resolver, worker or filesystem path.
#[derive(Clone)]
pub struct UploadQueue {
    stats: Arc<UploadQueueStats>,
    pub client_version: Option<String>,
}

impl UploadQueue {
    /// The counters this queue reports.
    pub closed spec fn stats_view(&self) -> UploadQueueStats {
        *self.stats
    }

    /// The client version this queue was tagged with.
    pub closed spec fn version_view(&self) -> Option<String> {
        self.client_version
    }

    /// Construct the inert queue without a resolver, worker, or filesystem path.
    pub fn disabled() -> (q: UploadQueue)
        ensures
            q.stats_view() == initial_stats(),
            q.version_view() is None,
    {
        UploadQueue { stats: Arc::new(UploadQueueStats::new()), client_version: None }
    }

    /// The queue a worker would have been spawned for: always the inert
    /// queue. The resolver and retry policy are dropped.
    pub fn spawn<R, P>(_grok_home: &str, _resolver: R, _retry_policy: P) -> (q: UploadQueue)
        ensures
            q.stats_view() == initial_stats(),
            q.version_view() is None,
    {
        Self::disabled()
    }

    /// Like `spawn`: the concurrency bound is ignored.
    pub fn spawn_with_concurrency<R, P>(
        grok_home: &str,
        resolver: R,
        retry_policy: P,
        _max_concurrent: usize,
    ) -> (q: UploadQueue)
        ensures
            q.stats_view() == initial_stats(),
            q.version_view() is None,
    {
        Self::spawn(grok_home, resolver, retry_policy)
    }

    /// Records the client version; nothing else changes.
    pub fn with_client_version(self, version: String) -> (q: UploadQueue)
        ensures
            q.stats_view() == self.stats_view(),
            q.version_view() == Some(version),
    {
        let mut q = self;
        q.client_version = Some(version);
        q
    }

    /// There is no queue to bound: the queue is returned unchanged.
    pub fn with_max_queue_bytes(self, _max_bytes: u64) -> (q: UploadQueue)
        ensures
            q == self,
    {
        self
    }

    fn failed() -> (o: EnqueueOutcome)
        ensures
            is_removed_failure(o),
    {
        EnqueueOutcome::Failed { reason: crate::text::owned(DATA_UPLOADS_REMOVED_MESSAGE) }
    }

    /// Removed: would queue `_content` for upload.
    pub fn enqueue(
        &self,
        _content: &[u8],
        _gcs_path: &str,
        _content_type: &str,
        _artifact_name: &str,
        _session_id: &str,
        _turn_number: u64,
    ) -> (res: Result<(), UploadsRemovedError>)
        ensures
            res == Err::<(), UploadsRemovedError>(UploadsRemovedError),
    {
        Err(UploadsRemovedError)
    }

    /// Removed: reports the failure instead of queueing.
    pub fn enqueue_bytes_blocking(
        &self,
        _content: &[u8],
        _gcs_path: &str,
        _content_type: &str,
        _artifact_name: &str,
        _session_id: &str,
        _turn_number: u64,
    ) -> (o: EnqueueOutcome)
        ensures
            is_removed_failure(o),
    {
        Self::failed()
    }

    /// Removed: a recovered spill file is never re-queued.
    pub fn enqueue_recovered(
        &self,
        _temp_path: &str,
        _sidecar_path: &str,
        _sidecar: &QueueItemSidecar,
    ) -> (o: EnqueueOutcome)
        ensures
            is_removed_failure(o),
    {
        Self::failed()
    }

    /// Removed: would queue `_content` and wait for its URL.
    pub fn enqueue_blocking(
        &self,
        _content: &[u8],
        _gcs_path: &str,
        _content_type: &str,
        _artifact_name: &str,
        _session_id: &str,
        _turn_number: u64,
    ) -> (res: Result<String, UploadsRemovedError>)
        ensures
            res == Err::<String, UploadsRemovedError>(UploadsRemovedError),
    {
        Err(UploadsRemovedError)
    }

    /// Removed: would queue a local file.
    pub fn enqueue_file(
        &self,
        _source_path: &str,
        _gcs_path: &str,
        _content_type: &str,
        _artifact_name: &str,
        _session_id: &str,
        _turn_number: u64,
    ) -> (res: Result<(), UploadsRemovedError>)
        ensures
            res == Err::<(), UploadsRemovedError>(UploadsRemovedError),
    {
        Err(UploadsRemovedError)
    }

    /// Removed: would queue a local file and wait for its completion.
    pub fn enqueue_file_blocking<E>(
        &self,
        _source_path: &str,
        _gcs_path: &str,
        _content_type: &str,
        _artifact_name: &str,
        _session_id: &str,
        _turn_number: u64,
        _compress: bool,
    ) -> (res: Result<E, UploadsRemovedError>)
        ensures
            res is Err,
    {
        Err(UploadsRemovedError)
    }

    /// Removed: would queue a reference to a local file with a known digest.
    pub fn enqueue_file_reference<E>(
        &self,
        _source_path: &str,
        _expected_sha256: &str,
        _gcs_path: &str,
        _content_type: &str,
        _artifact_name: &str,
        _session_id: &str,
        _turn_number: u64,
    ) -> (res: Result<E, UploadsRemovedError>)
        ensures
            res is Err,
    {
        Err(UploadsRemovedError)
    }

    /// Nothing is in flight: waiting ends at once with no item left.
    pub fn wait_idle(&self, _timeout: Duration) -> (n: usize)
        ensures
            n == 0,
    {
        0
    }

    /// Nothing is queued: draining leaves no item behind.
    pub fn drain(&self, _deadline: Duration) -> (n: usize)
        ensures
            n == 0,
    {
        0
    }

    /// The queue's counters.
    pub fn stats(&self) -> (s: &UploadQueueStats)
        ensures
            *s == self.stats_view(),
    {
        &*self.stats
    }

    /// A shared handle to the queue's counters.
    pub fn stats_arc(&self) -> (s: Arc<UploadQueueStats>)
        ensures
            *s == self.stats_view(),
    {
        Arc::clone(&self.stats)
    }

    /// There are no orphans to clean.
    pub fn cleanup_orphans(&self, _max_age: Duration) {
    }
}

/// Suffix of the sidecar file written next to a spilled item.
pub const SIDECAR_SUFFIX: &'static str = ".meta.json";

/// The sidecar path of a spilled item: its path with the suffix appended.
pub fn sidecar_path_for(temp_path: &str) -> (res: String)
    ensures
        res@ == temp_path@ + SIDECAR_SUFFIX@,
{
    let mut res = crate::text::owned(temp_path);
    crate::text::push_str(&mut res, SIDECAR_SUFFIX);
    res
}

/// The file name of a path, as `std::path::Path::file_name` finds it (the
/// last normal component), when there is one.
pub uninterp spec fn path_file_name(path: Seq<char>) -> Option<Seq<char>>;

/// The path that `std::path::Path::with_file_name` builds from `path` and
/// `name`.
pub uninterp spec fn path_with_file_name(path: Seq<char>, name: Seq<char>) -> Seq<char>;

/// Calls `std::path::Path::file_name`. Trusted: the result is the named
/// file-name function of the path. A file name taken from a `&str` path is
/// always valid UTF-8, so the conversion to `String` loses nothing.
#[verifier::external_body]
fn file_name_of(path: &str) -> (res: Option<String>)
    ensures
        match res {
            Some(n) => path_file_name(path@) == Some(n@),
            None => path_file_name(path@) is None,
        },
{
    std::path::Path::new(path).file_name().and_then(|n| n.to_str()).map(|n| n.to_owned())
}

/// Calls `std::path::Path::with_file_name`. Trusted: the result is the named
/// function of both arguments.
#[verifier::external_body]
fn with_file_name(path: &str, name: &str) -> (res: String)
    ensures
        res@ == path_with_file_name(path@, name@),
{
    std::path::Path::new(path).with_file_name(name).to_string_lossy().into_owned()
}

/// The file name of a spilled item whose sidecar has file name `name`:
/// the name without the sidecar suffix, when it ends with it.
pub open spec fn sidecar_stem(name: Seq<char>) -> Option<Seq<char>> {
    if crate::text::is_suffix(SIDECAR_SUFFIX@, name) {
        Some(name.subrange(0, name.len() - SIDECAR_SUFFIX@.len()))
    } else {
        None
    }
}

/// Strip the sidecar suffix from a file name.
pub fn strip_sidecar_suffix(name: &str) -> (res: Option<String>)
    ensures
        match res {
            Some(s) => sidecar_stem(name@) == Some(s@),
            None => sidecar_stem(name@) is None,
        },
{
    let n = crate::text::chars_of(name);
    let suffix = crate::text::chars_of(SIDECAR_SUFFIX);
    if suffix.len() > n.len() {
        return None;
    }
    let start = n.len() - suffix.len();
    let mut i: usize = 0;
    while i < suffix.len()
        invariant
            n@ == name@,
            suffix@ == SIDECAR_SUFFIX@,
            suffix@.len() <= n@.len(),
            start == n@.len() - suffix@.len(),
            i <= suffix@.len(),
            forall|j: int| 0 <= j < i ==> n@[start + j] == suffix@[j],
        decreases suffix@.len() - i,
    {
        assert(start + i < n.len());
        let idx: usize = start + i;
        if n[idx] != suffix[i] {
            assert(n@.subrange(start as int, n@.len() as int)[i as int] != suffix@[i as int]);
            return None;
        }
        i = i + 1;
    }
    assert(n@.subrange(start as int, n@.len() as int) =~= suffix@);
    let mut stem: Vec<char> = Vec::new();
    let mut k: usize = 0;
    while k < start
        invariant
            k <= start,
            start <= n@.len(),
            stem@ == n@.take(k as int),
        decreases start - k,
    {
        stem.push(n[k]);
        k = k + 1;
        assert(n@.take(k as int) =~= n@.take(k - 1 as int).push(n@[k - 1]));
    }
    assert(stem@ =~= n@.subrange(0, start as int));
    Some(crate::text::string_from_chars(&stem))
}

/// Undoing `sidecar_path_for` on a file name: stripping the suffix gives
/// the original name back.
pub proof fn lemma_sidecar_stem_undoes_suffix(name: Seq<char>)
    ensures
        sidecar_stem(name + SIDECAR_SUFFIX@) == Some(name),
{
    let full = name + SIDECAR_SUFFIX@;
    assert(full.subrange(full.len() - SIDECAR_SUFFIX@.len(), full.len() as int)
        =~= SIDECAR_SUFFIX@);
    assert(full.subrange(0, full.len() - SIDECAR_SUFFIX@.len()) =~= name);
}

/// The spilled-item path for a sidecar path: its file name without the
/// sidecar suffix, in the same directory; `None` when the path has no file
/// name or the name lacks the suffix.
pub open spec fn temp_path_spec(sidecar: Seq<char>) -> Option<Seq<char>> {
    match path_file_name(sidecar) {
        Some(name) => match sidecar_stem(name) {
            Some(stem) => Some(path_with_file_name(sidecar, stem)),
            None => None,
        },
        None => None,
    }
}

/// The spilled-item path that a sidecar belongs to.
pub fn temp_path_for_sidecar(sidecar: &str) -> (res: Option<String>)
    ensures
        match res {
            Some(p) => temp_path_spec(sidecar@) == Some(p@),
            None => temp_path_spec(sidecar@) is None,
        },
{
    let name = file_name_of(sidecar)?;
    let stem = strip_sidecar_suffix(name.as_str())?;
    Some(with_file_name(sidecar, stem.as_str()))
}

/// No orphan was ever cleaned.
pub fn last_orphans_cleaned() -> (n: u64)
    ensures
        n == 0,
{
    0
}

/// There are no orphaned uploads to clean.
pub fn cleanup_orphaned_uploads(_grok_home: &str, _max_age: Duration) -> (n: u64)
    ensures
        n == 0,
{
    0
}

} // verus!
