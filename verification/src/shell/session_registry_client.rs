//! No-network session-registry facade: only the data shapes remain, and
//! every transport entry point fails before serializing a request.
use super::privacy_build::PrivacyRemovedError;
use vstd::prelude::*;

verus! {

/// A session registration that would have been sent.
#[derive(Debug)]
pub struct RegisterRequest {
    pub session_id: String,
    pub cwd: String,
    pub gcs_trace_prefix: String,
    pub model_id: Option<String>,
    pub repo_remote_url: Option<String>,
    pub repo_branch: Option<String>,
    pub repo_head_at_start: Option<String>,
    pub hostname: Option<String>,
    pub device_id: Option<String>,
    pub parent_session_id: Option<String>,
    pub session_kind: Option<String>,
    pub subagent_type: Option<String>,
    pub subagent_persona: Option<String>,
    pub subagent_role: Option<String>,
    pub fork_context_source: Option<String>,
    pub subagent_depth: Option<u32>,
}

/// A session update that would have been sent.
#[derive(Debug)]
pub struct UpdateRequest {
    pub summary: Option<String>,
    pub first_prompt: Option<String>,
    pub last_turn_number: Option<i32>,
    pub repo_head_at_end: Option<String>,
    pub restorable_turn_number: Option<i32>,
}

/// A session as the registry would have described it.
#[derive(Debug, Clone)]
pub struct SessionRecord {
    pub session_id: String,
    pub summary: String,
    pub first_prompt: Option<String>,
    pub model_id: Option<String>,
    pub created_at: String,
    pub updated_at: String,
    pub last_turn_number: i32,
    pub restorable_turn_number: Option<i32>,
    pub cwd: String,
    pub repo_remote_url: Option<String>,
    pub hostname: Option<String>,
    pub status: String,
    pub gcs_trace_prefix: String,
    pub gcs_bucket: String,
    pub last_active_at: Option<String>,
}

/// What a local session summary holds that a registry record is made of,
/// as plain values: identifiers and model as text, and timestamps already
/// rendered in RFC 3339.
#[derive(Debug, Clone)]
pub struct LocalSessionSummary {
    pub session_id: String,
    pub cwd: String,
    pub session_summary: String,
    pub current_model_id: String,
    pub created_at_rfc3339: String,
    pub updated_at_rfc3339: String,
    pub num_messages: usize,
    pub last_active_at_rfc3339: Option<String>,
}

/// Status of a record built from a local session.
pub const LOCAL_SESSION_STATUS: &'static str = "local";

impl SessionRecord {
    /// The record of a local session: its id, summary, model, timestamps and
    /// working directory; the message count (wrapped to `i32`) as the last
    /// turn; status `local`; no prompt, restorable turn, repository, host or
    /// cloud location.
    pub fn from_summary(s: LocalSessionSummary) -> (r: SessionRecord)
        ensures
            r.session_id@ == s.session_id@,
            r.summary@ == s.session_summary@,
            r.first_prompt is None,
            r.model_id matches Some(m) && m@ == s.current_model_id@,
            r.created_at@ == s.created_at_rfc3339@,
            r.updated_at@ == s.updated_at_rfc3339@,
            r.last_turn_number == s.num_messages as i32,
            r.restorable_turn_number is None,
            r.cwd@ == s.cwd@,
            r.repo_remote_url is None,
            r.hostname is None,
            r.status@ == LOCAL_SESSION_STATUS@,
            r.gcs_trace_prefix@.len() == 0,
            r.gcs_bucket@.len() == 0,
            r.last_active_at == s.last_active_at_rfc3339,
    {
        SessionRecord {
            session_id: s.session_id,
            summary: s.session_summary,
            first_prompt: None,
            model_id: Some(s.current_model_id),
            created_at: s.created_at_rfc3339,
            updated_at: s.updated_at_rfc3339,
            last_turn_number: s.num_messages as i32,
            restorable_turn_number: None,
            cwd: s.cwd,
            repo_remote_url: None,
            hostname: None,
            status: crate::text::owned(LOCAL_SESSION_STATUS),
            gcs_trace_prefix: String::new(),
            gcs_bucket: String::new(),
            last_active_at: s.last_active_at_rfc3339,
        }
    }
}

/// A registry search reply.
#[derive(Debug)]
pub struct SearchResponse {
    pub sessions: Vec<SessionRecord>,
}

/// A registry download reply.
#[derive(Debug)]
pub struct DownloadResponse {
    pub download_url: String,
    pub file: String,
    pub turn: i32,
}

/// A registry client with no transport.
#[derive(Clone, Copy, Debug, Default, PartialEq, Eq, Structural)]
pub struct SessionRegistryClient;

impl SessionRegistryClient {
    /// Endpoint and token are discarded.
    pub fn new(_base_url: String, _user_token: String) -> (c: SessionRegistryClient)
        ensures
            c == SessionRegistryClient,
    {
        SessionRegistryClient
    }

    /// The key is discarded.
    pub fn with_deployment_key(self, _key: Option<String>) -> (c: SessionRegistryClient)
        ensures
            c == self,
    {
        self
    }

    /// The key is discarded.
    pub fn with_alpha_test_key(self, _key: Option<String>) -> (c: SessionRegistryClient)
        ensures
            c == self,
    {
        self
    }

    /// The session id is discarded.
    pub fn with_session_id(self, _session_id: String) -> (c: SessionRegistryClient)
        ensures
            c == self,
    {
        self
    }

    /// The auth manager is discarded.
    pub fn with_auth<A>(self, _auth_manager: A) -> (c: SessionRegistryClient)
        ensures
            c == self,
    {
        self
    }

    fn removed<T>(&self) -> (res: Result<T, PrivacyRemovedError>)
        ensures
            res matches Err(e) && e == PrivacyRemovedError,
    {
        Err(PrivacyRemovedError)
    }

    /// Removed: would register a session.
    pub fn register(&self, _req: &RegisterRequest) -> (res: Result<(), PrivacyRemovedError>)
        ensures
            res matches Err(e) && e == PrivacyRemovedError,
    {
        self.removed()
    }

    /// Removed: would update a session.
    pub fn update(&self, _session_id: &str, _req: &UpdateRequest) -> (res: Result<
        (),
        PrivacyRemovedError,
    >)
        ensures
            res matches Err(e) && e == PrivacyRemovedError,
    {
        self.removed()
    }

    /// Removed: would finalize a session.
    pub fn finalize(&self, _session_id: &str) -> (res: Result<(), PrivacyRemovedError>)
        ensures
            res matches Err(e) && e == PrivacyRemovedError,
    {
        self.removed()
    }

    /// Removed: would search the server-side session index.
    pub fn search(&self, _query: Option<&str>, _limit: i64) -> (res: Result<
        Vec<SessionRecord>,
        PrivacyRemovedError,
    >)
        ensures
            res matches Err(e) && e == PrivacyRemovedError,
    {
        self.removed()
    }

    /// Removed: would fetch one session record.
    pub fn get_session(&self, _session_id: &str) -> (res: Result<
        SessionRecord,
        PrivacyRemovedError,
    >)
        ensures
            res matches Err(e) && e == PrivacyRemovedError,
    {
        self.removed()
    }

    /// Removed: would fetch a signed download URL.
    pub fn get_download_url(&self, _session_id: &str, _file: &str, _turn: i32) -> (res: Result<
        String,
        PrivacyRemovedError,
    >)
        ensures
            res matches Err(e) && e == PrivacyRemovedError,
    {
        self.removed()
    }

    /// Removed: would download a restore archive to `_dest`.
    pub fn download_file(&self, _session_id: &str, _file: &str, _turn: i32, _dest: &str) -> (res:
        Result<(), PrivacyRemovedError>)
        ensures
            res matches Err(e) && e == PrivacyRemovedError,
    {
        self.removed()
    }
}

} // verus!
