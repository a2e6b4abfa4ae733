//! Inert facade for removed cloud relay session mirroring: nothing is
//! connected, persisted or sent.
use super::privacy_build::REMOVED_MESSAGE;
use super::relay::RelayConfig;
use crate::text::{owned, push_str};
use vstd::prelude::*;

verus! {

/// Placeholder share address for a session; it names no server.
pub fn build_share_url(session_id: &str) -> (res: String)
    ensures
        res@ == "privacy://relay-disabled/"@ + session_id@,
{
    let mut s = owned("privacy://relay-disabled/");
    push_str(&mut s, session_id);
    s
}

/// Relay connection states.
#[derive(Clone, Copy, Debug, PartialEq, Eq, Structural)]
pub enum ConnectionState {
    Disconnected,
    Connecting,
    Connected,
}

/// Status glyphs shown for every state: a satellite dish and a cross.
pub const DISCONNECTED_INDICATOR: &'static str = "\u{1F4E1} \u{2717}";

impl ConnectionState {
    /// No state counts as connected.
    pub fn is_connected(&self) -> (res: bool)
        ensures
            !res,
    {
        false
    }

    /// The same indicator for every state.
    pub fn status_indicator(&self) -> (res: &'static str)
        ensures
            res@ == DISCONNECTED_INDICATOR@,
    {
        DISCONNECTED_INDICATOR
    }

    /// Display text: always `disconnected`.
    pub fn to_string(&self) -> (res: String)
        ensures
            res@ == "disconnected"@,
    {
        owned("disconnected")
    }
}

/// Sync cursor an upstream build may have written.
#[derive(Debug, Clone, Default)]
pub struct RelaySyncState {
    pub last_synced_event_id: Option<String>,
    pub last_synced_at: Option<u64>,
    pub relay_session_id: Option<String>,
    pub synced_count: u64,
}

/// A sync cursor that records nothing.
pub open spec fn is_empty_state(s: RelaySyncState) -> bool {
    s.last_synced_event_id is None && s.last_synced_at is None && s.relay_session_id is None
        && s.synced_count == 0
}

/// Summary of a session's sync state.
#[derive(Debug, Clone)]
pub struct SyncStatus {
    pub has_sync_state: bool,
    pub synced_count: u64,
    pub last_synced_event_id: Option<String>,
    pub last_synced_at: Option<u64>,
}

/// Whether an I/O error is of kind `PermissionDenied` (`io::Error::kind`).
pub uninterp spec fn io_error_is_permission_denied(error: std::io::Error) -> bool;

/// The text an I/O error displays (`to_string`).
pub uninterp spec fn io_error_text(error: std::io::Error) -> Seq<char>;

/// Calls `std::io::Error::new(ErrorKind::PermissionDenied, message)`.
/// Trusted: the error's kind is `PermissionDenied` and it displays the
/// message it was made with.
#[verifier::external_body]
fn permission_denied(message: &str) -> (e: std::io::Error)
    ensures
        io_error_is_permission_denied(e),
        io_error_text(e) == message@,
{
    std::io::Error::new(std::io::ErrorKind::PermissionDenied, message)
}

impl RelaySyncState {
    /// State from an upstream build is ignored: it cannot authorize sync.
    pub fn load(_session_dir: &str) -> (s: RelaySyncState)
        ensures
            is_empty_state(s),
    {
        RelaySyncState {
            last_synced_event_id: None,
            last_synced_at: None,
            relay_session_id: None,
            synced_count: 0,
        }
    }

    /// A marker claiming that cloud sync happened is never persisted.
    pub fn save(&self, _session_dir: &str) -> (res: Result<(), std::io::Error>)
        ensures
            res matches Err(e) && io_error_is_permission_denied(e) && io_error_text(e)
                == REMOVED_MESSAGE@,
    {
        Err(permission_denied(REMOVED_MESSAGE))
    }

    /// No sync state is ever found.
    pub fn state_exists(_session_dir: &str) -> (res: bool)
        ensures
            !res,
    {
        false
    }

    /// The cursor does not move.
    pub fn update_cursor(&mut self, _event_id: String)
        ensures
            *final(self) == *old(self),
    {
    }

    /// Every session reports no sync state.
    pub fn get_sync_status(_session_dir: &str) -> (s: SyncStatus)
        ensures
            !s.has_sync_state,
            s.synced_count == 0,
            s.last_synced_event_id is None,
            s.last_synced_at is None,
    {
        SyncStatus {
            has_sync_state: false,
            synced_count: 0,
            last_synced_event_id: None,
            last_synced_at: None,
        }
    }
}

/// A locally inert mirror handle; notifications are dropped unserialized.
pub struct RelaySync<A> {
    session_id: String,
    agent_type: A,
}

impl<A: Copy> RelaySync<A> {
    /// The session this handle belongs to.
    pub closed spec fn session_id_view(&self) -> Seq<char> {
        self.session_id@
    }

    /// The agent type this handle was created for.
    pub closed spec fn agent_type_view(&self) -> A {
        self.agent_type
    }

    /// A handle that stays disconnected. A status callback, when given, is
    /// told once, at creation, that the relay is disconnected.
    pub fn new<F: Fn(ConnectionState)>(
        session_id: String,
        _config: RelayConfig,
        agent_type: A,
        _session_dir: Option<String>,
        status_cb: Option<F>,
    ) -> (r: RelaySync<A>)
        requires
            status_cb matches Some(cb) ==> cb.requires((ConnectionState::Disconnected,)),
        ensures
            r.session_id_view() == session_id@,
            r.agent_type_view() == agent_type,
            status_cb matches Some(cb) ==> cb.ensures((ConnectionState::Disconnected,), ()),
    {
        match status_cb {
            Some(cb) => {
                cb(initial_connection_state());
            },
            None => {},
        }
        RelaySync { session_id, agent_type }
    }

    /// Notifications are dropped.
    pub fn queue<N>(&self, _notification: N) {
    }

    /// There is nothing to flush.
    pub fn flush(&self) {
    }

    /// The session id.
    pub fn session_id(&self) -> (res: &str)
        ensures
            res@ == self.session_id_view(),
    {
        self.session_id.as_str()
    }

    /// The agent type.
    pub fn agent_type(&self) -> (res: A)
        ensures
            res == self.agent_type_view(),
    {
        self.agent_type
    }

    /// Always disconnected.
    pub fn connection_state(&self) -> (res: ConnectionState)
        ensures
            res == ConnectionState::Disconnected,
    {
        ConnectionState::Disconnected
    }

    /// Never connected.
    pub fn is_connected(&self) -> (res: bool)
        ensures
            !res,
    {
        false
    }

    /// Nothing is ever pending.
    pub fn pending_count(&self) -> (res: usize)
        ensures
            res == 0,
    {
        0
    }
}

/// The state reported once, at creation, to a relay status callback.
pub fn initial_connection_state() -> (res: ConnectionState)
    ensures
        res == ConnectionState::Disconnected,
{
    ConnectionState::Disconnected
}

} // verus!
