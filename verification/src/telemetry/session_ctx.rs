//! No-emission telemetry session facade.
use crate::time::Duration;
use vstd::prelude::*;

verus! {

/// No prompt id is tracked.
pub fn begin_prompt_id() {
}

/// Field name under which a session id would have been logged.
pub const SESSION_ID_FIELD: &'static str = "session_id";

/// Which component an event would have come from.
#[derive(Debug, Clone, Copy, PartialEq, Eq, Structural)]
pub enum EmitterOrigin {
    Shell,
    Workspace,
}

/// Every origin, in declaration order.
pub fn all_origins() -> (res: [EmitterOrigin; 2])
    ensures
        res@ == seq![EmitterOrigin::Shell, EmitterOrigin::Workspace],
{
    [EmitterOrigin::Shell, EmitterOrigin::Workspace]
}

impl EmitterOrigin {
    /// Event-name prefix of an origin.
    pub fn event_prefix(self) -> (res: &'static str)
        ensures
            res@ == (match self {
                EmitterOrigin::Shell => "grok-shell-"@,
                EmitterOrigin::Workspace => "grok-workspace-"@,
            }),
    {
        match self {
            EmitterOrigin::Shell => "grok-shell-",
            EmitterOrigin::Workspace => "grok-workspace-",
        }
    }
}

/// Dropped.
pub fn log_event<T>(_data: T) {
}

/// Dropped, whatever the internal switch says.
pub fn log_event_dual<T>(_internal_enabled: bool, _data: T) {
}

/// Dropped.
pub fn log_session_event<T>(_data: T) {
}

/// Dropped.
pub fn log_session_event_with_origin<T>(_origin: EmitterOrigin, _data: T) {
}

/// Dropped.
pub fn emit_event<T>(_event_suffix: String, _data: T) {
}

/// Dropped.
pub fn emit_event_with_origin<T>(_origin: EmitterOrigin, _event_suffix: String, _data: T) {
}

/// There is nothing to drain at exit.
pub fn cli_drain() -> (d: Duration)
    ensures
        d.secs_of() == 0 && d.nanos_of() == 0,
{
    Duration::zero()
}

/// Nothing pending at session exit.
pub fn drain_at_session_exit() {
}

/// Nothing pending at process exit.
pub fn drain_at_process_exit() {
}

/// Nothing pending.
pub fn drain_pending(_timeout: Duration) {
}

} // verus!
