//! Wake-up signal type from tokio, carried through the inert facades.
use vstd::prelude::*;

verus! {

/// tokio's `sync::Notify`, opaque to verification.
#[verifier::external_type_specification]
#[verifier::external_body]
pub struct ExNotify(tokio::sync::Notify);

/// Calls `tokio::sync::Notify::new`; nothing is stated of the result.
#[verifier::external_body]
pub(crate) fn new_notify() -> tokio::sync::Notify {
    tokio::sync::Notify::new()
}

/// Calls `tokio::sync::Notify::notify_waiters`, which wakes the tasks that
/// are waiting at the time of the call; nothing here observes that effect.
#[verifier::external_body]
pub(crate) fn notify_waiters(notify: &tokio::sync::Notify) {
    notify.notify_waiters();
}

} // verus!
