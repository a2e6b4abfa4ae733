//! No-upload turn facade: no upload is ever confirmed, and the only local
//! logic left is finishing a streaming capture and applying the yolo flag.
use crate::text::{copy_option_string, owned, str_eq};
use vstd::pervasive::cloned;
use vstd::prelude::*;

verus! {

/// tokio's `time::Instant`, carried opaquely.
#[verifier::external_type_specification]
#[verifier::external_body]
pub struct ExInstant(tokio::time::Instant);

/// How an upload attempt ended.
pub enum UploadOutcome {
    Confirmed,
    Deferred,
    Failed { reason: &'static str, status_code: Option<u16> },
}

impl UploadOutcome {
    /// No outcome counts as confirmed, not even `Confirmed`.
    pub fn is_confirmed(&self) -> (res: bool)
        ensures
            !res,
    {
        false
    }
}

/// Whether a caller would wait for an upload.
#[derive(Debug, Clone, Copy)]
pub enum UploadWait {
    Confirm,
    Defer { deadline: tokio::time::Instant },
}

/// Upload futures are dropped without being polled; no task is created.
pub fn spawn_upload_task<F>(_task_name: &'static str, fut: F) {
    drop_value(fut);
}

fn drop_value<F>(_value: F) {
}

/// The parts of a streaming capture that finishing it reads and sets.
#[derive(Debug, Clone)]
pub struct StreamingTurnCapture {
    pub model_id: Option<String>,
    pub reason: Option<String>,
    pub has_doom_loop_segments: bool,
}

/// Reason recorded on a committed capture that had doom-loop segments.
pub const DOOM_LOOP_RECOVERED_REASON: &'static str = "doom_loop_recovered";

/// The capture handed back after taking it from the session: on a committed
/// turn only captures with doom-loop segments are kept, and get a default
/// reason when they have none; every kept capture gets the caller's model id
/// when it has none. The caller does the channel exchange that takes it.
pub fn finish_streaming_partial(
    taken: Option<StreamingTurnCapture>,
    committed: bool,
    model_id: Option<String>,
) -> (res: Option<StreamingTurnCapture>)
    ensures
        match taken {
            None => res is None,
            Some(c) => if committed && !c.has_doom_loop_segments {
                res is None
            } else {
                res matches Some(r) && r.has_doom_loop_segments == c.has_doom_loop_segments
                    && r.model_id == (if c.model_id is Some {
                    c.model_id
                } else {
                    model_id
                }) && (if committed && c.reason is None {
                    r.reason matches Some(x) && x@ == DOOM_LOOP_RECOVERED_REASON@
                } else {
                    r.reason == c.reason
                })
            },
        },
{
    match taken {
        Some(c) => {
            if committed && !c.has_doom_loop_segments {
                return None;
            }
            let mut c = c;
            if c.model_id.is_none() {
                c.model_id = model_id;
            }
            if committed && c.reason.is_none() {
                c.reason = Some(owned(DOOM_LOOP_RECOVERED_REASON));
            }
            Some(c)
        },
        None => None,
    }
}

/// Removed: the trace of a prompt is never completed or uploaded.
pub fn complete_prompt_trace<C, P, R, T, S>(
    _ctx: C,
    _permission_events: Vec<P>,
    _session_copy_rx: R,
    _turn_messages: Option<T>,
    _streaming_partial: Option<S>,
    _wait: UploadWait,
) -> (res: Result<bool, crate::shell::privacy_build::PrivacyRemovedError>)
    ensures
        res matches Ok(b) && !b,
{
    Ok(false)
}

/// serde_json's `Map`, the ACP `_meta` object; opaque to verification.
#[verifier::external_type_specification]
#[verifier::external_body]
#[verifier::reject_recursive_types(K)]
#[verifier::reject_recursive_types(V)]
pub struct ExJsonMap<K, V>(serde_json::Map<K, V>);

/// What a `_meta` object holds as JSON booleans: each key whose value is
/// `true` or `false`, mapped to that boolean. Keys holding other JSON values
/// are not in its domain.
pub uninterp spec fn meta_bool_entries(meta: serde_json::Map<String, serde_json::Value>) -> Map<
    Seq<char>,
    bool,
>;

/// The boolean a `_meta` object holds under `key`, if it holds one.
pub open spec fn meta_bool(meta: serde_json::Map<String, serde_json::Value>, key: Seq<char>) -> Option<bool> {
    if meta_bool_entries(meta).dom().contains(key) {
        Some(meta_bool_entries(meta)[key])
    } else {
        None
    }
}

/// Calls `serde_json::Map::get` and tells the `Value::Bool` variant apart
/// from the others. Trusted: the result is the boolean the map holds under
/// `key` (named by `meta_bool_entries`), or `None` when the key is absent
/// or holds another kind of value.
#[verifier::external_body]
fn meta_get_bool(meta: &serde_json::Map<String, serde_json::Value>, key: &str) -> (r: Option<bool>)
    ensures
        r == (if meta_bool_entries(*meta).dom().contains(key@) {
            Some(meta_bool_entries(*meta)[key@])
        } else {
            None
        }),
{
    match meta.get(key) {
        Some(serde_json::Value::Bool(b)) => Some(*b),
        Some(serde_json::Value::Null) => None,
        Some(serde_json::Value::Number(_)) => None,
        Some(serde_json::Value::String(_)) => None,
        Some(serde_json::Value::Array(_)) => None,
        Some(serde_json::Value::Object(_)) => None,
        None => None,
    }
}

/// The `askUserQuestion` flag of a prompt's `_meta`, when it is a boolean.
/// No `_meta` means no flag.
pub fn parse_ask_user_question_from_meta(
    meta: Option<&serde_json::Map<String, serde_json::Value>>,
) -> (r: Option<bool>)
    ensures
        meta is None ==> r is None,
        meta matches Some(m) ==> r == meta_bool(*m, "askUserQuestion"@),
{
    match meta {
        Some(m) => meta_get_bool(m, "askUserQuestion"),
        None => None,
    }
}

/// The session's own model when it has one, else a copy of the default.
pub fn lookup_session_model<M: Clone>(session_model: Option<M>, default_model_id: &M) -> (m: M)
    ensures
        session_model matches Some(s) ==> m == s,
        session_model is None ==> cloned(*default_model_id, m),
{
    match session_model {
        Some(s) => s,
        None => default_model_id.clone(),
    }
}

/// The parts of a session handle that the yolo switch reads and sets.
#[derive(Debug, Clone)]
pub struct SessionYoloSlot {
    pub origin_product: Option<String>,
    pub yolo_mode: bool,
}

/// A session is addressed by a sender when no sender is named, or when its
/// origin product is the named sender.
pub open spec fn sender_matches(origin_product: Option<String>, sender_id: Option<Seq<char>>) -> bool {
    match sender_id {
        None => true,
        Some(s) => origin_product matches Some(p) && p@ == s,
    }
}

fn matches_sender(origin_product: &Option<String>, sender_id: Option<&str>) -> (res: bool)
    ensures
        res == sender_matches(
            *origin_product,
            match sender_id {
                Some(s) => Some(s@),
                None => None,
            },
        ),
{
    match sender_id {
        None => true,
        Some(s) => match origin_product {
            Some(p) => str_eq(p.as_str(), s),
            None => false,
        },
    }
}

/// Set the yolo flag on every session addressed by `sender_id`. Returns the
/// indices of the updated sessions, in increasing order; the caller sends
/// each of them the matching command, and their number is the count of
/// updated sessions.
pub fn apply_yolo_mode_to_matching_sessions(
    sessions: &mut Vec<SessionYoloSlot>,
    sender_id: Option<&str>,
    yolo_mode: bool,
) -> (updated: Vec<usize>)
    ensures
        final(sessions)@.len() == old(sessions)@.len(),
        forall|i: int|
            0 <= i < old(sessions)@.len() ==> {
                let before = old(sessions)@[i];
                let after = #[trigger] final(sessions)@[i];
                &&& after.origin_product == before.origin_product
                &&& after.yolo_mode == (if sender_matches(
                    before.origin_product,
                    match sender_id {
                        Some(s) => Some(s@),
                        None => None,
                    },
                ) {
                    yolo_mode
                } else {
                    before.yolo_mode
                })
            },
        forall|k: int, l: int| 0 <= k < l < updated@.len() ==> updated@[k] < updated@[l],
        forall|k: int|
            0 <= k < updated@.len() ==> #[trigger] updated@[k] < old(sessions)@.len()
                && sender_matches(
                old(sessions)@[updated@[k] as int].origin_product,
                match sender_id {
                    Some(s) => Some(s@),
                    None => None,
                },
            ),
        forall|i: int|
            0 <= i < old(sessions)@.len() && sender_matches(
                #[trigger] old(sessions)@[i].origin_product,
                match sender_id {
                    Some(s) => Some(s@),
                    None => None,
                },
            ) ==> updated@.contains(i as usize),
{
    let ghost sender = match sender_id {
        Some(s) => Some(s@),
        None => None,
    };
    let ghost before = sessions@;
    let mut updated: Vec<usize> = Vec::new();
    let mut i: usize = 0;
    while i < sessions.len()
        invariant
            i <= sessions@.len(),
            sessions@.len() == before.len(),
            sender == match sender_id {
                Some(s) => Some(s@),
                None => None,
            },
            forall|j: int| i <= j < before.len() ==> #[trigger] sessions@[j] == before[j],
            forall|j: int|
                0 <= j < i ==> {
                    let b = before[j];
                    let a = #[trigger] sessions@[j];
                    &&& a.origin_product == b.origin_product
                    &&& a.yolo_mode == (if sender_matches(b.origin_product, sender) {
                        yolo_mode
                    } else {
                        b.yolo_mode
                    })
                },
            forall|k: int, l: int| 0 <= k < l < updated@.len() ==> updated@[k] < updated@[l],
            forall|k: int|
                0 <= k < updated@.len() ==> #[trigger] updated@[k] < i && sender_matches(
                    before[updated@[k] as int].origin_product,
                    sender,
                ),
            forall|j: int|
                0 <= j < i && sender_matches(#[trigger] before[j].origin_product, sender)
                    ==> updated@.contains(j as usize),
        decreases sessions@.len() - i,
    {
        if matches_sender(&sessions[i].origin_product, sender_id) {
            let origin = copy_option_string(&sessions[i].origin_product);
            sessions.set(i, SessionYoloSlot { origin_product: origin, yolo_mode });
            let ghost old_updated = updated@;
            updated.push(i);
            assert forall|j: int|
                0 <= j < i + 1 && sender_matches(#[trigger] before[j].origin_product, sender)
                    implies updated@.contains(j as usize) by {
                if j < i {
                    let k = choose|k: int| 0 <= k < old_updated.len() && old_updated[k] == j as usize;
                    assert(updated@[k] == j as usize);
                } else {
                    assert(updated@[updated@.len() - 1] == j as usize);
                }
            }
        }
        i = i + 1;
    }
    updated
}

} // verus!
