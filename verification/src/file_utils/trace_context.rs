//! Local-only tracing compatibility: distributed trace identifiers are
//! never created or consumed, and no tracing metadata is added to an
//! outbound request.
use vstd::prelude::*;

verus! {

/// `tracing::Span`, opaque to verification.
#[verifier::external_type_specification]
#[verifier::external_body]
pub struct ExTracingSpan(tracing::Span);

/// Whether a span is the disabled span, as `tracing::Span::is_none` tells.
pub uninterp spec fn span_is_disabled(span: tracing::Span) -> bool;

/// Calls `tracing::Span::none`. Trusted: the span it makes is disabled
/// (`is_none()` is true of it).
#[verifier::external_body]
fn disabled_span() -> (s: tracing::Span)
    ensures
        span_is_disabled(s),
{
    tracing::Span::none()
}

/// Distributed trace identifiers are unavailable in the privacy build.
pub fn current_traceparent() -> (res: Option<String>)
    ensures
        res is None,
{
    None
}

/// The ACP callback surface is kept, but a remote trace parent is never
/// accepted: whatever `_meta` holds, the span is the disabled one.
pub fn span_from_meta_traceparent(_meta: &serde_json::Map<String, serde_json::Value>) -> (s:
    tracing::Span)
    ensures
        span_is_disabled(s),
{
    disabled_span()
}

/// Remote trace linkage is intentionally disabled.
pub fn link_current_span_to_meta(_meta: &serde_json::Value) {
}

} // verus!
