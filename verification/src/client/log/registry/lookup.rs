//! What the formatting code reads from `tracing_subscriber`'s span
//! registry. Spans are named by the non-zero value of their
//! `tracing_core::span::Id`. The registry is shared and changes as spans
//! open and close on any thread, so nothing below ties two reads together.
//! The readers are public so that the contracts of the formatting context
//! can say of their results that they are answers a read may give
//! (`call_ensures` of the reader on the same arguments).

use vstd::prelude::*;
use tracing_core::span::Id as SpanId;
use tracing_subscriber::registry::LookupSpan as _;
use tracing_core::Subscriber as _;
use crate::client::log::format::FormattedFields;

verus! {

#[verifier::external_type_specification]
#[verifier::external_body]
pub struct ExRegistry(tracing_subscriber::Registry);

#[verifier::external_type_specification]
#[verifier::external_body]
pub struct ExMetadata<'a>(tracing_core::Metadata<'a>);

#[verifier::external_type_specification]
#[verifier::external_body]
pub struct ExEvent<'a>(tracing_core::Event<'a>);

/// Calls `Subscriber::enabled` on the registry. Its answer depends on the
/// registry's filters and is not stated.
#[verifier::external_body]
pub fn registry_enabled(r: &tracing_subscriber::Registry, m: &tracing_core::Metadata<'_>) -> bool {
    r.enabled(m)
}

/// Calls `Subscriber::event` on the registry.
#[verifier::external_body]
pub fn registry_event(r: &tracing_subscriber::Registry, e: &tracing_core::Event<'_>) {
    r.event(e)
}

/// Calls `Subscriber::current_span` on the registry and returns the id of
/// the current span, if any. Which span is current depends on the calling
/// thread; only that a span id is never zero is stated.
#[verifier::external_body]
pub fn registry_current_span(r: &tracing_subscriber::Registry) -> (id: Option<u64>)
    ensures
        id matches Some(i) ==> i != 0,
{
    r.current_span().id().map(|id| id.into_u64())
}

/// Calls `LookupSpan::span` on the registry and tells whether a span with
/// this id is open; that changes as spans close and is not stated.
#[verifier::external_body]
pub fn registry_has_span(r: &tracing_subscriber::Registry, id: u64) -> bool
    requires
        id != 0,
{
    r.span(&SpanId::from_u64(id)).is_some()
}

/// Calls `LookupSpan::span` on the registry and returns the span's metadata,
/// if the span is open.
#[verifier::external_body]
pub fn registry_span_metadata(r: &tracing_subscriber::Registry, id: u64) -> Option<
    &'static tracing_core::Metadata<'static>,
>
    requires
        id != 0,
{
    r.span(&SpanId::from_u64(id)).map(|s| s.metadata())
}

/// Calls `LookupSpan::span` on the registry and, holding that span, reads
/// its ancestors (`SpanRef::from_root`, the root first) and the span itself:
/// for each its name and the formatted fields that the `DefaultFields`
/// formatter stored in its extensions (the subscriber uses no other), if
/// any. `None` when the span is not open. What the registry holds is not
/// stated.
#[verifier::external_body]
#[allow(deprecated)]
pub fn registry_span_reads(r: &tracing_subscriber::Registry, id: u64) -> Option<
    (Vec<(String, Option<String>)>, (String, Option<String>)),
>
    requires
        id != 0,
{
    r.span(&SpanId::from_u64(id)).map(|s| {
        let read = |p: &tracing_subscriber::registry::SpanRef<'_, tracing_subscriber::Registry>| (
            p.name().to_string(),
            p.extensions().get::<FormattedFields<tracing_subscriber::fmt::format::DefaultFields>>().map(|f| f.fields.clone()),
        );
        (s.from_root().map(|p| read(&p)).collect(), read(&s))
    })
}

/// Calls `LookupSpan::span` on the registry and `SpanRef::from_root` on the
/// span, and returns the ids of the span's ancestors, the root first (none
/// when the span is not open). Only that span ids are never zero is stated.
#[verifier::external_body]
#[allow(deprecated)]
pub fn registry_ancestors_from_root(r: &tracing_subscriber::Registry, id: u64) -> (ids: Vec<u64>)
    requires
        id != 0,
    ensures
        forall|i: int| 0 <= i < ids@.len() ==> ids@[i] != 0,
{
    match r.span(&SpanId::from_u64(id)) {
        Some(s) => s.from_root().map(|p| p.id().into_u64()).collect(),
        None => Vec::new(),
    }
}

} // verus!
