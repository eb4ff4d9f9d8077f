//! The context a formatter sees: the subscriber's span registry (if any),
//! the current span and the path of spans from the root to it.

use vstd::prelude::*;
use crate::client::log::registry::lookup::{
    registry_enabled, registry_event, registry_current_span, registry_has_span,
    registry_span_metadata, registry_span_reads, registry_ancestors_from_root,
};
use crate::client::log::format::{CtxSpan, format_full_ctx, full_ctx, span_views};

verus! {

/// The spans of the current context, from the root of the trace tree to the
/// current span.
#[derive(Debug)]
pub struct Scope {
    pub spans: Vec<u64>,
}

impl Scope {
    /// The scope of a span whose ancestors, root first, are `ancestors`.
    pub fn of(ancestors: Vec<u64>, span: u64) -> (s: Scope)
        ensures
            s.spans@ == ancestors@.push(span),
    {
        let mut spans = ancestors;
        spans.push(span);
        Scope { spans }
    }

    /// No span.
    pub fn empty() -> (s: Scope)
        ensures
            s.spans@.len() == 0,
    {
        Scope { spans: Vec::new() }
    }
}

/// The span a formatter describes an event in: the event's explicit parent
/// when the registry knows it, the current span otherwise.
pub open spec fn spec_choose_span(found_parent: Option<u64>, current: Option<u64>) -> Option<u64> {
    match found_parent {
        Some(id) => Some(id),
        None => current,
    }
}

/// Chooses the span an event is described in.
pub fn choose_span(found_parent: Option<u64>, current: Option<u64>) -> (s: Option<u64>)
    ensures
        s == spec_choose_span(found_parent, current),
{
    match found_parent {
        Some(id) => Some(id),
        None => current,
    }
}

/// A view of the subscriber's span registry; without one (while a callsite
/// registers) every question gets the neutral answer.
pub struct Context<'a> {
    pub subscriber: Option<&'a tracing_subscriber::Registry>,
}

impl<'a> Context<'a> {
    /// A context over the given registry.
    pub fn new(subscriber: Option<&'a tracing_subscriber::Registry>) -> (c: Self)
        ensures
            c.subscriber == subscriber,
    {
        Context { subscriber }
    }

    /// A copy of this context.
    pub fn clone(&self) -> (c: Self)
        ensures
            c.subscriber == self.subscriber,
    {
        Context { subscriber: self.subscriber }
    }

    /// The registry's current span on this thread, if any.
    pub fn current_span(&self) -> (id: Option<u64>)
        ensures
            self.subscriber is None ==> id is None,
            id matches Some(i) ==> i != 0,
            self.subscriber matches Some(reg) ==> call_ensures(registry_current_span, (reg,), id),
    {
        match self.subscriber {
            Some(s) => {
                let read = registry_current_span;
                read(s)
            },
            None => None,
        }
    }

    /// Whether the registry would enable a span or event with this metadata;
    /// without a registry, `true`.
    pub fn enabled(&self, metadata: &tracing_core::Metadata<'_>) -> (b: bool)
        ensures
            self.subscriber is None ==> b,
            self.subscriber matches Some(reg) ==> call_ensures(registry_enabled, (reg, metadata), b),
    {
        match self.subscriber {
            Some(s) => {
                let ask = registry_enabled;
                ask(s, metadata)
            },
            None => true,
        }
    }

    /// Records an event with the registry, if there is one.
    pub fn event(&self, event: &tracing_core::Event<'_>) {
        match self.subscriber {
            Some(s) => registry_event(s, event),
            None => {},
        }
    }

    /// The metadata of the span with this id, if it is open.
    pub fn metadata(&self, id: u64) -> (m: Option<&'static tracing_core::Metadata<'static>>)
        requires
            id != 0,
        ensures
            self.subscriber is None ==> m is None,
            self.subscriber matches Some(reg) ==> call_ensures(registry_span_metadata, (reg, id), m),
    {
        match self.subscriber {
            Some(s) => {
                let read = registry_span_metadata;
                read(s, id)
            },
            None => None,
        }
    }

    /// The span with this id, if it is open.
    pub fn span(&self, id: u64) -> (found: Option<u64>)
        requires
            id != 0,
        ensures
            self.subscriber is None ==> found is None,
            found is Some ==> found == Some(id),
            self.subscriber matches Some(reg) ==> lookup_answer(reg, id, found),
    {
        match self.subscriber {
            Some(s) => {
                let read = registry_has_span;
                let open = read(s, id);
                span_if_open(id, open)
            },
            None => None,
        }
    }

    /// Whether a span with this id is open.
    pub fn span_exists(&self, id: u64) -> (b: bool)
        requires
            id != 0,
        ensures
            self.subscriber is None ==> !b,
            self.subscriber matches Some(reg) ==> lookup_answer(reg, id, if b {
                Some(id)
            } else {
                None
            }),
    {
        self.span(id).is_some()
    }

    /// The current span, if it is open.
    pub fn lookup_current(&self) -> (found: Option<u64>)
        ensures
            self.subscriber is None ==> found is None,
            found matches Some(i) ==> i != 0,
            self.subscriber matches Some(reg) ==> current_answer(reg, found),
    {
        let current = self.current_span();
        let open = match current {
            Some(id) => self.span_exists(id),
            None => false,
        };
        let found = current_if_open(current, open);
        proof {
            if let Some(reg) = self.subscriber {
                if let Some(c) = current {
                    assert(lookup_answer(reg, c, found));
                }
                assert(current_answer(reg, found));
            }
        }
        found
    }

    /// The spans from the root of the trace tree to the given span.
    pub fn scope_of(&self, id: u64) -> (s: Scope)
        requires
            id != 0,
        ensures
            self.subscriber is None ==> s.spans@ == seq![id],
            s.spans@.len() >= 1,
            s.spans@.last() == id,
            forall|i: int| 0 <= i < s.spans@.len() ==> s.spans@[i] != 0,
            self.subscriber matches Some(reg) ==> scope_of_answer(reg, id, s.spans@),
    {
        let ancestors = match self.subscriber {
            Some(r) => {
                let read = registry_ancestors_from_root;
                read(r, id)
            },
            None => Vec::new(),
        };
        let s = Scope::of(ancestors, id);
        proof {
            if let Some(reg) = self.subscriber {
                assert(call_ensures(registry_ancestors_from_root, (reg, id), ancestors));
            }
        }
        s
    }

    /// The spans of the current context, from the root to the current span;
    /// none when there is no current span.
    pub fn scope(&self) -> (s: Scope)
        ensures
            self.subscriber is None ==> s.spans@.len() == 0,
            forall|i: int| 0 <= i < s.spans@.len() ==> s.spans@[i] != 0,
            self.subscriber matches Some(reg) ==> scope_answer(reg, s.spans@),
    {
        let current = self.lookup_current();
        let ancestors = match (self.subscriber, current) {
            (Some(r), Some(id)) => {
                let read = registry_ancestors_from_root;
                read(r, id)
            },
            _ => Vec::new(),
        };
        let s = scope_from(current, ancestors);
        proof {
            if let Some(reg) = self.subscriber {
                if let Some(c) = current {
                    assert(call_ensures(registry_ancestors_from_root, (reg, c), ancestors));
                    assert(scope_of_answer(reg, c, s.spans@));
                }
                assert(scope_answer(reg, s.spans@));
            }
        }
        s
    }
}

/// The context handed to the event formatter, with the field formatter in
/// use.
pub struct FmtContext<'a, N> {
    pub ctx: Context<'a>,
    pub fmt_fields: &'a N,
}

impl<'a, N> FmtContext<'a, N> {
    /// Combines a context and a field formatter.
    pub fn new(ctx: Context<'a>, fmt_fields: &'a N) -> (f: Self)
        ensures
            f.ctx.subscriber == ctx.subscriber,
            f.fmt_fields == fmt_fields,
    {
        FmtContext { ctx, fmt_fields }
    }

    /// Calls `f` on every span of the current context: first the current
    /// span, then its parent, and so on up to the root; stops at the first
    /// error and returns it. Without a registry nothing is visited.
    pub fn visit_spans<E, F: Fn(u64) -> std::result::Result<(), E>>(&self, f: F) -> (r:
        std::result::Result<(), E>)
        requires
            forall|id: u64| call_requires(f, (id,)),
        ensures
            self.ctx.subscriber is None ==> r is Ok,
            exists|spans: Seq<u64>|
                (forall|i: int| 0 <= i < spans.len() ==> #[trigger] spans[i] != 0) && visited(
                    f,
                    spans.reverse(),
                    r,
                ),
            self.ctx.subscriber matches Some(reg) ==> exists|spans: Seq<u64>|
                scope_answer(reg, spans) && visited(f, spans.reverse(), r),
    {
        let scope = self.ctx.scope();
        let r = visit_scope(&scope, f);
        proof {
            assert(forall|i: int| 0 <= i < scope.spans@.len() ==> #[trigger] scope.spans@[i] != 0);
            assert(visited(f, scope.spans@.reverse(), r));
        }
        r
    }

    /// The metadata of the span with this id, if it is open.
    pub fn metadata(&self, id: u64) -> (m: Option<&'static tracing_core::Metadata<'static>>)
        requires
            id != 0,
        ensures
            self.ctx.subscriber is None ==> m is None,
            self.ctx.subscriber matches Some(reg) ==> call_ensures(registry_span_metadata, (reg, id), m),
    {
        self.ctx.metadata(id)
    }

    /// The span with this id, if it is open.
    pub fn span(&self, id: u64) -> (found: Option<u64>)
        requires
            id != 0,
        ensures
            self.ctx.subscriber is None ==> found is None,
            found is Some ==> found == Some(id),
            self.ctx.subscriber matches Some(reg) ==> lookup_answer(reg, id, found),
    {
        self.ctx.span(id)
    }

    /// Whether a span with this id is open.
    pub fn span_exists(&self, id: u64) -> (b: bool)
        requires
            id != 0,
        ensures
            self.ctx.subscriber is None ==> !b,
            self.ctx.subscriber matches Some(reg) ==> lookup_answer(reg, id, if b {
                Some(id)
            } else {
                None
            }),
    {
        self.ctx.span_exists(id)
    }

    /// The current span, if it is open.
    pub fn lookup_current(&self) -> (found: Option<u64>)
        ensures
            self.ctx.subscriber is None ==> found is None,
            found matches Some(i) ==> i != 0,
            self.ctx.subscriber matches Some(reg) ==> current_answer(reg, found),
    {
        self.ctx.lookup_current()
    }

    /// The spans of the current context, root first.
    pub fn scope(&self) -> (s: Scope)
        ensures
            self.ctx.subscriber is None ==> s.spans@.len() == 0,
            forall|i: int| 0 <= i < s.spans@.len() ==> s.spans@[i] != 0,
            self.ctx.subscriber matches Some(reg) ==> scope_answer(reg, s.spans@),
    {
        self.ctx.scope()
    }

    /// The registry's current span on this thread, if any.
    pub fn current_span(&self) -> (id: Option<u64>)
        ensures
            self.ctx.subscriber is None ==> id is None,
            id matches Some(i) ==> i != 0,
            self.ctx.subscriber matches Some(reg) ==> call_ensures(registry_current_span, (reg,), id),
    {
        self.ctx.current_span()
    }

    /// The field formatter the subscriber uses.
    pub fn field_format(&self) -> (n: &N)
        ensures
            n == self.fmt_fields,
    {
        self.fmt_fields
    }
}

/// The span context of one event: the formatter's context and the event's
/// explicit parent, if it has one.
pub struct FullCtx<'a, N> {
    pub ctx: &'a FmtContext<'a, N>,
    pub span: Option<u64>,
}

impl<'a, N> FullCtx<'a, N> {
    /// The span context of an event with the given explicit parent.
    pub fn new(ctx: &'a FmtContext<'a, N>, span: Option<u64>) -> (f: Self)
        ensures
            f.ctx == ctx,
            f.span == span,
    {
        FullCtx { ctx, span }
    }

    /// The spans from the root to the event's span (its explicit parent if
    /// the registry knows it, the current span otherwise), each with its name
    /// and formatted fields. Returns `None` when a span on the path has no
    /// formatted fields stored, which the subscriber never lets happen.
    pub fn spans(&self) -> (r: Option<Vec<CtxSpan>>)
        requires
            self.span matches Some(id) ==> id != 0,
        ensures
            self.ctx.ctx.subscriber is None ==> (r matches Some(v) && v@.len() == 0),
            self.ctx.ctx.subscriber matches Some(reg) ==> spans_answer(reg, self.span, opt_span_views(r)),
    {
        let found_parent = match self.span {
            Some(id) => self.ctx.ctx.span(id),
            None => None,
        };
        let current = self.ctx.ctx.lookup_current();
        let chosen = choose_span(found_parent, current);
        let reads = match (self.ctx.ctx.subscriber, chosen) {
            (Some(registry), Some(id)) => {
                let read = registry_span_reads;
                read(registry, id)
            },
            _ => None,
        };
        let path = span_path(reads);
        let r = spans_from_path(path);
        proof {
            if let Some(reg) = self.ctx.ctx.subscriber {
                match self.span {
                    Some(p) => assert(lookup_answer(reg, p, found_parent)),
                    None => assert(found_parent is None),
                }
                assert(current_answer(reg, current));
                if let Some(c) = chosen {
                    assert(call_ensures(registry_span_reads, (reg, c), reads));
                    assert(opt_span_views(r) == spans_of_reads(reads));
                    assert(path_answer(reg, c, opt_span_views(r)));
                } else {
                    assert(span_views(r->Some_0@) =~= Seq::<(Seq<char>, Seq<char>)>::empty());
                }
                assert(spans_answer(reg, self.span, opt_span_views(r)));
            }
        }
        r
    }

    /// Renders the context part of the event line: each span from the root to
    /// the event's span, bold, with its fields in bold braces when it has any,
    /// followed by a colon, and a space after the last one. Returns `None`
    /// when a span on the path has no formatted fields stored.
    pub fn render(&self) -> (r: Option<String>)
        requires
            self.span matches Some(id) ==> id != 0,
        ensures
            r matches Some(s) ==> exists|spans: Seq<(Seq<char>, Seq<char>)>| s@ == full_ctx(spans),
            self.ctx.ctx.subscriber is None ==> (r matches Some(s) && s@ == full_ctx(
                Seq::empty(),
            )),
            self.ctx.ctx.subscriber matches Some(reg) ==> exists|out: Option<Seq<(Seq<char>, Seq<char>)>>|
                spans_answer(reg, self.span, out) && rendered(out, r),
    {
        let spans = self.spans();
        let r = render_spans(spans);
        proof {
            if let Some(reg) = self.ctx.ctx.subscriber {
                assert(rendered(opt_span_views(spans), r));
            }
            if self.ctx.ctx.subscriber is None {
                assert(span_views(spans->Some_0@) =~= Seq::<(Seq<char>, Seq<char>)>::empty());
            }
        }
        r
    }
}

/// The path from the root to a span, given what was read of the span's
/// ancestors (the root first) and of the span itself: the ancestors, then
/// the span. No reads (the span is not open) give no path.
pub fn span_path(
    reads: Option<(Vec<(String, Option<String>)>, (String, Option<String>))>,
) -> (path: Option<Vec<(String, Option<String>)>>)
    ensures
        reads is None ==> path is None,
        reads matches Some((ancestors, own)) ==> (path matches Some(p) && p@ == ancestors@.push(own)),
{
    match reads {
        None => None,
        Some((ancestors, own)) => {
            let mut p = ancestors;
            p.push(own);
            Some(p)
        },
    }
}

/// `found` is an answer that looking up span `id` in the registry may give:
/// `Some(id)` when a read of the registry may report the span open, `None`
/// when it may report it closed (or the id unknown).
pub open spec fn lookup_answer(reg: &tracing_subscriber::Registry, id: u64, found: Option<u64>) -> bool {
    exists|open: bool|
        call_ensures(registry_has_span, (reg, id), open) && found == (if open {
            Some(id)
        } else {
            None::<u64>
        })
}

/// `found` is an answer that looking up the current span may give: the
/// thread's current span as the registry may report it, kept when a lookup
/// of it may report it open; none when there is no current span.
pub open spec fn current_answer(reg: &tracing_subscriber::Registry, found: Option<u64>) -> bool {
    exists|cur: Option<u64>|
        call_ensures(registry_current_span, (reg,), cur) && match cur {
            None => found is None,
            Some(c) => lookup_answer(reg, c, found),
        }
}

/// `spans` is a scope of span `id` that the registry may give: the ancestors
/// of `id` as a read of the registry may give them, root first, followed by
/// `id` itself.
pub open spec fn scope_of_answer(reg: &tracing_subscriber::Registry, id: u64, spans: Seq<u64>) -> bool {
    exists|ancestors: Vec<u64>|
        call_ensures(registry_ancestors_from_root, (reg, id), ancestors) && spans
            == ancestors@.push(id)
}

/// `spans` is a scope of the current context that the registry may give:
/// empty when the current span lookup may find none, otherwise the scope of
/// the span it finds, root first, the current span last.
pub open spec fn scope_answer(reg: &tracing_subscriber::Registry, spans: Seq<u64>) -> bool {
    exists|found: Option<u64>|
        current_answer(reg, found) && match found {
            None => spans.len() == 0,
            Some(c) => scope_of_answer(reg, c, spans),
        }
}

/// A scope of the current context ends with the current span: an empty
/// scope goes with a lookup that finds no current span, and a non-empty one
/// ends with a span that the current-span lookup may find, and is that
/// span's scope (its ancestors, root first, then the span).
pub proof fn lemma_scope_ends_with_current(reg: &tracing_subscriber::Registry, spans: Seq<u64>)
    requires
        scope_answer(reg, spans),
    ensures
        spans.len() == 0 ==> current_answer(reg, None),
        spans.len() > 0 ==> current_answer(reg, Some(spans.last())) && scope_of_answer(
            reg,
            spans.last(),
            spans,
        ),
{
    let found = choose|found: Option<u64>|
        current_answer(reg, found) && match found {
            None => spans.len() == 0,
            Some(c) => scope_of_answer(reg, c, spans),
        };
    if let Some(c) = found {
        let ancestors = choose|ancestors: Vec<u64>|
            call_ensures(registry_ancestors_from_root, (reg, c), ancestors) && spans
                == ancestors@.push(c);
        assert(spans.last() == c);
    }
}

/// A lookup of a span finds that span or nothing, never another span.
pub proof fn lemma_lookup_finds_that_span(reg: &tracing_subscriber::Registry, id: u64, found: Option<u64>)
    requires
        lookup_answer(reg, id, found),
    ensures
        found is None || found == Some(id),
{
}

/// The spans (name, fields) of a path read: the span's ancestors, root
/// first, then the span itself; no read (span not open) gives no spans, and
/// a span without formatted fields gives `None`.
pub open spec fn spans_of_reads(
    reads: Option<(Vec<(String, Option<String>)>, (String, Option<String>))>,
) -> Option<Seq<(Seq<char>, Seq<char>)>> {
    match reads {
        None => Some(Seq::empty()),
        Some((ancestors, own)) => spec_spans_of(path_views(ancestors@.push(own))),
    }
}

/// `out` is what reading the path of span `id` from the registry may give.
pub open spec fn path_answer(
    reg: &tracing_subscriber::Registry,
    id: u64,
    out: Option<Seq<(Seq<char>, Seq<char>)>>,
) -> bool {
    exists|reads: Option<(Vec<(String, Option<String>)>, (String, Option<String>))>|
        call_ensures(registry_span_reads, (reg, id), reads) && out == spans_of_reads(reads)
}

/// `out` is what the span context of an event with explicit parent `parent`
/// may come to: the path of the parent when a lookup may find it open, of
/// the current span (as a lookup may find it) otherwise; no span gives no
/// spans.
pub open spec fn spans_answer(
    reg: &tracing_subscriber::Registry,
    parent: Option<u64>,
    out: Option<Seq<(Seq<char>, Seq<char>)>>,
) -> bool {
    exists|found_parent: Option<u64>, current: Option<u64>|
        #![trigger current_answer(reg, current), spec_choose_span(found_parent, current)]
        (match parent {
            Some(p) => lookup_answer(reg, p, found_parent),
            None => found_parent is None,
        }) && current_answer(reg, current) && match spec_choose_span(found_parent, current) {
            None => out == Some(Seq::<(Seq<char>, Seq<char>)>::empty()),
            Some(c) => path_answer(reg, c, out),
        }
}

/// The (name, fields) views of spans, if any.
pub open spec fn opt_span_views(spans: Option<Vec<CtxSpan>>) -> Option<Seq<(Seq<char>, Seq<char>)>> {
    match spans {
        Some(v) => Some(span_views(v@)),
        None => None,
    }
}

/// `r` renders `out`: the context part of the line for those spans, or no
/// rendering when there are no spans to render.
pub open spec fn rendered(out: Option<Seq<(Seq<char>, Seq<char>)>>, r: Option<String>) -> bool {
    match out {
        Some(sv) => r matches Some(s) && s@ == full_ctx(sv),
        None => r is None,
    }
}

/// The (name, fields) views of a path read from the registry.
pub open spec fn path_views(path: Seq<(String, Option<String>)>) -> Seq<(Seq<char>, Option<Seq<char>>)> {
    path.map_values(|p: (String, Option<String>)| (p.0@, match p.1 {
        Some(f) => Some(f@),
        None => None,
    }))
}

/// The spans of a path read from the registry: `None` exactly when some
/// span on it has no formatted fields, otherwise each span's name and
/// fields in order.
pub open spec fn spec_spans_of(path: Seq<(Seq<char>, Option<Seq<char>>)>) -> Option<
    Seq<(Seq<char>, Seq<char>)>,
> {
    if exists|i: int| 0 <= i < path.len() && (#[trigger] path[i]).1 is None {
        None
    } else {
        Some(path.map_values(|p: (Seq<char>, Option<Seq<char>>)| (p.0, p.1->Some_0)))
    }
}

/// The spans of the path read for the event's span; no path (no span, or
/// the span closed before it was read) gives no spans.
pub fn spans_from_path(path: Option<Vec<(String, Option<String>)>>) -> (r: Option<Vec<CtxSpan>>)
    ensures
        path is None ==> (r matches Some(v) && v@.len() == 0),
        path matches Some(p) ==> match spec_spans_of(path_views(p@)) {
            Some(sv) => r matches Some(v) && span_views(v@) == sv,
            None => r is None,
        },
{
    match path {
        None => Some(Vec::new()),
        Some(p) => assemble_spans(&p),
    }
}

/// The spans of a path read from the registry, each with its name and
/// formatted fields; `None` when a span has no formatted fields.
pub fn assemble_spans(path: &Vec<(String, Option<String>)>) -> (r: Option<Vec<CtxSpan>>)
    ensures
        match spec_spans_of(path_views(path@)) {
            Some(sv) => r matches Some(v) && span_views(v@) == sv,
            None => r is None,
        },
{
    let ghost pv = path_views(path@);
    let mut spans: Vec<CtxSpan> = Vec::new();
    let mut i: usize = 0;
    while i < path.len()
        invariant
            i <= path.len(),
            pv == path_views(path@),
            forall|k: int| 0 <= k < i ==> (#[trigger] pv[k]).1 is Some,
            span_views(spans@) == pv.take(i as int).map_values(
                |p: (Seq<char>, Option<Seq<char>>)| (p.0, p.1->Some_0),
            ),
        decreases path.len() - i,
    {
        let (name, fields) = &path[i];
        match fields {
            Some(f) => {
                let span = CtxSpan { name: name.clone(), fields: f.clone() };
                let ghost before = spans@;
                spans.push(span);
                proof {
                    assert(pv[i as int] == (name@, Some(f@)));
                    assert(span_views(spans@) =~= span_views(before).push((name@, f@)));
                    assert(pv.take(i + 1).map_values(
                        |p: (Seq<char>, Option<Seq<char>>)| (p.0, p.1->Some_0),
                    ) =~= pv.take(i as int).map_values(
                        |p: (Seq<char>, Option<Seq<char>>)| (p.0, p.1->Some_0),
                    ).push((name@, f@)));
                }
            },
            None => {
                proof {
                    assert(pv[i as int].1 is None);
                }
                return None;
            },
        }
        i = i + 1;
    }
    proof {
        assert(pv.take(path@.len() as int) == pv);
    }
    Some(spans)
}

/// Renders spans as the context part of an event line; no spans to render
/// (a span without formatted fields) gives no rendering.
pub fn render_spans(spans: Option<Vec<CtxSpan>>) -> (r: Option<String>)
    ensures
        spans is None ==> r is None,
        spans matches Some(v) ==> (r matches Some(s) && s@ == full_ctx(span_views(v@))),
{
    match spans {
        Some(v) => Some(format_full_ctx(&v)),
        None => None,
    }
}

/// The span a lookup of `id` finds, given whether the registry reports it
/// open.
pub fn span_if_open(id: u64, open: bool) -> (found: Option<u64>)
    ensures
        found == (if open { Some(id) } else { None::<u64> }),
{
    if open {
        Some(id)
    } else {
        None
    }
}

/// The current span as a lookup finds it: the registry's current span when
/// the registry reports it open, none otherwise.
pub open spec fn spec_current_if_open(current: Option<u64>, open: bool) -> Option<u64> {
    match current {
        Some(id) => if open {
            Some(id)
        } else {
            None
        },
        None => None,
    }
}

/// The current span as a lookup finds it, given the registry's current span
/// and whether the registry reports it open.
pub fn current_if_open(current: Option<u64>, open: bool) -> (found: Option<u64>)
    ensures
        found == spec_current_if_open(current, open),
{
    match current {
        Some(id) => span_if_open(id, open),
        None => None,
    }
}

/// The scope of the current context, given the current span (if any) and
/// its ancestors from the root: the ancestors followed by the span, or no
/// span at all.
pub fn scope_from(current: Option<u64>, ancestors: Vec<u64>) -> (s: Scope)
    ensures
        current is None ==> s.spans@.len() == 0,
        current matches Some(id) ==> s.spans@ == ancestors@.push(id),
{
    match current {
        Some(id) => Scope::of(ancestors, id),
        None => Scope::empty(),
    }
}

impl Scope {
    /// The spans from the current one up to the root.
    pub fn current_first(&self) -> (ids: Vec<u64>)
        ensures
            ids@ == self.spans@.reverse(),
    {
        let mut ids: Vec<u64> = Vec::new();
        let mut i: usize = self.spans.len();
        while i > 0
            invariant
                i <= self.spans.len(),
                ids@ == self.spans@.subrange(i as int, self.spans@.len() as int).reverse(),
            decreases i,
        {
            i = i - 1;
            ids.push(self.spans[i]);
            proof {
                assert(self.spans@.subrange(i as int, self.spans@.len() as int).reverse() =~= self.spans@.subrange(
                    i + 1,
                    self.spans@.len() as int,
                ).reverse().push(self.spans@[i as int]));
            }
        }
        proof {
            assert(self.spans@.subrange(0, self.spans@.len() as int) =~= self.spans@);
        }
        ids
    }
}

/// What visiting `ids` in order with `f` comes to: `Ok` when every call
/// returned `Ok`; otherwise the error of the first call that failed, after
/// every earlier call returned `Ok`.
pub open spec fn visited<E, F: Fn(u64) -> std::result::Result<(), E>>(
    f: F,
    ids: Seq<u64>,
    r: std::result::Result<(), E>,
) -> bool {
    &&& r is Ok ==> forall|i: int| 0 <= i < ids.len() ==> call_ensures(f, (#[trigger] ids[i],), Ok(()))
    &&& r matches Err(e) ==> exists|k: int|
        0 <= k < ids.len() && call_ensures(f, (#[trigger] ids[k],), Err(e)) && forall|j: int|
            0 <= j < k ==> call_ensures(f, (#[trigger] ids[j],), Ok(()))
}

/// Visits the spans of a scope, the current span first and the root last,
/// and stops at the first error.
pub fn visit_scope<E, F: Fn(u64) -> std::result::Result<(), E>>(scope: &Scope, f: F) -> (r:
    std::result::Result<(), E>)
    requires
        forall|id: u64| call_requires(f, (id,)),
    ensures
        visited(f, scope.spans@.reverse(), r),
{
    let ids = scope.current_first();
    visit_ids(&ids, f)
}

/// Calls `f` on each id in order and stops at the first error: `Ok` when
/// every call succeeded, otherwise the error of the first call that failed,
/// after every earlier call succeeded.
pub fn visit_ids<E, F: Fn(u64) -> std::result::Result<(), E>>(ids: &Vec<u64>, f: F) -> (r:
    std::result::Result<(), E>)
    requires
        forall|id: u64| call_requires(f, (id,)),
    ensures
        visited(f, ids@, r),
{
    let mut i: usize = 0;
    while i < ids.len()
        invariant
            i <= ids.len(),
            forall|id: u64| call_requires(f, (id,)),
            forall|j: int| 0 <= j < i ==> call_ensures(f, (#[trigger] ids@[j],), Ok(())),
        decreases ids.len() - i,
    {
        let id = ids[i];
        let res = f(id);
        proof {
            assert(call_ensures(f, (ids@[i as int],), res));
        }
        match res {
            Ok(u) => {
                proof {
                    let unit: () = u;
                    assert(unit == ());
                    assert(res == Ok::<(), E>(()));
                }
            },
            Err(e) => {
                proof {
                    assert(call_ensures(f, (ids@[i as int],), Err(e)));
                }
                return Err(e);
            },
        }
        i = i + 1;
    }
    Ok(())
}

} // verus!
