use rvm::client::log::context::{Context, FmtContext, FullCtx};
use rvm::client::log::format::FormattedFields;
use tracing_core::callsite::{Callsite, Identifier};
use tracing_core::field::{Field, FieldSet, Value};
use tracing_core::metadata::Kind;
use tracing_core::span::{Attributes, Id};
use tracing_core::subscriber::Interest;
use tracing_core::{Level, Metadata, Subscriber};
use tracing_subscriber::fmt::format::DefaultFields;
use tracing_subscriber::registry::LookupSpan;
use tracing_subscriber::Registry;

struct OuterSite;
struct InnerSite;

static OUTER_SITE: OuterSite = OuterSite;
static INNER_SITE: InnerSite = InnerSite;

static OUTER: Metadata<'static> = Metadata::new(
    "outer",
    "registry_test",
    Level::INFO,
    None,
    None,
    None,
    FieldSet::new(&[], Identifier(&OUTER_SITE)),
    Kind::SPAN,
);

static INNER: Metadata<'static> = Metadata::new(
    "inner",
    "registry_test",
    Level::INFO,
    None,
    None,
    None,
    FieldSet::new(&[], Identifier(&INNER_SITE)),
    Kind::SPAN,
);

impl Callsite for OuterSite {
    fn set_interest(&self, _: Interest) {}
    fn metadata(&self) -> &Metadata<'_> {
        &OUTER
    }
}

impl Callsite for InnerSite {
    fn set_interest(&self, _: Interest) {}
    fn metadata(&self) -> &Metadata<'_> {
        &INNER
    }
}

fn open_span(registry: &Registry, meta: &'static Metadata<'static>, fields: &str) -> Id {
    let no_values: [(&Field, Option<&dyn Value>); 0] = [];
    let values = meta.fields().value_set(&no_values);
    let attrs = Attributes::new(meta, &values);
    let id = registry.new_span(&attrs);
    registry
        .span(&id)
        .unwrap()
        .extensions_mut()
        .insert(FormattedFields::<DefaultFields>::new(fields.to_string()));
    id
}

#[test]
fn context_reads_entered_spans() {
    let registry = Registry::default();
    let outer = open_span(&registry, &OUTER, "a=1");
    registry.enter(&outer);
    let inner = open_span(&registry, &INNER, "");
    registry.enter(&inner);

    let c = Context::new(Some(&registry));
    assert_eq!(c.current_span(), Some(inner.into_u64()));
    assert_eq!(c.lookup_current(), Some(inner.into_u64()));
    assert!(c.span_exists(outer.into_u64()));
    assert_eq!(c.metadata(outer.into_u64()).map(|m| m.name()), Some("outer"));
    assert!(c.enabled(&OUTER));
    assert_eq!(c.scope().spans, vec![outer.into_u64(), inner.into_u64()]);
    assert_eq!(c.scope_of(outer.into_u64()).spans, vec![outer.into_u64()]);

    let fields = DefaultFields::default();
    let f = FmtContext::new(c.clone(), &fields);
    // the current span is visited first, then its parents up to the root
    let seen = std::cell::RefCell::new(Vec::new());
    let r: Result<(), ()> = f.visit_spans(|id| {
        seen.borrow_mut().push(id);
        Ok(())
    });
    assert_eq!(r, Ok(()));
    assert_eq!(*seen.borrow(), vec![inner.into_u64(), outer.into_u64()]);
    let r: Result<(), u64> = f.visit_spans(|id| Err(id));
    assert_eq!(r, Err(inner.into_u64()));
    assert_eq!(f.scope().spans, vec![outer.into_u64(), inner.into_u64()]);

    assert_eq!(
        FullCtx::new(&f, None).render(),
        Some("\x1b[1mouter\x1b[0m\x1b[1m{\x1b[0ma=1\x1b[1m}\x1b[0m:\x1b[1minner\x1b[0m: ".to_string())
    );
    // an explicit parent takes precedence over the current span
    assert_eq!(
        FullCtx::new(&f, Some(outer.into_u64())).render(),
        Some("\x1b[1mouter\x1b[0m\x1b[1m{\x1b[0ma=1\x1b[1m}\x1b[0m: ".to_string())
    );

    registry.exit(&inner);
    assert_eq!(c.lookup_current(), Some(outer.into_u64()));
}
