use rvm::client::log::context::{
    assemble_spans, choose_span, current_if_open, render_spans, span_path, visit_scope, scope_from, spans_from_path, visit_ids, Context,
    FmtContext, FullCtx, Scope,
};
use rvm::client::log::format::CtxSpan;
use std::cell::RefCell;

#[test]
fn context_without_registry_gives_neutral_answers() {
    let c = Context::new(None);
    assert_eq!(c.current_span(), None);
    assert_eq!(c.lookup_current(), None);
    assert_eq!(c.span(3), None);
    assert!(!c.span_exists(3));
    assert!(c.metadata(3).is_none());
    assert!(c.scope().spans.is_empty());
    assert_eq!(c.scope_of(3).spans, vec![3]);
}

#[test]
fn fresh_registry_has_no_spans() {
    let registry = tracing_subscriber::Registry::default();
    let c = Context::new(Some(&registry));
    assert_eq!(c.lookup_current(), None);
    assert_eq!(c.span(1), None);
    assert!(!c.span_exists(1));
    assert!(c.scope().spans.is_empty());
    assert_eq!(c.scope_of(1).spans, vec![1]);
    let fields = 0u8;
    let f = FmtContext::new(c.clone(), &fields);
    assert_eq!(*f.field_format(), 0);
    assert_eq!(f.lookup_current(), None);
    let visited: Result<(), ()> = f.visit_spans(|_| Err(()));
    assert_eq!(visited, Ok(()));
    assert_eq!(FullCtx::new(&f, Some(1)).render(), Some(String::new()));
}

#[test]
fn span_choice_prefers_explicit_parent() {
    assert_eq!(choose_span(Some(4), Some(9)), Some(4));
    assert_eq!(choose_span(None, Some(9)), Some(9));
    assert_eq!(choose_span(None, None), None);
    assert_eq!(Scope::of(vec![1, 2], 3).spans, vec![1, 2, 3]);
    assert!(Scope::empty().spans.is_empty());
}

#[test]
fn full_ctx_without_registry_is_empty() {
    let fields = ();
    let f = FmtContext::new(Context::new(None), &fields);
    assert_eq!(FullCtx::new(&f, None).render(), Some(String::new()));
}

#[test]
fn span_lookup_follows_the_registry_answer() {
    assert_eq!(rvm::client::log::context::span_if_open(7, true), Some(7));
    assert_eq!(rvm::client::log::context::span_if_open(7, false), None);
}

#[test]
fn current_span_lookup_and_scope_helpers() {
    assert_eq!(current_if_open(Some(4), true), Some(4));
    assert_eq!(current_if_open(Some(4), false), None);
    assert_eq!(current_if_open(None, true), None);
    assert_eq!(scope_from(Some(3), vec![1, 2]).spans, vec![1, 2, 3]);
    assert!(scope_from(None, vec![1, 2]).spans.is_empty());
    assert_eq!(Scope::of(vec![1, 2], 3).current_first(), vec![3, 2, 1]);
}

#[test]
fn visiting_stops_at_the_first_error() {
    let seen = RefCell::new(Vec::new());
    let r: Result<(), u64> = visit_ids(&vec![5, 6, 7], |id| {
        seen.borrow_mut().push(id);
        if id == 6 { Err(id) } else { Ok(()) }
    });
    assert_eq!(r, Err(6));
    assert_eq!(*seen.borrow(), vec![5, 6]);
    let all: Result<(), u64> = visit_ids(&vec![1, 2], |_| Ok(()));
    assert_eq!(all, Ok(()));
}

#[test]
fn spans_from_registry_reads() {
    let read = vec![("a".to_string(), Some("x=1".to_string())), ("b".to_string(), Some(String::new()))];
    let spans = assemble_spans(&read).unwrap();
    assert_eq!(spans.len(), 2);
    assert_eq!((spans[0].name.as_str(), spans[0].fields.as_str()), ("a", "x=1"));
    assert_eq!((spans[1].name.as_str(), spans[1].fields.as_str()), ("b", ""));
    let missing = vec![("a".to_string(), Some("x".to_string())), ("b".to_string(), None)];
    assert!(assemble_spans(&missing).is_none());
    assert!(spans_from_path(Some(missing)).is_none());
    assert_eq!(spans_from_path(None).map(|v| v.len()), Some(0));
    assert_eq!(render_spans(None), None);
    let one = vec![CtxSpan { name: "s".to_string(), fields: String::new() }];
    assert_eq!(render_spans(Some(one)), Some("\x1b[1ms\x1b[0m: ".to_string()));
}

#[test]
fn span_path_puts_the_span_after_its_ancestors() {
    assert_eq!(span_path(None), None);
    let root = ("root".to_string(), Some("a=1".to_string()));
    let own = ("leaf".to_string(), None);
    let path = span_path(Some((vec![root.clone()], own.clone()))).unwrap();
    assert_eq!(path, vec![root, own.clone()]);
    assert_eq!(span_path(Some((Vec::new(), own.clone()))), Some(vec![own]));
}

#[test]
fn scope_is_visited_current_span_first() {
    let seen = RefCell::new(Vec::new());
    let r: Result<(), ()> = visit_scope(&Scope::of(vec![1, 2], 3), |id| {
        seen.borrow_mut().push(id);
        Ok(())
    });
    assert_eq!(r, Ok(()));
    assert_eq!(*seen.borrow(), vec![3, 2, 1]);
    let r: Result<(), u64> = visit_scope(&Scope::of(vec![1, 2], 3), |id| if id == 2 { Err(id) } else { Ok(()) });
    assert_eq!(r, Err(2));
}
