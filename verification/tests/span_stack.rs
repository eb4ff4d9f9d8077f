use rvm::client::log::registry::stack::SpanStack;

#[test]
fn push_reports_first_entry_only() {
    let mut s = SpanStack::new();
    assert!(s.push(1));
    assert!(s.push(2));
    assert!(!s.push(1));
    assert_eq!(s.current(), Some(2));
}

#[test]
fn duplicate_push_keeps_current() {
    let mut s = SpanStack::new();
    s.push(7);
    s.push(9);
    assert_eq!(s.current(), Some(9));
    assert!(!s.push(7));
    assert_eq!(s.current(), Some(9));
}

#[test]
fn pop_undoes_push() {
    let mut s = SpanStack::new();
    s.push(3);
    let fresh = s.push(4);
    assert!(fresh);
    assert_eq!(s.pop(4), fresh);
    assert_eq!(s.current(), Some(3));
    let dup = s.push(3);
    assert!(!dup);
    assert_eq!(s.pop(3), dup);
    assert_eq!(s.current(), Some(3));
}

#[test]
fn pop_removes_topmost_occurrence() {
    let mut s = SpanStack::new();
    s.push(5);
    s.push(6);
    s.push(5);
    // the topmost 5 is a duplicate: popping it leaves 6 current
    assert!(!s.pop(5));
    assert_eq!(s.current(), Some(6));
    assert!(s.pop(6));
    assert_eq!(s.current(), Some(5));
    assert!(s.pop(5));
    assert_eq!(s.current(), None);
}

#[test]
fn pop_of_unknown_span_changes_nothing() {
    let mut s = SpanStack::new();
    assert!(!s.pop(1));
    s.push(2);
    assert!(!s.pop(1));
    assert_eq!(s.current(), Some(2));
}

#[test]
fn empty_stack_has_no_current_span() {
    let s = SpanStack::new();
    assert_eq!(s.current(), None);
}
