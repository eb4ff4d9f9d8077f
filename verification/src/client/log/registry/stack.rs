use vstd::prelude::*;

verus! {

/// One entry of a [`SpanStack`]: a span id (the non-zero value of a
/// `tracing_core::span::Id`) and whether the same id was already on the
/// stack below this entry when it was pushed.
#[derive(Clone, Copy, Debug)]
pub struct ContextId {
    pub id: u64,
    pub duplicate: bool,
}

/// Tracks which spans are currently executing on a thread.
///
/// Entering a span that is already entered pushes a *duplicate* entry,
/// which never counts as the current span.
#[derive(Debug)]
pub struct SpanStack {
    stack: Vec<ContextId>,
}

/// The ids of a sequence of entries.
pub open spec fn ids_of(s: Seq<(u64, bool)>) -> Seq<u64> {
    s.map_values(|e: (u64, bool)| e.0)
}

/// Every entry is marked duplicate exactly when its id occurs below it.
pub open spec fn stack_wf(s: Seq<(u64, bool)>) -> bool {
    forall|i: int|
        0 <= i < s.len() ==> (#[trigger] s[i]).1 == ids_of(s.take(i)).contains(s[i].0)
}

/// The id of the topmost non-duplicate entry, if any.
pub open spec fn spec_current(s: Seq<(u64, bool)>) -> Option<u64>
    decreases s.len(),
{
    if s.len() == 0 {
        None
    } else if !s.last().1 {
        Some(s.last().0)
    } else {
        spec_current(s.drop_last())
    }
}

/// Index of the topmost entry whose id is `id`, if any.
pub open spec fn spec_last_index_of(s: Seq<(u64, bool)>, id: u64) -> Option<int>
    decreases s.len(),
{
    if s.len() == 0 {
        None
    } else if s.last().0 == id {
        Some(s.len() - 1)
    } else {
        spec_last_index_of(s.drop_last(), id)
    }
}

/// The (id, duplicate) pairs of a sequence of entries.
pub open spec fn entries(v: Seq<ContextId>) -> Seq<(u64, bool)> {
    v.map_values(|e: ContextId| (e.id, e.duplicate))
}

impl View for SpanStack {
    type V = Seq<(u64, bool)>;

    closed spec fn view(&self) -> Seq<(u64, bool)> {
        entries(self.stack@)
    }
}

impl SpanStack {
    /// The stack's entries keep their duplicate flags consistent. Every
    /// stack keeps this: it holds of a new stack and each change keeps it.
    #[verifier::type_invariant]
    pub open spec fn wf(&self) -> bool {
        stack_wf(self@)
    }

    /// An empty stack.
    pub fn new() -> (s: SpanStack)
        ensures
            s@ == Seq::<(u64, bool)>::empty(),
            s.wf(),
    {
        SpanStack { stack: Vec::new() }
    }

    /// Pushes `id`; returns `true` when `id` was not yet on the stack, that is
    /// when this push makes `id` the current span.
    pub fn push(&mut self, id: u64) -> (fresh: bool)
        ensures
            fresh == !ids_of(old(self)@).contains(id),
            final(self)@ == old(self)@.push((id, !fresh)),
            final(self).wf(),
    {
        proof {
            use_type_invariant(&*self);
        }
        let mut duplicate = false;
        let mut i: usize = 0;
        while i < self.stack.len()
            invariant
                i <= self.stack.len(),
                duplicate == ids_of(self@.take(i as int)).contains(id),
            decreases self.stack.len() - i,
        {
            let ghost prev = ids_of(self@.take(i as int));
            proof {
                assert(ids_of(self@.take(i + 1)) == prev.push(self@[i as int].0));
                assert(self@[i as int].0 == self.stack@[i as int].id);
            }
            if self.stack[i].id == id {
                duplicate = true;
                proof {
                    let cur = ids_of(self@.take(i + 1));
                    assert(cur[cur.len() - 1] == id);
                }
            } else {
                proof {
                    let cur = ids_of(self@.take(i + 1));
                    if cur.contains(id) {
                        let k = choose|k: int| 0 <= k < cur.len() && #[trigger] cur[k] == id;
                        assert(prev[k] == id);
                    }
                    if prev.contains(id) {
                        let k = choose|k: int| 0 <= k < prev.len() && #[trigger] prev[k] == id;
                        assert(cur[k] == id);
                    }
                }
            }
            i = i + 1;
        }
        proof {
            assert(self@.take(i as int) == self@);
        }
        let ghost before = self@;
        let mut stack: Vec<ContextId> = Vec::new();
        std::mem::swap(&mut stack, &mut self.stack);
        stack.push(ContextId { id, duplicate });
        proof {
            let after = entries(stack@);
            assert(after == before.push((id, duplicate)));
            assert forall|k: int| 0 <= k < after.len() implies (#[trigger] after[k]).1 == ids_of(
                after.take(k),
            ).contains(after[k].0) by {
                if k < before.len() {
                    assert(after.take(k) == before.take(k));
                } else {
                    assert(after.take(k) == before);
                }
            }
        }
        self.stack = stack;
        !duplicate
    }

    /// Pops the topmost entry for `expected_id`; returns `true` when that
    /// entry was not a duplicate, that is when the span is no longer entered.
    pub fn pop(&mut self, expected_id: u64) -> (exited: bool)
        ensures
            final(self).wf(),
            match spec_last_index_of(old(self)@, expected_id) {
                Some(idx) => final(self)@ == old(self)@.remove(idx) && exited == !old(self)@[idx].1,
                None => final(self)@ == old(self)@ && !exited,
            },
    {
        proof {
            use_type_invariant(&*self);
        }
        let mut i: usize = self.stack.len();
        while i > 0
            invariant
                i <= self.stack.len(),
                self@ == old(self)@,
                stack_wf(self@),
                forall|k: int| i <= k < self@.len() ==> (#[trigger] self@[k]).0 != expected_id,
            decreases i,
        {
            proof {
                assert(self@[i - 1].0 == self.stack@[i - 1].id);
            }
            if self.stack[i - 1].id == expected_id {
                let ghost before = self@;
                proof {
                    lemma_last_index_at(before, i - 1, expected_id);
                    lemma_remove_topmost_keeps_wf(before, i - 1);
                }
                proof {
                    assert(before[i - 1].1 == self.stack@[i - 1].duplicate);
                }
                let mut stack: Vec<ContextId> = Vec::new();
                std::mem::swap(&mut stack, &mut self.stack);
                let removed = stack.remove(i - 1);
                proof {
                    assert(entries(stack@) == before.remove(i - 1));
                }
                self.stack = stack;
                return !removed.duplicate;
            }
            i = i - 1;
        }
        proof {
            lemma_last_index_prefix(self@, 0, expected_id);
            assert(self@.take(0) =~= Seq::<(u64, bool)>::empty());
        }
        false
    }

    /// The id of the topmost entry that is not a duplicate.
    pub fn current(&self) -> (cur: Option<u64>)
        ensures
            cur == spec_current(self@),
    {
        let mut i: usize = self.stack.len();
        while i > 0
            invariant
                i <= self.stack.len(),
                forall|k: int| i <= k < self@.len() ==> (#[trigger] self@[k]).1,
            decreases i,
        {
            proof {
                assert(self@[i - 1] == (self.stack@[i - 1].id, self.stack@[i - 1].duplicate));
            }
            if !self.stack[i - 1].duplicate {
                proof {
                    lemma_current_prefix(self@, i as int);
                    assert(self@.take(i as int).drop_last() == self@.take(i - 1));
                }
                return Some(self.stack[i - 1].id);
            }
            i = i - 1;
        }
        proof {
            lemma_current_prefix(self@, 0);
            assert(self@.take(0) =~= Seq::<(u64, bool)>::empty());
        }
        None
    }
}


/// Removing the topmost occurrence of an id keeps the duplicate flags
/// consistent.
proof fn lemma_remove_topmost_keeps_wf(s: Seq<(u64, bool)>, idx: int)
    requires
        stack_wf(s),
        0 <= idx < s.len(),
        forall|k: int| idx < k < s.len() ==> (#[trigger] s[k]).0 != s[idx].0,
    ensures
        stack_wf(s.remove(idx)),
{
    let r = s.remove(idx);
    assert forall|k: int| 0 <= k < r.len() implies (#[trigger] r[k]).1 == ids_of(r.take(k)).contains(
        r[k].0,
    ) by {
        if k < idx {
            assert(r.take(k) == s.take(k));
            assert(r[k] == s[k]);
        } else {
            assert(r[k] == s[k + 1]);
            let y = s[k + 1].0;
            assert(y != s[idx].0);
            let a = ids_of(r.take(k));
            let b = ids_of(s.take(k + 1));
            assert(a.len() + 1 == b.len());
            assert forall|j: int| 0 <= j < a.len() implies #[trigger] a[j] == (if j < idx {
                b[j]
            } else {
                b[j + 1]
            }) by {}
            if a.contains(y) {
                let j = choose|j: int| 0 <= j < a.len() && #[trigger] a[j] == y;
                if j < idx {
                    assert(b[j] == y);
                } else {
                    assert(b[j + 1] == y);
                }
            }
            if b.contains(y) {
                let j = choose|j: int| 0 <= j < b.len() && #[trigger] b[j] == y;
                assert(j != idx);
                if j < idx {
                    assert(a[j] == y);
                } else {
                    assert(a[j - 1] == y);
                }
            }
        }
    }
}

/// Looking for the topmost occurrence in a prefix whose remainder does not
/// hold the id gives the same answer as looking in the whole sequence.
proof fn lemma_last_index_prefix(s: Seq<(u64, bool)>, i: int, id: u64)
    requires
        0 <= i <= s.len(),
        forall|k: int| i <= k < s.len() ==> (#[trigger] s[k]).0 != id,
    ensures
        spec_last_index_of(s, id) == spec_last_index_of(s.take(i), id),
    decreases s.len() - i,
{
    if i < s.len() {
        lemma_last_index_prefix(s.drop_last(), i, id);
        assert(s.drop_last().take(i) == s.take(i));
    } else {
        assert(s.take(i) == s);
    }
}

/// The topmost non-duplicate entry of a prefix whose remainder holds only
/// duplicates is the topmost non-duplicate entry of the whole sequence.
proof fn lemma_current_prefix(s: Seq<(u64, bool)>, i: int)
    requires
        0 <= i <= s.len(),
        forall|k: int| i <= k < s.len() ==> (#[trigger] s[k]).1,
    ensures
        spec_current(s) == spec_current(s.take(i)),
    decreases s.len() - i,
{
    if i < s.len() {
        lemma_current_prefix(s.drop_last(), i);
        assert(s.drop_last().take(i) == s.take(i));
    } else {
        assert(s.take(i) == s);
    }
}

/// The topmost occurrence of `id` in `s` is at `idx` when later entries hold
/// other ids.
proof fn lemma_last_index_at(s: Seq<(u64, bool)>, idx: int, id: u64)
    requires
        0 <= idx < s.len(),
        s[idx].0 == id,
        forall|k: int| idx < k < s.len() ==> (#[trigger] s[k]).0 != id,
    ensures
        spec_last_index_of(s, id) == Some(idx),
{
    lemma_last_index_prefix(s, idx + 1, id);
    assert(s.take(idx + 1).drop_last() == s.take(idx));
}

/// The topmost occurrence found by `spec_last_index_of` really holds the id,
/// and no entry above it does.
pub proof fn lemma_last_index_of_spec(s: Seq<(u64, bool)>, id: u64)
    ensures
        match spec_last_index_of(s, id) {
            Some(idx) => 0 <= idx < s.len() && s[idx].0 == id && forall|k: int|
                idx < k < s.len() ==> (#[trigger] s[k]).0 != id,
            None => forall|k: int| 0 <= k < s.len() ==> (#[trigger] s[k]).0 != id,
        },
    decreases s.len(),
{
    if s.len() > 0 {
        lemma_last_index_of_spec(s.drop_last(), id);
        if s.last().0 != id {
            assert forall|k: int| 0 <= k < s.len() - 1 implies (#[trigger] s[k]).0 == s.drop_last()[k].0 by {}
        }
    }
}


/// Popping a span right after pushing it gives the stack back as it was,
/// and the push and the pop report the same answer (both `true` exactly when
/// the span was not entered before).
pub proof fn lemma_pop_undoes_push(s: Seq<(u64, bool)>, id: u64)
    requires
        stack_wf(s),
    ensures
        spec_last_index_of(s.push((id, ids_of(s).contains(id))), id) == Some(s.len() as int),
        s.push((id, ids_of(s).contains(id))).remove(s.len() as int) == s,
        !s.push((id, ids_of(s).contains(id)))[s.len() as int].1 == !ids_of(s).contains(id),
{
    let t = s.push((id, ids_of(s).contains(id)));
    assert(t.drop_last() == s);
    assert(t.remove(s.len() as int) =~= s);
}

/// Entering a span that is not on the stack makes it the current span.
pub proof fn lemma_fresh_push_becomes_current(s: Seq<(u64, bool)>, id: u64)
    requires
        !ids_of(s).contains(id),
    ensures
        spec_current(s.push((id, ids_of(s).contains(id)))) == Some(id),
{
}

/// Entering a span that is already on the stack leaves the current span
/// unchanged.
pub proof fn lemma_duplicate_push_keeps_current(s: Seq<(u64, bool)>, id: u64)
    requires
        ids_of(s).contains(id),
    ensures
        spec_current(s.push((id, ids_of(s).contains(id)))) == spec_current(s),
{
    assert(s.push((id, true)).drop_last() == s);
}

/// A consistent stack has a current span exactly when it is not empty.
pub proof fn lemma_current_exists_iff_nonempty(s: Seq<(u64, bool)>)
    requires
        stack_wf(s),
    ensures
        spec_current(s) is Some <==> s.len() > 0,
    decreases s.len(),
{
    if s.len() > 0 {
        let d = s.drop_last();
        assert forall|i: int| 0 <= i < d.len() implies (#[trigger] d[i]).1 == ids_of(d.take(i)).contains(
            d[i].0,
        ) by {
            assert(d.take(i) == s.take(i));
            assert(d[i] == s[i]);
        }
        lemma_current_exists_iff_nonempty(d);
        if s.len() == 1 {
            assert(s.take(0) =~= Seq::<(u64, bool)>::empty());
            assert(s[0].1 == ids_of(s.take(0)).contains(s[0].0));
        }
    }
}

} // verus!
