//! How the client's subscriber lays out an event line: a dimmed timestamp,
//! the padded thread name, the chain of entered spans in bold, the target
//! and the event's fields.

use vstd::prelude::*;
use crate::text::{pad_left, right_align};
use super::protocol::{Level, MessageToLogProcess};

verus! {

/// The escape sequence that resets all styles (`ansi_term`'s suffix of any
/// non-plain style).
pub open spec fn ansi_reset() -> Seq<char> {
    seq!['\x1b', '[', '0', 'm']
}

/// `s` painted bold: prefix `ESC[1m`, the text, then the reset sequence.
pub open spec fn bold_painted(s: Seq<char>) -> Seq<char> {
    seq!['\x1b', '[', '1', 'm'] + s + ansi_reset()
}

/// `s` painted dimmed: prefix `ESC[2m`, the text, then the reset sequence.
pub open spec fn dimmed_painted(s: Seq<char>) -> Seq<char> {
    seq!['\x1b', '[', '2', 'm'] + s + ansi_reset()
}

/// Calls `ansi_term::Style::new().bold().paint(s)` and renders it. In
/// ansi_term 0.12 a painted string displays as the style's prefix, the text
/// and the style's suffix; for the bold style these are `ESC[1m` and `ESC[0m`.
#[verifier::external_body]
fn paint_bold(s: &str) -> (r: String)
    ensures
        r@ == bold_painted(s@),
{
    ansi_term::Style::new().bold().paint(s).to_string()
}

/// Calls `ansi_term::Style::new().dimmed().paint(s)` and renders it: the
/// dimmed style's prefix `ESC[2m`, the text, and the suffix `ESC[0m`.
#[verifier::external_body]
fn paint_dimmed(s: &str) -> (r: String)
    ensures
        r@ == dimmed_painted(s@),
{
    ansi_term::Style::new().dimmed().paint(s).to_string()
}

/// The formatted fields of a span, as the subscriber stores them.
#[derive(Debug)]
pub struct FormattedFields<E> {
    /// Which field formatter produced the fields.
    pub format_event: core::marker::PhantomData<E>,
    /// The formatted fields of a span.
    pub fields: String,
}

impl<E> View for FormattedFields<E> {
    type V = Seq<char>;

    open spec fn view(&self) -> Seq<char> {
        self.fields@
    }
}

impl<E> FormattedFields<E> {
    /// Wraps already formatted fields.
    pub fn new(fields: String) -> (f: Self)
        ensures
            f.fields == fields,
            f@ == fields@,
    {
        FormattedFields { fields, format_event: core::marker::PhantomData }
    }

    /// The fields as text (what displaying them writes).
    pub fn to_string(&self) -> (s: String)
        ensures
            s@ == self.fields@,
    {
        self.fields.clone()
    }

    /// The fields, to read them in place.
    pub fn as_str(&self) -> (s: &str)
        ensures
            s@ == self.fields@,
    {
        self.fields.as_str()
    }

    /// Whether no field was recorded.
    pub fn is_empty(&self) -> (b: bool)
        ensures
            b == (self@.len() == 0),
    {
        self.fields.as_str().is_empty()
    }
}

impl<E> core::ops::Deref for FormattedFields<E> {
    type Target = String;

    fn deref(&self) -> (r: &String)
        ensures
            r == &self.fields,
    {
        &self.fields
    }
}

/// A span on the path from the root to the span an event happened in: its
/// name and its formatted fields.
#[derive(Debug)]
pub struct CtxSpan {
    pub name: String,
    pub fields: String,
}

/// What one span contributes to the context part of an event line.
pub open spec fn ctx_entry(name: Seq<char>, fields: Seq<char>) -> Seq<char> {
    bold_painted(name) + (if fields.len() > 0 {
        bold_painted(seq!['{']) + fields + bold_painted(seq!['}'])
    } else {
        Seq::empty()
    }) + seq![':']
}

/// The entries of a sequence of spans (name, fields), root first.
pub open spec fn ctx_entries(spans: Seq<(Seq<char>, Seq<char>)>) -> Seq<char>
    decreases spans.len(),
{
    if spans.len() == 0 {
        Seq::empty()
    } else {
        ctx_entries(spans.drop_last()) + ctx_entry(spans.last().0, spans.last().1)
    }
}

/// The context part of an event line: every span's entry, then a space when
/// there was any span.
pub open spec fn full_ctx(spans: Seq<(Seq<char>, Seq<char>)>) -> Seq<char> {
    ctx_entries(spans) + (if spans.len() > 0 {
        seq![' ']
    } else {
        Seq::empty()
    })
}

/// The (name, fields) pairs of a list of spans.
pub open spec fn span_views(spans: Seq<CtxSpan>) -> Seq<(Seq<char>, Seq<char>)> {
    spans.map_values(|s: CtxSpan| (s.name@, s.fields@))
}

/// Renders the context part of an event line from the spans on the path
/// from the root to the event's span.
pub fn format_full_ctx(spans: &Vec<CtxSpan>) -> (r: String)
    ensures
        r@ == full_ctx(span_views(spans@)),
{
    let mut out = String::new();
    let mut i: usize = 0;
    while i < spans.len()
        invariant
            i <= spans.len(),
            out@ == ctx_entries(span_views(spans@).take(i as int)),
        decreases spans.len() - i,
    {
        let span = &spans[i];
        let name = paint_bold(span.name.as_str());
        out.append(name.as_str());
        let ghost before_fields = out@;
        if !span.fields.as_str().is_empty() {
            let open = paint_bold("{");
            let close = paint_bold("}");
            proof {
                reveal_strlit("{");
                reveal_strlit("}");
            }
            out.append(open.as_str());
            out.append(span.fields.as_str());
            out.append(close.as_str());
        }
        out.append(":");
        proof {
            reveal_strlit(":");
            let sv = span_views(spans@);
            assert(sv.take(i + 1).drop_last() == sv.take(i as int));
            assert(sv[i as int] == (span.name@, span.fields@));
            assert(out@ =~= ctx_entries(sv.take(i as int)) + ctx_entry(span.name@, span.fields@));
        }
        i = i + 1;
    }
    proof {
        assert(span_views(spans@).take(spans.len() as int) == span_views(spans@));
    }
    if spans.len() > 0 {
        out.append(" ");
        proof {
            reveal_strlit(" ");
        }
    }
    proof {
        assert(out@ =~= full_ctx(span_views(spans@)));
    }
    out
}

/// Renders the event's timestamp, dimmed and followed by a space.
pub fn format_timestamp(time: &str) -> (r: String)
    ensures
        r@ == dimmed_painted(time@) + seq![' '],
{
    let mut r = paint_dimmed(time);
    r.append(" ");
    proof {
        reveal_strlit(" ");
    }
    r
}


/// A thread name, right-aligned to the longest thread name seen so far.
pub struct FmtThreadName<'a> {
    pub name: &'a str,
}

/// What to do with the shared record of the longest thread name, given the
/// value last read from it.
#[derive(Debug, Clone, Copy, PartialEq, Eq, Structural)]
pub enum WidthStep {
    /// The name fits: pad it to this width.
    Pad(usize),
    /// The name is longer: try to replace `expected` by `new` in the record
    /// (compare-and-exchange); on success pad to `expected`, on failure
    /// decide again with the value found there.
    Raise { expected: usize, new: usize },
}

impl<'a> FmtThreadName<'a> {
    /// Wraps a thread name.
    pub fn new(name: &'a str) -> (t: Self)
        ensures
            t.name == name,
    {
        FmtThreadName { name }
    }

    /// The next step of keeping the longest-name record up to date, where
    /// lengths are counted in bytes.
    pub fn width_step(&self, observed: usize) -> (step: WidthStep)
        ensures
            self.name.len() > observed ==> step == (WidthStep::Raise {
                expected: observed,
                new: self.name.len() as usize,
            }),
            self.name.len() <= observed ==> step == WidthStep::Pad(observed),
    {
        let len = self.name.len();
        if len > observed {
            WidthStep::Raise { expected: observed, new: len }
        } else {
            WidthStep::Pad(observed)
        }
    }

    /// The name right-aligned in a field of `width` characters.
    pub fn padded(&self, width: usize) -> (r: String)
        ensures
            r@ == pad_left(self.name@, width as nat),
    {
        right_align(self.name, width)
    }
}

/// Everything an event line is made of, as the subscriber gathers it.
pub struct EventParts {
    /// The event's level.
    pub level: Level,
    /// The current time, already formatted.
    pub time: String,
    /// The current thread's name, if it has one, and the width to pad it to.
    pub thread: Option<(String, usize)>,
    /// The spans from the root to the span the event belongs to.
    pub spans: Vec<CtxSpan>,
    /// The event's target.
    pub target: String,
    /// The event's fields, already formatted.
    pub fields: String,
}

/// The thread part of an event line.
pub open spec fn thread_part(thread: Option<(String, usize)>) -> Seq<char> {
    match thread {
        Some((name, width)) => pad_left(name@, width as nat) + seq![' '],
        None => Seq::empty(),
    }
}

/// The full line for an event: timestamp, thread, span context, target,
/// fields and a line break.
pub open spec fn event_line(p: EventParts) -> Seq<char> {
    dimmed_painted(p.time@) + seq![' '] + thread_part(p.thread) + full_ctx(span_views(p.spans@))
        + p.target@ + seq![':', ' '] + p.fields@ + seq!['\n']
}

/// Formats events for the log process.
pub struct HolySpirit;

impl HolySpirit {
    /// Lays out one event and tags it with its level.
    pub fn format_event(&self, parts: &EventParts) -> (m: MessageToLogProcess)
        ensures
            m.level == parts.level,
            m.formatted_event@ == event_line(*parts),
    {
        let mut line = format_timestamp(parts.time.as_str());
        match &parts.thread {
            Some((name, width)) => {
                let padded = right_align(name.as_str(), *width);
                line.append(padded.as_str());
                line.append(" ");
            },
            None => {},
        }
        let ctx = format_full_ctx(&parts.spans);
        line.append(ctx.as_str());
        line.append(parts.target.as_str());
        line.append(": ");
        line.append(parts.fields.as_str());
        line.append("\n");
        proof {
            reveal_strlit(" ");
            reveal_strlit(": ");
            reveal_strlit("\n");
            assert(line@ =~= event_line(*parts));
        }
        MessageToLogProcess::new(parts.level, line)
    }
}

/// Padding never cuts a name: the padded name is exactly as wide as the
/// wider of the name and the field, and ends with the name.
pub proof fn lemma_padding_keeps_name(s: Seq<char>, width: nat)
    ensures
        pad_left(s, width).len() == if s.len() < width { width } else { s.len() },
        pad_left(s, width).subrange(pad_left(s, width).len() - s.len(), pad_left(s, width).len() as int)
            == s,
{
    if s.len() < width {
        let p = pad_left(s, width);
        assert(p.subrange(p.len() - s.len(), p.len() as int) =~= s);
    } else {
        assert(s.subrange(0, s.len() as int) =~= s);
    }
}

/// Without a span the context part of an event line is empty; with spans it
/// ends with a space.
pub proof fn lemma_full_ctx_ends(spans: Seq<(Seq<char>, Seq<char>)>)
    ensures
        spans.len() == 0 ==> full_ctx(spans) == Seq::<char>::empty(),
        spans.len() > 0 ==> full_ctx(spans).last() == ' ',
{
    if spans.len() == 0 {
        assert(full_ctx(spans) =~= Seq::<char>::empty());
    }
}

/// The width a thread name is padded to is the record read last: when the
/// name fits it pads to that record; when it is longer the record is raised
/// to the name's length and the name is padded to the old record, which for
/// a name of one byte per character is the same as padding it to its own
/// length. Either way the name comes out padded to the longer of the record
/// and the name, and the record never shrinks.
pub proof fn lemma_thread_width(s: Seq<char>, observed: nat)
    ensures
        pad_left(s, observed) == pad_left(s, if observed >= s.len() {
            observed
        } else {
            s.len()
        }),
{
}

/// A raise only ever grows the record of the longest thread name.
pub proof fn lemma_width_step_raises(step: WidthStep, observed: usize, len: usize)
    requires
        step == (if len > observed {
            WidthStep::Raise { expected: observed, new: len }
        } else {
            WidthStep::Pad(observed)
        }),
    ensures
        step matches WidthStep::Raise { expected, new } ==> expected == observed && new > expected,
        step matches WidthStep::Pad(w) ==> w == observed && w >= len,
{
}

} // verus!
