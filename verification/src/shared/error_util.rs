//! Reporting an error together with the chain of errors that caused it.
//!
//! A chain is given as the error's own message followed by the messages of
//! its source, the source's source, and so on. Reports start with the
//! deepest cause and end with the error itself.

use vstd::prelude::*;

verus! {

/// What caused an error: the source error's message followed by the
/// messages of its own sources.
#[derive(Debug)]
pub struct Cause {
    pub messages: Vec<String>,
}

/// The note appended to every message that caused the next one.
pub open spec fn cause_note() -> Seq<char> {
    "\tThis is the cause of the next error."@
}

/// The log line for one error of a chain.
pub open spec fn report_line(message: Seq<char>, is_source: bool) -> Seq<char> {
    if is_source {
        message + cause_note()
    } else {
        message
    }
}

/// The log lines for a chain, deepest cause first; every line but the one
/// for the chain's head carries the cause note, and that one too when the
/// head is itself a source.
pub open spec fn report_lines(chain: Seq<Seq<char>>, is_source: bool) -> Seq<Seq<char>>
    decreases chain.len(),
{
    if chain.len() == 0 {
        Seq::empty()
    } else {
        report_lines(chain.drop_first(), true).push(report_line(chain[0], is_source))
    }
}

/// The views of a list of strings.
pub open spec fn views(v: Seq<String>) -> Seq<Seq<char>> {
    v.map_values(|s: String| s@)
}

fn annotated(message: &String, is_source: bool) -> (line: String)
    ensures
        line@ == report_line(message@, is_source),
{
    let mut line = String::new();
    line.append(message.as_str());
    if is_source {
        line.append("\tThis is the cause of the next error.");
    }
    line
}

/// The log lines reporting `chain`, where `is_source` tells whether the
/// chain's head is itself the cause of another error.
pub fn _report_error_chain(chain: &Vec<String>, is_source: bool) -> (lines: Vec<String>)
    ensures
        views(lines@) == report_lines(views(chain@), is_source),
{
    let mut lines: Vec<String> = Vec::new();
    let mut i: usize = chain.len();
    while i > 0
        invariant
            i <= chain.len(),
            views(lines@) == report_lines(views(chain@).skip(i as int), true),
        decreases i,
    {
        i = i - 1;
        let line = annotated(&chain[i], true);
        lines.push(line);
        proof {
            let c = views(chain@);
            assert(c.skip(i as int).drop_first() == c.skip(i + 1));
            assert(c.skip(i as int)[0] == chain@[i as int]@);
            assert(views(lines@) =~= report_lines(c.skip(i + 1), true).push(
                report_line(chain@[i as int]@, true),
            ));
        }
    }
    proof {
        assert(views(chain@).skip(0) == views(chain@));
    }
    if chain.len() > 0 && !is_source {
        let ghost before = views(lines@);
        let last = lines.len() - 1;
        let head = annotated(&chain[0], false);
        let ghost old_lines = lines@;
        lines.set(last, head);
        proof {
            assert(lines@ == old_lines.update(last as int, head));
            assert(views(lines@) =~= views(old_lines).update(last as int, head@));
            let c = views(chain@);
            assert(before == report_lines(c.drop_first(), true).push(report_line(c[0], true)));
            assert(views(lines@) =~= report_lines(c.drop_first(), true).push(report_line(c[0], false)));
        }
    }
    lines
}

/// The log lines reporting an error chain whose head is the error being
/// reported.
pub fn report_error_chain(chain: &Vec<String>) -> (lines: Vec<String>)
    ensures
        views(lines@) == report_lines(views(chain@), false),
{
    _report_error_chain(chain, false)
}

/// Where a line of a printed error chain goes.
#[derive(Clone, Copy, Debug, PartialEq, Eq, Structural)]
pub enum Stream {
    Stdout,
    Stderr,
}

/// The arrow printed between an error and the error it caused.
pub open spec fn arrow() -> Seq<char> {
    "↓"@
}

/// The lines printed for a chain, deepest cause first: each error's
/// message to standard error, with an arrow to standard output between an
/// error and the one it caused.
pub open spec fn printed_lines(chain: Seq<Seq<char>>) -> Seq<(Stream, Seq<char>)>
    decreases chain.len(),
{
    if chain.len() == 0 {
        Seq::empty()
    } else if chain.len() == 1 {
        seq![(Stream::Stderr, chain[0])]
    } else {
        printed_lines(chain.drop_first()).push((Stream::Stdout, arrow())).push(
            (Stream::Stderr, chain[0]),
        )
    }
}

/// The views of printed lines.
pub open spec fn printed_views(v: Seq<(Stream, String)>) -> Seq<(Stream, Seq<char>)> {
    v.map_values(|l: (Stream, String)| (l.0, l.1@))
}

pub(crate) fn copy_string(s: &String) -> (r: String)
    ensures
        r@ == s@,
{
    let mut r = String::new();
    r.append(s.as_str());
    r
}

/// The lines to print for an error chain, and where each goes.
pub fn error_chain_printout(chain: &Vec<String>) -> (lines: Vec<(Stream, String)>)
    ensures
        printed_views(lines@) == printed_lines(views(chain@)),
{
    let mut lines: Vec<(Stream, String)> = Vec::new();
    let mut i: usize = chain.len();
    while i > 0
        invariant
            i <= chain.len(),
            printed_views(lines@) == printed_lines(views(chain@).skip(i as int)),
        decreases i,
    {
        i = i - 1;
        let ghost c = views(chain@);
        if i + 1 < chain.len() {
            lines.push((Stream::Stdout, String::from_str("↓")));
            proof {
                reveal_strlit("↓");
            }
        }
        lines.push((Stream::Stderr, copy_string(&chain[i])));
        proof {
            assert(c.skip(i as int).drop_first() == c.skip(i + 1));
            assert(c.skip(i as int)[0] == chain@[i as int]@);
            assert(printed_views(lines@) =~= printed_lines(c.skip(i as int)));
        }
    }
    proof {
        assert(views(chain@).skip(0) == views(chain@));
    }
    lines
}

/// A report has one line per error of the chain, deepest cause first:
/// line `i` is the message of the error `len - 1 - i` levels down, every
/// cause carries the cause note, and the last line is the reported error's
/// own message.
pub proof fn lemma_report_lines_shape(chain: Seq<Seq<char>>, is_source: bool)
    ensures
        report_lines(chain, is_source).len() == chain.len(),
        forall|i: int|
            0 <= i < chain.len() - 1 ==> #[trigger] report_lines(chain, is_source)[i] == chain[chain.len() - 1 - i]
                + cause_note(),
        chain.len() > 0 ==> report_lines(chain, is_source)[chain.len() - 1] == report_line(chain[0], is_source),
    decreases chain.len(),
{
    if chain.len() > 0 {
        let rest = chain.drop_first();
        lemma_report_lines_shape(rest, true);
        assert forall|i: int| 0 <= i < chain.len() - 1 implies #[trigger] report_lines(chain, is_source)[i]
            == chain[chain.len() - 1 - i] + cause_note() by {
            assert(report_lines(chain, is_source)[i] == report_lines(rest, true)[i]);
            if i < rest.len() - 1 {
                assert(report_lines(rest, true)[i] == rest[rest.len() - 1 - i] + cause_note());
            } else {
                assert(report_lines(rest, true)[i] == report_line(rest[0], true));
            }
        }
    }
}

/// A printed chain shows every error once, deepest cause first, with an
/// arrow between each cause and the error it caused: `2 * len - 1` lines,
/// errors on even lines to standard error, arrows on odd lines to standard
/// output.
pub proof fn lemma_printed_lines_shape(chain: Seq<Seq<char>>)
    requires
        chain.len() > 0,
    ensures
        printed_lines(chain).len() == 2 * chain.len() - 1,
        forall|k: int|
            0 <= k < chain.len() ==> #[trigger] printed_lines(chain)[2 * k] == (
                Stream::Stderr,
                chain[chain.len() - 1 - k],
            ),
        forall|k: int|
            0 <= k < chain.len() - 1 ==> #[trigger] printed_lines(chain)[2 * k + 1] == (
                Stream::Stdout,
                arrow(),
            ),
    decreases chain.len(),
{
    if chain.len() > 1 {
        let rest = chain.drop_first();
        lemma_printed_lines_shape(rest);
        let p = printed_lines(chain);
        let q = printed_lines(rest);
        assert(p == q.push((Stream::Stdout, arrow())).push((Stream::Stderr, chain[0])));
        assert forall|k: int| 0 <= k < chain.len() implies #[trigger] p[2 * k] == (
            Stream::Stderr,
            chain[chain.len() - 1 - k],
        ) by {
            if k < rest.len() {
                assert(p[2 * k] == q[2 * k]);
                assert(q[2 * k] == (Stream::Stderr, rest[rest.len() - 1 - k]));
            }
        }
        assert forall|k: int| 0 <= k < chain.len() - 1 implies #[trigger] p[2 * k + 1] == (
            Stream::Stdout,
            arrow(),
        ) by {
            if k < rest.len() - 1 {
                assert(p[2 * k + 1] == q[2 * k + 1]);
            }
        }
    }
}

/// The views of a cause's messages, or none.
pub open spec fn cause_views(cause: Option<Cause>) -> Seq<Seq<char>> {
    match cause {
        Some(c) => views(c.messages@),
        None => Seq::empty(),
    }
}

/// An error's chain: its own message followed by its cause's messages.
pub fn chain_with(message: &str, cause: Option<&Cause>) -> (c: Vec<String>)
    ensures
        views(c@) == seq![message@] + match cause {
            Some(cause) => views(cause.messages@),
            None => Seq::empty(),
        },
{
    let mut c: Vec<String> = Vec::new();
    c.push(String::from_str(message));
    proof {
        assert(views(c@) =~= seq![message@]);
    }
    match cause {
        Some(cause) => {
            let mut i: usize = 0;
            while i < cause.messages.len()
                invariant
                    i <= cause.messages.len(),
                    views(c@) == seq![message@] + views(cause.messages@.take(i as int)),
                decreases cause.messages.len() - i,
            {
                let m = copy_string(&cause.messages[i]);
                let ghost before = c@;
                c.push(m);
                proof {
                    assert(c@ == before.push(m));
                    assert(views(c@) =~= views(before).push(m@));
                    assert(views(cause.messages@.take(i + 1)) =~= views(
                        cause.messages@.take(i as int),
                    ).push(cause.messages@[i as int]@));
                }
                i = i + 1;
            }
            proof {
                assert(cause.messages@.take(cause.messages@.len() as int) == cause.messages@);
            }
        },
        None => {
            proof {
                assert(views(c@) =~= seq![message@] + Seq::<Seq<char>>::empty());
            }
        },
    }
    c
}

} // verus!
