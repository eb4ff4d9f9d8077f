//! The messages the client's subscriber hands to the log process.

use vstd::prelude::*;

verus! {

/// The verbosity of a span or event.
#[derive(Clone, Copy, Debug, PartialEq, Eq, Structural)]
pub enum LevelInner {
    /// Very low priority, often extremely verbose, information.
    Trace,
    /// Lower priority information.
    Debug,
    /// Useful information.
    Info,
    /// Hazardous situations.
    Warn,
    /// Very serious errors.
    Error,
}

/// Describes the level of verbosity of a span or event.
#[derive(Clone, Copy, Debug, PartialEq, Eq, Structural)]
pub struct Level(pub LevelInner);

/// The position of a level in the order trace, debug, info, warn, error.
pub open spec fn spec_level_index(l: LevelInner) -> nat {
    match l {
        LevelInner::Trace => 0,
        LevelInner::Debug => 1,
        LevelInner::Info => 2,
        LevelInner::Warn => 3,
        LevelInner::Error => 4,
    }
}

/// The five-character label an event line shows for a level.
pub open spec fn spec_label(l: LevelInner) -> Seq<char> {
    match l {
        LevelInner::Trace => "TRACE"@,
        LevelInner::Debug => "DEBUG"@,
        LevelInner::Info => " INFO"@,
        LevelInner::Warn => " WARN"@,
        LevelInner::Error => "ERROR"@,
    }
}

impl Level {
    /// The level with the given verbosity.
    pub fn new(inner: LevelInner) -> (l: Level)
        ensures
            l.0 == inner,
    {
        Level(inner)
    }

    /// The position of this level in the order trace, debug, info, warn,
    /// error (the enum's discriminant in the wire format).
    pub fn index(&self) -> (i: usize)
        ensures
            i == spec_level_index(self.0),
    {
        match self.0 {
            LevelInner::Trace => 0,
            LevelInner::Debug => 1,
            LevelInner::Info => 2,
            LevelInner::Warn => 3,
            LevelInner::Error => 4,
        }
    }

    /// The five-character label an event line shows for this level.
    pub fn label(&self) -> (s: &'static str)
        ensures
            s@ == spec_label(self.0),
    {
        match self.0 {
            LevelInner::Trace => "TRACE",
            LevelInner::Debug => "DEBUG",
            LevelInner::Info => " INFO",
            LevelInner::Warn => " WARN",
            LevelInner::Error => "ERROR",
        }
    }
}

/// A formatted event on its way to the log process.
#[derive(Debug)]
pub struct MessageToLogProcess {
    pub level: Level,
    pub formatted_event: String,
}

impl MessageToLogProcess {
    /// The message for an event of `level` formatted as `formatted_event`.
    pub fn new(level: Level, formatted_event: String) -> (m: MessageToLogProcess)
        ensures
            m.level == level,
            m.formatted_event@ == formatted_event@,
    {
        MessageToLogProcess { level, formatted_event }
    }
}

/// Every level's label is five characters wide, so labels line up.
pub proof fn lemma_labels_line_up(l: LevelInner)
    ensures
        spec_label(l).len() == 5,
{
    reveal_strlit("TRACE");
    reveal_strlit("DEBUG");
    reveal_strlit(" INFO");
    reveal_strlit(" WARN");
    reveal_strlit("ERROR");
}

/// Level indices follow the order of verbosity and tell levels apart.
pub proof fn lemma_level_index_injective(a: LevelInner, b: LevelInner)
    ensures
        spec_level_index(a) == spec_level_index(b) <==> a == b,
        spec_level_index(a) < 5,
{
}

} // verus!
