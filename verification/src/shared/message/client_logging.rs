//! The messages the log viewer receives from a client's log process.

use vstd::prelude::*;

verus! {

/// The verbosity of a logged event; the viewer shows one pane per level.
#[derive(Clone, Copy, Debug, PartialEq, Eq, Structural)]
pub enum Level {
    /// Very low priority, often extremely verbose, information.
    Trace,
    /// Lower priority information.
    Debug,
    /// Useful information.
    Info,
    /// Hazardous situations.
    Warn,
    /// Very serious errors.
    Error,
}

/// The position of a level in the order trace, debug, info, warn, error.
pub open spec fn spec_index(l: Level) -> nat {
    match l {
        Level::Trace => 0,
        Level::Debug => 1,
        Level::Info => 2,
        Level::Warn => 3,
        Level::Error => 4,
    }
}

impl Level {
    /// The level's discriminant: its position in the order trace, debug,
    /// info, warn, error.
    pub fn index(&self) -> (i: usize)
        ensures
            i == spec_index(*self),
            i < 5,
    {
        match self {
            Level::Trace => 0,
            Level::Debug => 1,
            Level::Info => 2,
            Level::Warn => 3,
            Level::Error => 4,
        }
    }
}

/// A formatted event as it arrives at the viewer.
#[derive(Debug)]
pub struct MessageToLogProcess {
    pub level: Level,
    pub formatted_event: String,
}

} // verus!
