//! Reading the verbosity of a tracing event.

use vstd::prelude::*;
use tracing_core::Level as TracingLevel;
use super::protocol::{Level, LevelInner};
use crate::shared::message::client_logging::Level as ViewerLevel;

verus! {

#[verifier::external_type_specification]
#[verifier::external_body]
pub struct ExTracingLevel(TracingLevel);

/// The verbosity that a `tracing_core::Level` stands for: the level is one
/// of its five constants `TRACE`, `DEBUG`, `INFO`, `WARN`, `ERROR`, and a
/// function of the level value alone.
pub uninterp spec fn tracing_level_inner(l: TracingLevel) -> LevelInner;

/// Tells the five levels of `tracing_core::Level` apart (its constants
/// `TRACE`, `DEBUG`, `INFO`, `WARN`, `ERROR`, compared with its `==`), one
/// arm each. The result is the level's verbosity, `tracing_level_inner`;
/// which one a given level is is not stated, as the level is opaque here.
#[verifier::external_body]
fn inner_of(l: &TracingLevel) -> (r: LevelInner)
    ensures
        r == tracing_level_inner(*l),
{
    match *l {
        TracingLevel::TRACE => LevelInner::Trace,
        TracingLevel::DEBUG => LevelInner::Debug,
        TracingLevel::INFO => LevelInner::Info,
        TracingLevel::WARN => LevelInner::Warn,
        TracingLevel::ERROR => LevelInner::Error,
    }
}

impl Level {
    /// The level of a tracing event.
    pub fn from_tracing(l: &TracingLevel) -> (r: Level)
        ensures
            r.0 == tracing_level_inner(*l),
    {
        Level::new(inner_of(l))
    }
}

/// The viewer's level for a verbosity.
pub open spec fn spec_viewer_level(inner: LevelInner) -> ViewerLevel {
    match inner {
        LevelInner::Trace => ViewerLevel::Trace,
        LevelInner::Debug => ViewerLevel::Debug,
        LevelInner::Info => ViewerLevel::Info,
        LevelInner::Warn => ViewerLevel::Warn,
        LevelInner::Error => ViewerLevel::Error,
    }
}

/// The viewer's level for a verbosity.
pub fn viewer_level(inner: LevelInner) -> (r: ViewerLevel)
    ensures
        r == spec_viewer_level(inner),
{
    match inner {
        LevelInner::Trace => ViewerLevel::Trace,
        LevelInner::Debug => ViewerLevel::Debug,
        LevelInner::Info => ViewerLevel::Info,
        LevelInner::Warn => ViewerLevel::Warn,
        LevelInner::Error => ViewerLevel::Error,
    }
}

impl ViewerLevel {
    /// The viewer's level of a tracing event.
    pub fn from_tracing(l: &TracingLevel) -> (r: ViewerLevel)
        ensures
            r == spec_viewer_level(tracing_level_inner(*l)),
    {
        viewer_level(inner_of(l))
    }
}

/// The client's levels and the viewer's levels are in the same order.
pub proof fn lemma_levels_agree(inner: LevelInner)
    ensures
        crate::shared::message::client_logging::spec_index(spec_viewer_level(inner))
            == super::protocol::spec_level_index(inner),
{
}

} // verus!
