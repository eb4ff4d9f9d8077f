//! The client's tracing subscriber: span bookkeeping, event formatting and
//! the protocol to the log process.

pub mod registry;
pub mod protocol;
pub mod format;
pub mod context;
pub mod tracing_level;
