//! The game client: its key mapping, ping measurement, screen state, errors
//! and tracing subscriber.

pub mod log;
pub mod error;
pub mod custom_error;
pub mod control;
pub mod ping;
pub mod screen;
