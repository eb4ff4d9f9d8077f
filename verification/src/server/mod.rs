//! The game server: its errors and how it answers a client's messages.

pub mod error;
pub mod custom_errors;
pub mod session;
