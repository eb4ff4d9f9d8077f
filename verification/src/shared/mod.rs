//! Types and helpers shared by the client, the server and the log viewer.

pub mod message;
pub mod error_fill;
pub mod error_util;
pub mod task;
