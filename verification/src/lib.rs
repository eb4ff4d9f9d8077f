//! Verified core of a small networked terminal game: the wire messages
//! exchanged by client and server, the client's key mapping and ping
//! computation, the custom tracing subscriber's formatting rules and span
//! bookkeeping, the log viewer's buffers, and the error reporting helpers.

pub mod text;
pub mod shared;
pub mod client;
pub mod server;
pub mod champ;
