//! The messages exchanged between client and server.

use vstd::prelude::*;

pub mod client_logging;

verus! {

/// A point in time, as seconds and nanoseconds since the Unix epoch (the
/// fields a `SystemTime` is serialized with).
#[derive(Clone, Copy, Debug, PartialEq, Eq, Structural)]
pub struct Timestamp {
    pub secs_since_epoch: u64,
    pub nanos_since_epoch: u32,
}

impl Timestamp {
    /// Nanoseconds since the Unix epoch.
    pub open spec fn total_nanos(self) -> int {
        self.secs_since_epoch * 1_000_000_000 + self.nanos_since_epoch
    }
}

/// Separates two messages.
pub const MESSAGE_DELIMITER: [u8; 1] = [0x19u8];

/// What the client sends to the server.
#[derive(Clone, Copy, Debug, PartialEq, Eq, Structural)]
pub enum ClientToServerMessage {
    IWantToDisconnect,
    W,
    A,
    S,
    D,
    J,
    Spacebar,
    P,
    Ping(Timestamp),
}

/// The message with which the client announces that it leaves.
pub const CLIENT_QUIT_MESSAGE: ClientToServerMessage = ClientToServerMessage::IWantToDisconnect;

impl ClientToServerMessage {
    /// The variant's name (what `to_string` shows).
    pub fn name(&self) -> (s: &'static str)
        ensures
            *self == ClientToServerMessage::IWantToDisconnect ==> s@ == "IWantToDisconnect"@,
            *self == ClientToServerMessage::W ==> s@ == "W"@,
            *self == ClientToServerMessage::A ==> s@ == "A"@,
            *self == ClientToServerMessage::S ==> s@ == "S"@,
            *self == ClientToServerMessage::D ==> s@ == "D"@,
            *self == ClientToServerMessage::J ==> s@ == "J"@,
            *self == ClientToServerMessage::Spacebar ==> s@ == "Spacebar"@,
            *self == ClientToServerMessage::P ==> s@ == "P"@,
            *self is Ping ==> s@ == "Ping"@,
    {
        match self {
            ClientToServerMessage::IWantToDisconnect => "IWantToDisconnect",
            ClientToServerMessage::W => "W",
            ClientToServerMessage::A => "A",
            ClientToServerMessage::S => "S",
            ClientToServerMessage::D => "D",
            ClientToServerMessage::J => "J",
            ClientToServerMessage::Spacebar => "Spacebar",
            ClientToServerMessage::P => "P",
            ClientToServerMessage::Ping(_) => "Ping",
        }
    }
}

/// What the server sends to the client.
#[derive(Clone, Copy, Debug, PartialEq, Eq, Structural)]
pub enum ServerToClientMessage {
    /// Answers a ping; the time is the sender client's system time when it
    /// sent the ping.
    Pong(Timestamp),
    /// Confirms that the server saw the client's quit message.
    DisconnectAcknowledged,
}

} // verus!
