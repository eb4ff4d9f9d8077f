//! What the server does with each message of a connected client, and what
//! the client does with each message of the server.

use vstd::prelude::*;
use crate::shared::message::{ClientToServerMessage, ServerToClientMessage, Timestamp};

verus! {

/// The server's answer to one client message.
#[derive(Clone, Copy, Debug, PartialEq, Eq, Structural)]
pub enum Reply {
    /// Nothing to send; keep reading.
    Nothing,
    /// Send this message and keep reading.
    Send(ServerToClientMessage),
    /// Send this message and stop serving the client.
    SendAndClose(ServerToClientMessage),
}

/// The server's answer to a client message.
pub open spec fn spec_respond(received: ClientToServerMessage) -> Reply {
    match received {
        ClientToServerMessage::IWantToDisconnect => Reply::SendAndClose(
            ServerToClientMessage::DisconnectAcknowledged,
        ),
        ClientToServerMessage::Ping(time) => Reply::Send(ServerToClientMessage::Pong(time)),
        _ => Reply::Nothing,
    }
}

/// The time a server message hands to the client's ping task.
pub open spec fn spec_pong_time(received: ServerToClientMessage) -> Option<Timestamp> {
    match received {
        ServerToClientMessage::Pong(time) => Some(time),
        ServerToClientMessage::DisconnectAcknowledged => None,
    }
}

/// The server's answer to a client message: the quit message is
/// acknowledged and ends the session, a ping is answered with a pong echoing
/// its time, moves need no answer.
pub fn respond(received: &ClientToServerMessage) -> (r: Reply)
    ensures
        r == spec_respond(*received),
{
    match received {
        ClientToServerMessage::IWantToDisconnect => Reply::SendAndClose(
            ServerToClientMessage::DisconnectAcknowledged,
        ),
        ClientToServerMessage::W => Reply::Nothing,
        ClientToServerMessage::A => Reply::Nothing,
        ClientToServerMessage::S => Reply::Nothing,
        ClientToServerMessage::D => Reply::Nothing,
        ClientToServerMessage::J => Reply::Nothing,
        ClientToServerMessage::Spacebar => Reply::Nothing,
        ClientToServerMessage::P => Reply::Nothing,
        ClientToServerMessage::Ping(time) => Reply::Send(ServerToClientMessage::Pong(*time)),
    }
}

/// The time a server message hands to the client's ping task: a pong's
/// echoed time; the acknowledgement of a quit carries none.
pub fn pong_time(received: &ServerToClientMessage) -> (t: Option<Timestamp>)
    ensures
        t == spec_pong_time(*received),
{
    match received {
        ServerToClientMessage::Pong(time) => Some(*time),
        ServerToClientMessage::DisconnectAcknowledged => None,
    }
}

/// A ping makes the round trip unchanged: the server answers it with a
/// pong, and the client reads back exactly the time it sent.
pub proof fn lemma_ping_round_trip(t: Timestamp)
    ensures
        spec_respond(ClientToServerMessage::Ping(t)) matches Reply::Send(m) && spec_pong_time(m)
            == Some(t),
{
}

/// Only the quit message ends a session.
pub proof fn lemma_only_quit_closes(m: ClientToServerMessage)
    ensures
        (spec_respond(m) is SendAndClose) <==> m == ClientToServerMessage::IWantToDisconnect,
{
}

} // verus!
