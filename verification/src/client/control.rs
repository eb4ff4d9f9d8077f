//! Which key presses the client turns into messages for the server.

use vstd::prelude::*;
use crate::shared::message::ClientToServerMessage;

verus! {

/// The key codes the client tells apart.
#[derive(Clone, Copy, Debug, PartialEq, Eq, Structural)]
pub enum KeyCode {
    /// A character key.
    Char(char),
    /// The escape key.
    Esc,
    /// Any other key.
    Other,
}

/// A terminal input event, as far as the client looks at it.
#[derive(Clone, Copy, Debug, PartialEq, Eq, Structural)]
pub enum InputEvent {
    /// A key press, whatever its modifiers.
    Key(KeyCode),
    /// Any other event (mouse, resize, ...).
    Other,
}

/// The message a key event stands for, if any.
pub open spec fn spec_message_for(e: InputEvent) -> Option<ClientToServerMessage> {
    match e {
        InputEvent::Key(KeyCode::Char(c)) => {
            if c == 'w' {
                Some(ClientToServerMessage::W)
            } else if c == 'p' {
                Some(ClientToServerMessage::P)
            } else if c == 'a' {
                Some(ClientToServerMessage::A)
            } else if c == 's' {
                Some(ClientToServerMessage::S)
            } else if c == 'd' {
                Some(ClientToServerMessage::D)
            } else if c == 'j' {
                Some(ClientToServerMessage::J)
            } else if c == ' ' {
                Some(ClientToServerMessage::Spacebar)
            } else {
                None
            }
        },
        InputEvent::Key(KeyCode::Esc) => Some(ClientToServerMessage::IWantToDisconnect),
        _ => None,
    }
}

/// Maps a terminal event to the message the client sends for it: `w`, `a`,
/// `s`, `d`, `j`, `p` and space to their moves, escape to the quit message,
/// anything else to nothing.
pub fn from(e: InputEvent) -> (m: Option<ClientToServerMessage>)
    ensures
        m == spec_message_for(e),
{
    match e {
        InputEvent::Key(KeyCode::Char('w')) => Some(ClientToServerMessage::W),
        InputEvent::Key(KeyCode::Char('p')) => Some(ClientToServerMessage::P),
        InputEvent::Key(KeyCode::Char('a')) => Some(ClientToServerMessage::A),
        InputEvent::Key(KeyCode::Char('s')) => Some(ClientToServerMessage::S),
        InputEvent::Key(KeyCode::Char('d')) => Some(ClientToServerMessage::D),
        InputEvent::Key(KeyCode::Char('j')) => Some(ClientToServerMessage::J),
        InputEvent::Key(KeyCode::Esc) => Some(ClientToServerMessage::IWantToDisconnect),
        InputEvent::Key(KeyCode::Char(' ')) => Some(ClientToServerMessage::Spacebar),
        _ => None,
    }
}

/// Whether an event is a press of the escape key.
pub fn is_escape(e: InputEvent) -> (b: bool)
    ensures
        b == (e == InputEvent::Key(KeyCode::Esc)),
{
    match e {
        InputEvent::Key(KeyCode::Esc) => true,
        _ => false,
    }
}

/// Keys never produce a ping, and different events that produce a message
/// produce different messages, so every move has a single key.
pub proof fn lemma_key_mapping_unambiguous(e1: InputEvent, e2: InputEvent)
    ensures
        !(spec_message_for(e1) matches Some(ClientToServerMessage::Ping(_))),
        spec_message_for(e1) is Some && spec_message_for(e1) == spec_message_for(e2) ==> e1 == e2,
{
}

} // verus!
