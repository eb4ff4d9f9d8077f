//! Errors of the client's tasks.

use vstd::prelude::*;
use crate::shared::error_util::{views, Cause, chain_with};

verus! {

/// What can go wrong in the client's connection, drawing and control tasks.
#[derive(Debug)]
pub enum Error {
    Connection(Cause),
    TerminalInitialization(Cause),
    DrawFrame(Cause),
    Control(Cause),
    EventListeningTaskIncomplete(Cause),
    MessageSendingTaskIncomplete(Cause),
    DrawTaskIncomplete(Cause),
}

/// The result type of these errors.
pub type Result<T> = std::result::Result<T, Error>;

/// The message of an error (without its sources).
pub open spec fn spec_message(e: Error) -> Seq<char> {
    match e {
        Error::Connection(..) => "Failed to establish connection to server"@,
        Error::TerminalInitialization(..) => "Terminal initialization failed"@,
        Error::DrawFrame(..) => "Failed to draw frame"@,
        Error::Control(..) => "Failed to read control event"@,
        Error::EventListeningTaskIncomplete(..) => "Control event listening task failed to complete"@,
        Error::MessageSendingTaskIncomplete(..) => "Message sending task failed to complete"@,
        Error::DrawTaskIncomplete(..) => "Drawing sending task failed to complete"@,
    }
}

/// The cause an error carries, if its kind has one.
pub open spec fn spec_cause(e: Error) -> Option<Cause> {
    match e {
        Error::Connection(c) => Some(c),
        Error::TerminalInitialization(c) => Some(c),
        Error::DrawFrame(c) => Some(c),
        Error::Control(c) => Some(c),
        Error::EventListeningTaskIncomplete(c) => Some(c),
        Error::MessageSendingTaskIncomplete(c) => Some(c),
        Error::DrawTaskIncomplete(c) => Some(c),
    }
}

impl Error {
    /// The error's message.
    pub fn message(&self) -> (s: &'static str)
        ensures
            s@ == spec_message(*self),
    {
        match self {
            Error::Connection(..) => "Failed to establish connection to server",
            Error::TerminalInitialization(..) => "Terminal initialization failed",
            Error::DrawFrame(..) => "Failed to draw frame",
            Error::Control(..) => "Failed to read control event",
            Error::EventListeningTaskIncomplete(..) => "Control event listening task failed to complete",
            Error::MessageSendingTaskIncomplete(..) => "Message sending task failed to complete",
            Error::DrawTaskIncomplete(..) => "Drawing sending task failed to complete",
        }
    }

    /// The cause this error carries, if its kind has one.
    pub fn cause(&self) -> (c: Option<&Cause>)
        ensures
            match c {
                Some(c) => spec_cause(*self) == Some(*c),
                None => spec_cause(*self) is None,
            },
    {
        match self {
            Error::Connection(c) => Some(c),
            Error::TerminalInitialization(c) => Some(c),
            Error::DrawFrame(c) => Some(c),
            Error::Control(c) => Some(c),
            Error::EventListeningTaskIncomplete(c) => Some(c),
            Error::MessageSendingTaskIncomplete(c) => Some(c),
            Error::DrawTaskIncomplete(c) => Some(c),
        }
    }

    /// The error's message followed by the messages of its sources.
    pub fn chain(&self) -> (c: Vec<String>)
        ensures
            views(c@) == seq![spec_message(*self)] + match spec_cause(*self) {
                Some(cause) => views(cause.messages@),
                None => Seq::empty(),
            },
    {
        let c = chain_with(self.message(), self.cause());
        c
    }
}

} // verus!
