//! The server's errors.

use vstd::prelude::*;
use crate::shared::error_util::{views, Cause, chain_with};

verus! {

/// Everything that can go wrong while serving a client.
#[derive(Debug)]
pub enum Error {
    DeserializationError(Cause),
    AbruptClientLeave(Cause),
    SendPong(Cause),
    Bind(Cause),
    Accept(Cause),
}

/// The result type of these errors.
pub type Result<T> = std::result::Result<T, Error>;

/// The message of an error (without its sources).
pub open spec fn spec_message(e: Error) -> Seq<char> {
    match e {
        Error::DeserializationError(..) => "Can not deserialize client's message as CBOR"@,
        Error::AbruptClientLeave(..) => "The client leaves abruptly"@,
        Error::SendPong(..) => "Failed to send pong"@,
        Error::Bind(..) => "Failed to bind and start server"@,
        Error::Accept(..) => "Failed to accept a connection"@,
    }
}

/// The cause an error carries, if its kind has one.
pub open spec fn spec_cause(e: Error) -> Option<Cause> {
    match e {
        Error::DeserializationError(c) => Some(c),
        Error::AbruptClientLeave(c) => Some(c),
        Error::SendPong(c) => Some(c),
        Error::Bind(c) => Some(c),
        Error::Accept(c) => Some(c),
    }
}

impl Error {
    /// The error's message.
    pub fn message(&self) -> (s: &'static str)
        ensures
            s@ == spec_message(*self),
    {
        match self {
            Error::DeserializationError(..) => "Can not deserialize client's message as CBOR",
            Error::AbruptClientLeave(..) => "The client leaves abruptly",
            Error::SendPong(..) => "Failed to send pong",
            Error::Bind(..) => "Failed to bind and start server",
            Error::Accept(..) => "Failed to accept a connection",
        }
    }

    /// The cause this error carries, if its kind has one.
    pub fn cause(&self) -> (c: Option<&Cause>)
        ensures
            match c {
                Some(c) => spec_cause(*self) == Some(*c),
                None => spec_cause(*self) is None,
            },
    {
        match self {
            Error::DeserializationError(c) => Some(c),
            Error::AbruptClientLeave(c) => Some(c),
            Error::SendPong(c) => Some(c),
            Error::Bind(c) => Some(c),
            Error::Accept(c) => Some(c),
        }
    }

    /// The error's message followed by the messages of its sources.
    pub fn chain(&self) -> (c: Vec<String>)
        ensures
            views(c@) == seq![spec_message(*self)] + match spec_cause(*self) {
                Some(cause) => views(cause.messages@),
                None => Seq::empty(),
            },
    {
        let c = chain_with(self.message(), self.cause());
        c
    }
}

/// The successful result.
pub fn ok() -> (r: Result<()>)
    ensures
        r is Ok,
{
    Ok(())
}

} // verus!
