//! Errors of reading client messages as delimited text.

use vstd::prelude::*;
use crate::shared::error_util::{views, Cause, chain_with};

verus! {

/// What can go wrong reading a client's delimited text messages.
#[derive(Debug)]
pub enum Error {
    AbruptClientLeave,
    BadMessageContent(Cause),
    BadMessageFormat(Cause),
}

/// The result type of these errors.
pub type Result<T> = std::result::Result<T, Error>;

/// The message of an error (without its sources).
pub open spec fn spec_message(e: Error) -> Seq<char> {
    match e {
        Error::AbruptClientLeave => "The client left abruptly"@,
        Error::BadMessageContent(..) => "The message from client is not parsable as utf-8 string"@,
        Error::BadMessageFormat(..) => "The decoder is not able to recognize the message format"@,
    }
}

/// The cause an error carries, if its kind has one.
pub open spec fn spec_cause(e: Error) -> Option<Cause> {
    match e {
        Error::AbruptClientLeave => None,
        Error::BadMessageContent(c) => Some(c),
        Error::BadMessageFormat(c) => Some(c),
    }
}

impl Error {
    /// The error's message.
    pub fn message(&self) -> (s: &'static str)
        ensures
            s@ == spec_message(*self),
    {
        match self {
            Error::AbruptClientLeave => "The client left abruptly",
            Error::BadMessageContent(..) => "The message from client is not parsable as utf-8 string",
            Error::BadMessageFormat(..) => "The decoder is not able to recognize the message format",
        }
    }

    /// The cause this error carries, if its kind has one.
    pub fn cause(&self) -> (c: Option<&Cause>)
        ensures
            match c {
                Some(c) => spec_cause(*self) == Some(*c),
                None => spec_cause(*self) is None,
            },
    {
        match self {
            Error::AbruptClientLeave => None,
            Error::BadMessageContent(c) => Some(c),
            Error::BadMessageFormat(c) => Some(c),
        }
    }

    /// The error's message followed by the messages of its sources.
    pub fn chain(&self) -> (c: Vec<String>)
        ensures
            views(c@) == seq![spec_message(*self)] + match spec_cause(*self) {
                Some(cause) => views(cause.messages@),
                None => Seq::empty(),
            },
    {
        let c = chain_with(self.message(), self.cause());
        c
    }
}

} // verus!
