//! The client's errors.

use vstd::prelude::*;
use crate::shared::error_util::{views, report_lines, _report_error_chain, Cause, chain_with};
use crate::shared::task::{join_failure_of, tokio_join_failure, JoinFailure};

verus! {

/// Why a ping could not be turned into a round-trip time.
#[derive(Debug)]
pub enum PingError {
    /// The round trip in milliseconds does not fit in a `u16`; the source is
    /// the failed conversion.
    GamerLag(std::num::TryFromIntError),
    /// The echoed time lies after the local time less one second, by this
    /// many nanoseconds; the source is the clock's error for that distance,
    /// when the platform can represent it.
    TimeTraveler { ahead_nanos: u128, source: Option<std::time::SystemTimeError> },
}

/// The message of a ping error (without its source).
pub open spec fn spec_ping_message(e: PingError) -> Seq<char> {
    match e {
        PingError::GamerLag(_) => "ping value overflow"@,
        PingError::TimeTraveler { .. } => "Received PONG from server with future time"@,
    }
}

impl PingError {
    /// The error's message.
    pub fn message(&self) -> (s: &'static str)
        ensures
            s@ == spec_ping_message(*self),
    {
        match self {
            PingError::GamerLag(_) => "ping value overflow",
            PingError::TimeTraveler { .. } => "Received PONG from server with future time",
        }
    }

    /// The error's message followed by its source's message.
    pub fn chain(&self) -> (c: Vec<String>)
        ensures
            c@.len() >= 1,
            c@[0]@ == spec_ping_message(*self),
            *self matches PingError::GamerLag(e) ==> c@.len() == 2
                && vstd::string::to_string_from_display_ensures::<std::num::TryFromIntError>(&e, c@[1]),
            *self matches PingError::TimeTraveler { source: Some(e), .. } ==> c@.len() == 2
                && vstd::string::to_string_from_display_ensures::<std::time::SystemTimeError>(&e, c@[1]),
            *self matches PingError::TimeTraveler { source: None, .. } ==> c@.len() == 1,
    {
        let mut c: Vec<String> = Vec::new();
        c.push(String::from_str(self.message()));
        match self {
            PingError::GamerLag(e) => {
                c.push(e.to_string());
            },
            PingError::TimeTraveler { source: Some(e), .. } => {
                c.push(e.to_string());
            },
            PingError::TimeTraveler { source: None, .. } => {},
        }
        c
    }
}

/// Everything that can go wrong in the client.
#[derive(Debug)]
pub enum Error {
    Connection(Cause),
    TcpStreamShutdown(Cause),
    SendMessage(Cause),
    TerminalInitialization(Cause),
    DrawFrame(Cause),
    DecodeFromServer(Cause),
    ControlRead(Cause),
    ControlSend(Cause),
    DebugSend(Cause),
    ClearTerminal(Cause),
    MainTaskJoin(JoinError),
    ServerMessageDecode(Cause),
    FormatTimestamp(Cause),
    FormatThreadName(Cause),
    FormatFullContext(Cause),
    FormatTarget(Cause),
    FormatFields(Cause),
}

/// The client's result type.
pub type Result<T> = std::result::Result<T, Error>;

/// The message of an error (without its sources).
pub open spec fn spec_message(e: Error) -> Seq<char> {
    match e {
        Error::Connection(..) => "Failed to establish connection to server"@,
        Error::TcpStreamShutdown(..) => "Failed to shutdown the TCP stream"@,
        Error::SendMessage(..) => "Failed to send message to server"@,
        Error::TerminalInitialization(..) => "Terminal initialization failed"@,
        Error::DrawFrame(..) => "Failed to draw frame"@,
        Error::DecodeFromServer(..) => "Failed to decode server message"@,
        Error::ControlRead(..) => "Failed to read control event"@,
        Error::ControlSend(..) => "Failed to send control message"@,
        Error::DebugSend(..) => "Failed to send debug message"@,
        Error::ClearTerminal(..) => "Failed to clear the terminal"@,
        Error::MainTaskJoin(..) => "Main task failed to join"@,
        Error::ServerMessageDecode(..) => "Failed to decode server message as cbor"@,
        Error::FormatTimestamp(..) => "Holy Spirit failed to format timestamp inside event"@,
        Error::FormatThreadName(..) => "Holy Spirit failed to format thread name"@,
        Error::FormatFullContext(..) => "Holy Spirit failed to format full context"@,
        Error::FormatTarget(..) => "Holy Spirit failed to format target"@,
        Error::FormatFields(..) => "Holy Spirit failed to format fields"@,
    }
}

/// The cause an error carries; the task error has none of this kind.
pub open spec fn spec_cause(e: Error) -> Option<Cause> {
    match e {
        Error::Connection(c) => Some(c),
        Error::TcpStreamShutdown(c) => Some(c),
        Error::SendMessage(c) => Some(c),
        Error::TerminalInitialization(c) => Some(c),
        Error::DrawFrame(c) => Some(c),
        Error::DecodeFromServer(c) => Some(c),
        Error::ControlRead(c) => Some(c),
        Error::ControlSend(c) => Some(c),
        Error::DebugSend(c) => Some(c),
        Error::ClearTerminal(c) => Some(c),
        Error::ServerMessageDecode(c) => Some(c),
        Error::FormatTimestamp(c) => Some(c),
        Error::FormatThreadName(c) => Some(c),
        Error::FormatFullContext(c) => Some(c),
        Error::FormatTarget(c) => Some(c),
        Error::FormatFields(c) => Some(c),
        Error::MainTaskJoin(..) => None,
    }
}

/// The message for a task of the client that failed to join: whether it
/// panicked or was cancelled, it is reported as panicked.
pub fn join_task_message(failure: JoinFailure) -> (s: &'static str)
    ensures
        s@ == "Task panicked"@,
{
    match failure {
        JoinFailure::Panicked => "Task panicked",
        JoinFailure::Cancelled => "Task panicked",
    }
}

/// A task of the client that failed to join.
#[derive(Debug)]
pub struct JoinError {
    pub wrapped: tokio::task::JoinError,
    /// How the task failed, as tokio reports it.
    pub failure: JoinFailure,
}

impl JoinError {
    /// Wraps tokio's error, reading how the task failed.
    pub fn from(wrapped: tokio::task::JoinError) -> (e: JoinError)
        ensures
            e.wrapped == wrapped,
            e.failure == tokio_join_failure(wrapped),
    {
        let failure = join_failure_of(&wrapped);
        JoinError { wrapped, failure }
    }

    /// The error's message.
    pub fn message(&self) -> (s: &'static str)
        ensures
            s@ == "Task panicked"@,
    {
        join_task_message(self.failure)
    }
}

impl Error {
    /// The error's message.
    pub fn message(&self) -> (s: &'static str)
        ensures
            s@ == spec_message(*self),
    {
        match self {
            Error::Connection(..) => "Failed to establish connection to server",
            Error::TcpStreamShutdown(..) => "Failed to shutdown the TCP stream",
            Error::SendMessage(..) => "Failed to send message to server",
            Error::TerminalInitialization(..) => "Terminal initialization failed",
            Error::DrawFrame(..) => "Failed to draw frame",
            Error::DecodeFromServer(..) => "Failed to decode server message",
            Error::ControlRead(..) => "Failed to read control event",
            Error::ControlSend(..) => "Failed to send control message",
            Error::DebugSend(..) => "Failed to send debug message",
            Error::ClearTerminal(..) => "Failed to clear the terminal",
            Error::MainTaskJoin(..) => "Main task failed to join",
            Error::ServerMessageDecode(..) => "Failed to decode server message as cbor",
            Error::FormatTimestamp(..) => "Holy Spirit failed to format timestamp inside event",
            Error::FormatThreadName(..) => "Holy Spirit failed to format thread name",
            Error::FormatFullContext(..) => "Holy Spirit failed to format full context",
            Error::FormatTarget(..) => "Holy Spirit failed to format target",
            Error::FormatFields(..) => "Holy Spirit failed to format fields",
        }
    }

    /// The cause this error carries (every kind but the task error).
    pub fn cause(&self) -> (c: &Cause)
        requires
            !(*self is MainTaskJoin),
        ensures
            spec_cause(*self) == Some(*c),
    {
        match self {
            Error::Connection(c) => c,
            Error::TcpStreamShutdown(c) => c,
            Error::SendMessage(c) => c,
            Error::TerminalInitialization(c) => c,
            Error::DrawFrame(c) => c,
            Error::DecodeFromServer(c) => c,
            Error::ControlRead(c) => c,
            Error::ControlSend(c) => c,
            Error::DebugSend(c) => c,
            Error::ClearTerminal(c) => c,
            Error::ServerMessageDecode(c) => c,
            Error::FormatTimestamp(c) => c,
            Error::FormatThreadName(c) => c,
            Error::FormatFullContext(c) => c,
            Error::FormatTarget(c) => c,
            Error::FormatFields(c) => c,
            Error::MainTaskJoin(..) => vstd::pervasive::unreached(),
        }
    }

    /// The error's message followed by the messages of its sources.
    pub fn chain(&self) -> (c: Vec<String>)
        ensures
            c@.len() >= 1,
            c@[0]@ == spec_message(*self),
            match *self {
                Error::MainTaskJoin(j) => c@.len() == 2 && c@[1]@ == "Task panicked"@,
                _ => true,
            },
            spec_cause(*self) matches Some(cause) ==> views(c@) == seq![spec_message(*self)] + views(
                cause.messages@,
            ),
    {
        match self {
            Error::MainTaskJoin(j) => {
                let mut c: Vec<String> = Vec::new();
                c.push(String::from_str(self.message()));
                c.push(String::from_str(j.message()));
                c
            },
            _ => {
                let cause = self.cause();
                let c = chain_with(self.message(), Some(cause));
                proof {
                    assert(views(c@).len() == c@.len());
                    assert(views(c@).len() >= 1);
                    assert(views(c@)[0] == c@[0]@);
                }
                c
            },
        }
    }
}

/// The successful result.
pub fn ok() -> (r: Result<()>)
    ensures
        r is Ok,
{
    Ok(())
}

/// Turns the outcome of a spawned task into the task's own result: a task
/// that ran hands back what it returned; one that failed to join becomes
/// the task error.
pub fn from_spawned_task_result<T>(
    task_result: std::result::Result<Result<T>, tokio::task::JoinError>,
) -> (r: Result<T>)
    ensures
        match task_result {
            Ok(inner) => r == inner,
            Err(e) => r matches Err(Error::MainTaskJoin(j)) && j.wrapped == e
                && j.failure == tokio_join_failure(e),
        },
{
    match task_result {
        Ok(r) => r,
        Err(e) => Err(Error::MainTaskJoin(JoinError::from(e))),
    }
}

/// The log lines reporting an error of the client, given its chain (its
/// message followed by its sources' messages): the deepest cause first, each
/// cause marked as the cause of the next error.
pub fn report_error_chain(chain: &Vec<String>) -> (lines: Vec<String>)
    ensures
        views(lines@) == report_lines(views(chain@), false),
{
    _report_error_chain(chain, false)
}

} // verus!
