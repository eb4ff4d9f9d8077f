//! Turning a pong into a round-trip time.
//!
//! The client pings once a second: it sends its clock, sleeps a second and
//! then reads the pong that echoes the clock back. The round trip is the
//! time that passed since the ping, less the second it slept.

use vstd::prelude::*;
use crate::shared::message::Timestamp;
use crate::text::{decimal, push_decimal};
use super::error::PingError;

verus! {

/// Nanoseconds from the echoed time `sent` to one second before `now`.
pub open spec fn spec_delay_nanos(now: Timestamp, sent: Timestamp) -> int {
    now.total_nanos() - 1_000_000_000 - sent.total_nanos()
}

/// What a pong comes to: a round trip in milliseconds, a round trip too
/// long for a `u16`, or an echoed time that lies ahead by some nanoseconds.
#[derive(Clone, Copy, Debug, PartialEq, Eq, Structural)]
pub enum PingKind {
    Millis(u16),
    Overflow,
    Future(u128),
}

/// What a computed ping result comes to.
pub open spec fn kind_of(r: Result<u16, PingError>) -> PingKind {
    match r {
        Ok(m) => PingKind::Millis(m),
        Err(PingError::GamerLag(_)) => PingKind::Overflow,
        Err(PingError::TimeTraveler { ahead_nanos, .. }) => PingKind::Future(ahead_nanos),
    }
}

/// The round trip for a pong echoing `sent`, read at `now`: whole
/// milliseconds from `sent` to one second before `now`.
pub open spec fn spec_ping(now: Timestamp, sent: Timestamp) -> PingKind {
    let d = spec_delay_nanos(now, sent);
    if d < 0 {
        PingKind::Future((-d) as u128)
    } else if d / 1_000_000 > u16::MAX {
        PingKind::Overflow
    } else {
        PingKind::Millis((d / 1_000_000) as u16)
    }
}

#[verifier::external_type_specification]
#[verifier::external_body]
pub struct ExSystemTimeError(std::time::SystemTimeError);

#[verifier::external_type_specification]
#[verifier::external_body]
pub struct ExSystemTime(std::time::SystemTime);

/// Calls `std::time::SystemTime::checked_add` on the Unix epoch with a
/// duration of `secs` seconds and `nanos` nanoseconds: the time that far
/// after the epoch, or `None` when the platform cannot represent it. std does
/// not document that range, so whether it is `Some` is not stated.
#[verifier::external_body]
fn time_after_epoch(secs: u64, nanos: u32) -> Option<std::time::SystemTime>
    requires
        nanos < 1_000_000_000,
{
    std::time::SystemTime::UNIX_EPOCH.checked_add(std::time::Duration::new(secs, nanos))
}

/// Calls `std::time::SystemTime::duration_since` on the Unix epoch with
/// `later` as the supposedly earlier time and returns its error, if any:
/// std documents an error, holding how far ahead `later` lies, exactly when
/// `later` is after the epoch. That is not stated here, as `later` is opaque.
#[verifier::external_body]
fn error_since_epoch(later: &std::time::SystemTime) -> Option<std::time::SystemTimeError> {
    std::time::SystemTime::UNIX_EPOCH.duration_since(*later).err()
}

/// std's clock error for an earlier time that lies `secs` seconds and
/// `nanos` nanoseconds ahead, when the platform can represent that time.
fn clock_error(secs: u64, nanos: u32) -> (e: Option<std::time::SystemTimeError>)
    requires
        nanos < 1_000_000_000,
{
    match time_after_epoch(secs, nanos) {
        Some(later) => error_since_epoch(&later),
        None => None,
    }
}

/// Computes the round trip for a pong echoing `sent`, read at `now`. A
/// round trip too long for a `u16` carries the conversion error; an echoed
/// time ahead of the local time less one second carries how far ahead it is
/// and std's clock error for that distance.
pub fn compute_ping(now: Timestamp, sent: Timestamp) -> (r: Result<u16, PingError>)
    ensures
        kind_of(r) == spec_ping(now, sent),
{
    let a: u128 = now.secs_since_epoch as u128 * 1_000_000_000 + now.nanos_since_epoch as u128;
    let b: u128 = sent.secs_since_epoch as u128 * 1_000_000_000 + sent.nanos_since_epoch as u128
        + 1_000_000_000;
    if a >= b {
        let millis: u128 = (a - b) / 1_000_000;
        match u16::try_from(millis) {
            Ok(m) => Ok(m),
            Err(e) => Err(PingError::GamerLag(e)),
        }
    } else {
        let ahead: u128 = b - a;
        let secs: u128 = ahead / 1_000_000_000;
        let source = if secs <= 0xffff_ffff_ffff_ffffu128 {
            clock_error(secs as u64, (ahead % 1_000_000_000) as u32)
        } else {
            None
        };
        Err(PingError::TimeTraveler { ahead_nanos: ahead, source })
    }
}

/// The line the client shows for a round trip.
pub fn ping_line(millis: u16) -> (s: String)
    ensures
        s@ == "ping: "@ + decimal(millis as nat),
{
    let mut s = String::new();
    s.append("ping: ");
    push_decimal(&mut s, millis as u64);
    s
}

/// A pong read later never yields a shorter round trip (and a round trip
/// too long stays too long), and a pong that echoes exactly the local time
/// less one second yields zero.
pub proof fn lemma_ping_monotone(now1: Timestamp, now2: Timestamp, sent: Timestamp)
    ensures
        now1.total_nanos() <= now2.total_nanos() && spec_ping(now1, sent) is Millis && spec_ping(now2, sent) is Millis
            ==> spec_ping(now1, sent)->Millis_0 <= spec_ping(now2, sent)->Millis_0,
        now1.total_nanos() <= now2.total_nanos() && spec_ping(now1, sent) == PingKind::Overflow
            ==> spec_ping(now2, sent) == PingKind::Overflow,
        spec_delay_nanos(now1, sent) == 0 ==> spec_ping(now1, sent) == PingKind::Millis(0),
{
    let d1 = spec_delay_nanos(now1, sent);
    let d2 = spec_delay_nanos(now2, sent);
    if now1.total_nanos() <= now2.total_nanos() && d1 >= 0 {
        assert(d1 / 1_000_000 <= d2 / 1_000_000) by (nonlinear_arith)
            requires
                0 <= d1 <= d2,
        ;
    }
}

} // verus!
