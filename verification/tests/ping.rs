use rvm::client::ping::{compute_ping, ping_line};
use rvm::client::error::PingError;
use rvm::shared::message::Timestamp;
use rvm::text::to_decimal;

fn t(secs: u64, nanos: u32) -> Timestamp {
    Timestamp { secs_since_epoch: secs, nanos_since_epoch: nanos }
}

#[test]
fn ping_subtracts_the_second_of_sleep() {
    assert_eq!(compute_ping(t(10, 0), t(8, 500_000_000)).unwrap(), 500);
    assert_eq!(compute_ping(t(10, 0), t(9, 0)).unwrap(), 0);
    assert_eq!(compute_ping(t(10, 999_999), t(9, 0)).unwrap(), 0);
    assert_eq!(compute_ping(t(10, 1_000_000), t(9, 0)).unwrap(), 1);
}

#[test]
fn ping_upper_boundary() {
    // 65535 ms is the largest round trip that fits
    assert_eq!(compute_ping(t(100, 535_999_999), t(34, 0)).unwrap(), 65535);
    assert!(matches!(compute_ping(t(100, 536_000_000), t(34, 0)), Err(PingError::GamerLag(_))));
}

#[test]
fn pong_from_the_future() {
    match compute_ping(t(10, 0), t(9, 500_000_000)) {
        Err(PingError::TimeTraveler { ahead_nanos, source: Some(e) }) => {
            assert_eq!(ahead_nanos, 500_000_000);
            assert_eq!(e.duration(), std::time::Duration::from_millis(500));
        }
        other => panic!("unexpected {:?}", other),
    }
    assert!(matches!(
        compute_ping(t(0, 0), t(0, 0)),
        Err(PingError::TimeTraveler { ahead_nanos: 1_000_000_000, source: Some(_) })
    ));
}

#[test]
fn ping_error_messages() {
    assert_eq!(PingError::GamerLag(u8::try_from(300u16).unwrap_err()).message(), "ping value overflow");
    assert_eq!(
        PingError::TimeTraveler { ahead_nanos: 1, source: None }.message(),
        "Received PONG from server with future time"
    );
}

#[test]
fn ping_line_shows_milliseconds() {
    assert_eq!(ping_line(0), "ping: 0");
    assert_eq!(ping_line(123), "ping: 123");
    assert_eq!(ping_line(65535), "ping: 65535");
}

#[test]
fn decimal_rendering() {
    assert_eq!(to_decimal(0), "0");
    assert_eq!(to_decimal(7), "7");
    assert_eq!(to_decimal(10), "10");
    assert_eq!(to_decimal(u64::MAX), u64::MAX.to_string());
}

#[test]
fn later_pong_never_shortens_the_round_trip() {
    let sent = t(50, 0);
    let mut last = 0u16;
    for ms in [1000u64, 1001, 1500, 2999, 10_000, 66_535] {
        let now = t(50 + ms / 1000, ((ms % 1000) * 1_000_000) as u32);
        let p = compute_ping(now, sent).unwrap();
        assert!(p >= last);
        last = p;
    }
    assert!(matches!(compute_ping(t(50 + 66, 536_000_000), sent), Err(PingError::GamerLag(_))));
    assert!(matches!(compute_ping(t(50 + 1000, 0), sent), Err(PingError::GamerLag(_))));
}
