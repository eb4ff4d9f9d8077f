use rvm::shared::message::{
    ClientToServerMessage, ServerToClientMessage, Timestamp, CLIENT_QUIT_MESSAGE, MESSAGE_DELIMITER,
};
use rvm::server::session::{respond, pong_time, Reply};

fn t(secs: u64, nanos: u32) -> Timestamp {
    Timestamp { secs_since_epoch: secs, nanos_since_epoch: nanos }
}

#[test]
fn variant_names() {
    assert_eq!(ClientToServerMessage::IWantToDisconnect.name(), "IWantToDisconnect");
    assert_eq!(ClientToServerMessage::W.name(), "W");
    assert_eq!(ClientToServerMessage::A.name(), "A");
    assert_eq!(ClientToServerMessage::S.name(), "S");
    assert_eq!(ClientToServerMessage::D.name(), "D");
    assert_eq!(ClientToServerMessage::J.name(), "J");
    assert_eq!(ClientToServerMessage::Spacebar.name(), "Spacebar");
    assert_eq!(ClientToServerMessage::P.name(), "P");
    assert_eq!(ClientToServerMessage::Ping(t(1, 2)).name(), "Ping");
}

#[test]
fn quit_message_and_delimiter() {
    assert_eq!(CLIENT_QUIT_MESSAGE, ClientToServerMessage::IWantToDisconnect);
    assert_eq!(MESSAGE_DELIMITER, [0x19u8]);
}

#[test]
fn server_acknowledges_quit_and_closes() {
    assert_eq!(
        respond(&ClientToServerMessage::IWantToDisconnect),
        Reply::SendAndClose(ServerToClientMessage::DisconnectAcknowledged)
    );
}

#[test]
fn server_answers_ping_with_pong() {
    let time = t(1_600_000_000, 123);
    assert_eq!(respond(&ClientToServerMessage::Ping(time)), Reply::Send(ServerToClientMessage::Pong(time)));
}

#[test]
fn server_ignores_moves() {
    for m in [
        ClientToServerMessage::W,
        ClientToServerMessage::A,
        ClientToServerMessage::S,
        ClientToServerMessage::D,
        ClientToServerMessage::J,
        ClientToServerMessage::Spacebar,
        ClientToServerMessage::P,
    ] {
        assert_eq!(respond(&m), Reply::Nothing);
    }
}

#[test]
fn ping_round_trip_returns_sent_time() {
    let time = t(42, 999_999_999);
    match respond(&ClientToServerMessage::Ping(time)) {
        Reply::Send(m) => assert_eq!(pong_time(&m), Some(time)),
        other => panic!("unexpected reply {:?}", other),
    }
    assert_eq!(pong_time(&ServerToClientMessage::DisconnectAcknowledged), None);
}
