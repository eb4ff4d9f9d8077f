use rvm::server::error::Error as ServerError;
use rvm::server::custom_errors::Error as TextError;
use rvm::client::custom_error::Error as TaskError;
use rvm::client::error::{
    from_spawned_task_result, join_task_message, ok, report_error_chain, Error, JoinError,
};
use rvm::shared::error_util::{error_chain_printout, Cause, Stream, _report_error_chain};
use rvm::shared::error_fill::{join_failure_message, JoinError as SharedJoinError};
use rvm::shared::task::JoinFailure;
use rvm::shared::error_util::chain_with;
use rvm::client::error::PingError;

fn cause(msgs: &[&str]) -> Cause {
    Cause { messages: msgs.iter().map(|s| s.to_string()).collect() }
}

fn chain(msgs: &[&str]) -> Vec<String> {
    msgs.iter().map(|s| s.to_string()).collect()
}

fn join_errors() -> (tokio::task::JoinError, tokio::task::JoinError) {
    let rt = tokio::runtime::Runtime::new().unwrap();
    rt.block_on(async {
        let panicked = tokio::spawn(async {
            panic!("task failure on purpose");
        })
        .await
        .unwrap_err();
        let h = tokio::spawn(async {
            tokio::time::sleep(std::time::Duration::from_secs(60)).await;
        });
        h.abort();
        let cancelled = h.await.unwrap_err();
        (panicked, cancelled)
    })
}

#[test]
fn client_error_messages() {
    assert_eq!(Error::Connection(cause(&[])).message(), "Failed to establish connection to server");
    assert_eq!(Error::DrawFrame(cause(&[])).message(), "Failed to draw frame");
    assert_eq!(Error::ControlSend(cause(&[])).message(), "Failed to send control message");
    assert_eq!(
        Error::FormatTimestamp(cause(&[])).message(),
        "Holy Spirit failed to format timestamp inside event"
    );
    assert_eq!(Error::FormatFields(cause(&[])).message(), "Holy Spirit failed to format fields");
}

#[test]
fn client_error_chain_lists_sources() {
    let e = Error::SendMessage(cause(&["broken pipe", "os error 32"]));
    assert_eq!(e.chain(), chain(&["Failed to send message to server", "broken pipe", "os error 32"]));
}

#[test]
fn report_lines_start_with_deepest_cause() {
    let lines = report_error_chain(&chain(&["top", "middle", "bottom"]));
    assert_eq!(
        lines,
        chain(&[
            "bottom\tThis is the cause of the next error.",
            "middle\tThis is the cause of the next error.",
            "top",
        ])
    );
    assert_eq!(report_error_chain(&chain(&["only"])), chain(&["only"]));
    assert!(report_error_chain(&vec![]).is_empty());
}

#[test]
fn report_of_a_source_marks_its_head_too() {
    let lines = _report_error_chain(&chain(&["a", "b"]), true);
    assert_eq!(
        lines,
        chain(&["b\tThis is the cause of the next error.", "a\tThis is the cause of the next error."])
    );
}

#[test]
fn printed_chain_has_arrows_between_errors() {
    let out = error_chain_printout(&chain(&["top", "cause"]));
    assert_eq!(
        out,
        vec![
            (Stream::Stderr, "cause".to_string()),
            (Stream::Stdout, "↓".to_string()),
            (Stream::Stderr, "top".to_string()),
        ]
    );
    assert_eq!(error_chain_printout(&chain(&["one"])), vec![(Stream::Stderr, "one".to_string())]);
}

#[test]
fn join_messages() {
    assert_eq!(join_task_message(JoinFailure::Panicked), "Task panicked");
    assert_eq!(join_task_message(JoinFailure::Cancelled), "Task panicked");
    assert_eq!(join_failure_message(JoinFailure::Cancelled), "Task failed to join, the task was cancelled");
    assert_eq!(join_failure_message(JoinFailure::Panicked), "Task failed to join, the task panicked");
}

#[test]
fn join_errors_from_tokio() {
    let (panicked, cancelled) = join_errors();
    let p = SharedJoinError::new(panicked);
    assert_eq!(p.failure, JoinFailure::Panicked);
    assert_eq!(p.message(), "Task failed to join, the task panicked");
    let c = SharedJoinError::new(cancelled);
    assert_eq!(c.failure, JoinFailure::Cancelled);
    assert_eq!(c.message(), "Task failed to join, the task was cancelled");
    let (panicked, cancelled) = join_errors();
    assert_eq!(JoinError::from(panicked).message(), "Task panicked");
    let c = JoinError::from(cancelled);
    assert_eq!(c.failure, JoinFailure::Cancelled);
    assert_eq!(c.message(), "Task panicked");
}

#[test]
fn spawned_task_results() {
    let r: Result<Result<u8, Error>, tokio::task::JoinError> = Ok(Ok(5));
    assert!(matches!(from_spawned_task_result(r), Ok(5)));
    let r: Result<Result<u8, Error>, tokio::task::JoinError> = Ok(Err(Error::DrawFrame(cause(&["x"]))));
    assert!(matches!(from_spawned_task_result(r), Err(Error::DrawFrame(_))));
    let (panicked, _) = join_errors();
    let r: Result<Result<u8, Error>, tokio::task::JoinError> = Err(panicked);
    match from_spawned_task_result(r) {
        Err(e @ Error::MainTaskJoin(_)) => {
            assert_eq!(e.chain(), chain(&["Main task failed to join", "Task panicked"]));
        }
        other => panic!("unexpected {:?}", other),
    }
}

#[test]
fn ok_is_ok() {
    assert!(ok().is_ok());
    assert!(rvm::server::error::ok().is_ok());
}

#[test]
fn server_errors() {
    assert_eq!(ServerError::DeserializationError(cause(&[])).message(), "Can not deserialize client's message as CBOR");
    assert_eq!(ServerError::AbruptClientLeave(cause(&[])).message(), "The client leaves abruptly");
    assert_eq!(ServerError::SendPong(cause(&[])).message(), "Failed to send pong");
    assert_eq!(ServerError::Bind(cause(&[])).message(), "Failed to bind and start server");
    assert_eq!(ServerError::Accept(cause(&["refused"])).chain(), chain(&["Failed to accept a connection", "refused"]));
}

#[test]
fn custom_errors() {
    assert_eq!(TextError::AbruptClientLeave.chain(), chain(&["The client left abruptly"]));
    assert!(TextError::AbruptClientLeave.cause().is_none());
    assert_eq!(
        TextError::BadMessageContent(cause(&["invalid utf-8"])).chain(),
        chain(&["The message from client is not parsable as utf-8 string", "invalid utf-8"])
    );
    assert_eq!(
        TextError::BadMessageFormat(cause(&[])).message(),
        "The decoder is not able to recognize the message format"
    );
    assert_eq!(TaskError::DrawTaskIncomplete(cause(&[])).message(), "Drawing sending task failed to complete");
    assert_eq!(TaskError::Control(cause(&[])).message(), "Failed to read control event");
}

#[test]
fn chains_with_and_without_cause() {
    assert_eq!(chain_with("top", None), chain(&["top"]));
    assert_eq!(chain_with("top", Some(&cause(&["a", "b"]))), chain(&["top", "a", "b"]));
}

#[test]
fn ping_errors_keep_their_sources() {
    let overflow = PingError::GamerLag(u16::try_from(70000u32).unwrap_err());
    assert_eq!(
        overflow.chain(),
        chain(&["ping value overflow", "out of range integral type conversion attempted"])
    );
    assert_eq!(
        report_error_chain(&overflow.chain()),
        chain(&[
            "out of range integral type conversion attempted\tThis is the cause of the next error.",
            "ping value overflow",
        ])
    );
    let clock = std::time::UNIX_EPOCH
        .duration_since(std::time::UNIX_EPOCH + std::time::Duration::from_secs(1))
        .unwrap_err();
    let future = PingError::TimeTraveler { ahead_nanos: 1_000_000_000, source: Some(clock) };
    assert_eq!(
        future.chain(),
        chain(&["Received PONG from server with future time", "second time provided was later than self"])
    );
    let far = PingError::TimeTraveler { ahead_nanos: 5, source: None };
    assert_eq!(far.chain(), chain(&["Received PONG from server with future time"]));
}
