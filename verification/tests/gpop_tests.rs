use gpop::error::AppError;
use gpop::gpop::{classify_incoming, reply_result, request_result, IncomingMessage, ConnectRetry, ConnectStep, RequestOutcome, CONNECT_ATTEMPTS};

#[test]
fn connect_retry_schedule() {
    let mut r = ConnectRetry::new();
    let mut delays = Vec::new();
    for k in 0..CONNECT_ATTEMPTS {
        match r.next_step() {
            ConnectStep::Try { delay_ms } => delays.push(delay_ms),
            ConnectStep::GiveUp(e) => panic!("gave up early: {:?}", e),
        }
        r.record_failure(format!("refused {}", k));
    }
    assert_eq!(delays, vec![0, 100, 200, 400, 800, 1600]);
    match r.next_step() {
        ConnectStep::GiveUp(AppError::GpopConnection(m)) => assert_eq!(m, "Failed to connect after 6 attempts: refused 5"),
        other => panic!("unexpected {:?}", other),
    }
}

#[test]
fn request_outcomes() {
    match request_result::<u8>("play", RequestOutcome::SendFailed) {
        Err(AppError::GpopConnection(m)) => assert_eq!(m, "Connection closed"),
        other => panic!("unexpected {:?}", other),
    }
    match request_result::<u8>("play", RequestOutcome::ChannelClosed) {
        Err(AppError::GpopConnection(m)) => assert_eq!(m, "Response channel closed"),
        other => panic!("unexpected {:?}", other),
    }
    match request_result::<u8>("get_position", RequestOutcome::TimedOut) {
        Err(AppError::GpopConnection(m)) => assert_eq!(m, "Request 'get_position' timed out after 30s"),
        other => panic!("unexpected {:?}", other),
    }
    match request_result::<u8>("play", RequestOutcome::Replied(Err("no such pipeline".to_string()))) {
        Err(AppError::GpopProtocol(m)) => assert_eq!(m, "no such pipeline"),
        other => panic!("unexpected {:?}", other),
    }
    assert_eq!(request_result::<u8>("play", RequestOutcome::Replied(Ok(7))).unwrap(), 7);
}

#[test]
fn replies() {
    assert_eq!(reply_result(Some(1u8), None, 0), Ok(1));
    assert_eq!(reply_result(None::<u8>, None, 0), Ok(0));
    assert_eq!(reply_result(Some(1u8), Some("bad".to_string()), 0), Err("bad".to_string()));
}

#[test]
fn incoming_messages_routed_by_key() {
    assert_eq!(classify_incoming(true, true), IncomingMessage::Event);
    assert_eq!(classify_incoming(true, false), IncomingMessage::Event);
    assert_eq!(classify_incoming(false, true), IncomingMessage::Reply);
    assert_eq!(classify_incoming(false, false), IncomingMessage::Unknown);
}
