use proxy::error::{HandshakeError, SessionError};
use proxy::handshake::HandshakeOutcome;
use proxy::model::{DataSource, OpId, ProviderError, ProxyMessage, ServerMessage};
use proxy::name::Name;
use proxy::session::{Frame, ReadStep, Session, SessionState, WriteStep, Written, DEFAULT_INACTIVITY_TIMEOUT_MS};

fn open_session(timeout: u64, now: u64) -> Session {
    let mut session = Session::new(timeout);
    session.on_handshake(HandshakeOutcome::Accepted { conn_id: Some("conn-id".to_string()) }, now);
    session
}

fn announced_session(timeout: u64, now: u64) -> Session {
    let mut session = open_session(timeout, now);
    assert!(session.outbound(ProxyMessage::SetDataSources(Vec::new())));
    assert_eq!(session.next_write(now), WriteStep::Send(ProxyMessage::SetDataSources(Vec::new())));
    session.on_written(Written::Sent, now);
    session
}

fn response(op_id: u128) -> ProxyMessage {
    ProxyMessage::InvokeProxyResponse { op_id: OpId(op_id), data: vec![op_id as u8] }
}

#[test]
fn session_opens_on_an_accepted_handshake() {
    let session = open_session(DEFAULT_INACTIVITY_TIMEOUT_MS, 7);
    assert_eq!(session.state(), SessionState::Open);
    assert_eq!(session.conn_id(), Some("conn-id".to_string()));
    assert_eq!(session.outcome(), Ok(()));
    assert!(!session.closed());
    assert!(!session.ready());
    assert!(!session.announced());
    assert_eq!(DEFAULT_INACTIVITY_TIMEOUT_MS, 45_000);
}

#[test]
fn session_closes_when_the_answer_names_no_connection() {
    let mut session = Session::new(45_000);
    assert_eq!(session.state(), SessionState::Connecting);
    session.on_handshake(HandshakeOutcome::Accepted { conn_id: None }, 0);
    assert_eq!(session.state(), SessionState::Closed);
    assert_eq!(session.outcome(), Err(SessionError::Handshake(HandshakeError::MissingConnId)));
    assert_eq!(session.outcome().unwrap_err().message(), "no connection id was returned");
    assert_eq!(session.conn_id(), None);
}

#[test]
fn session_closes_when_the_upgrade_is_refused() {
    let mut session = Session::new(45_000);
    session.on_handshake(HandshakeOutcome::Rejected { status: 403 }, 0);
    assert!(session.closed());
    assert_eq!(session.outcome(), Err(SessionError::Handshake(HandshakeError::Http { status: 403 })));
    assert_eq!(session.outcome().unwrap_err().message(), "HTTP error: 403 Forbidden");
    // A session that never opened owes no close frame.
    assert_eq!(session.next_write(0), WriteStep::Stop);
}

#[test]
fn session_closes_when_no_answer_arrives() {
    let mut session = Session::new(45_000);
    session.on_handshake(HandshakeOutcome::Failed { message: "connection refused".to_string() }, 0);
    assert!(session.closed());
    assert_eq!(session.outcome(), Err(SessionError::Transport { message: "connection refused".to_string() }));
    assert_eq!(session.outcome().unwrap_err().message(), "connection refused");
}

#[test]
fn session_does_not_open_twice() {
    let mut session = open_session(45_000, 0);
    session.on_frame(Frame::Close);
    assert!(session.closed());
    session.on_handshake(HandshakeOutcome::Accepted { conn_id: Some("again".to_string()) }, 5);
    assert!(session.closed());
    assert_eq!(session.conn_id(), Some("conn-id".to_string()));

    let mut session = open_session(45_000, 0);
    session.on_handshake(HandshakeOutcome::Rejected { status: 500 }, 5);
    assert_eq!(session.state(), SessionState::Open);
    assert_eq!(session.outcome(), Ok(()));
}

#[test]
fn session_hands_decoded_messages_to_the_dispatcher() {
    let mut session = open_session(45_000, 0);
    let message = || ServerMessage::InvokeProxyRequest {
        op_id: OpId(3),
        data_source_name: "metrics".to_string(),
        payload: b"query".to_vec(),
        protocol_version: 2,
    };
    assert_eq!(session.on_frame(Frame::Message(message())), ReadStep::Dispatch(message()));
    assert_eq!(
        session.on_frame(Frame::Message(ServerMessage::Poll { op_id: OpId(4) })),
        ReadStep::Dispatch(ServerMessage::Poll { op_id: OpId(4) })
    );
    assert_eq!(session.state(), SessionState::Open);
}

#[test]
fn session_survives_frames_that_carry_no_message() {
    let mut session = open_session(45_000, 0);
    for frame in [Frame::Malformed, Frame::Text, Frame::Ping, Frame::Pong] {
        assert_eq!(session.on_frame(frame), ReadStep::Continue);
        assert_eq!(session.state(), SessionState::Open);
        assert_eq!(session.outcome(), Ok(()));
    }
}

#[test]
fn session_closes_on_close_error_and_end_of_stream() {
    let closing = [
        (Frame::Close, "connection closed by peer"),
        (Frame::Failed { message: "reset".to_string() }, "reset"),
        (Frame::End, "connection ended"),
    ];
    for (frame, words) in closing {
        let mut session = open_session(45_000, 0);
        assert_eq!(session.on_frame(frame), ReadStep::Stop);
        assert!(session.closed());
        assert_eq!(session.outcome(), Err(SessionError::Transport { message: words.to_string() }));
        assert_eq!(session.on_frame(Frame::Ping), ReadStep::Stop);
    }
}

#[test]
fn session_sends_messages_in_the_order_of_their_queueing() {
    let mut session = announced_session(45_000, 0);
    for op_id in 1..=3 {
        assert!(session.outbound(response(op_id)));
    }
    assert_eq!(session.pending(), 3);
    for op_id in 1..=3 {
        assert_eq!(session.next_write(op_id as u64), WriteStep::Send(response(op_id)));
        session.on_written(Written::Sent, op_id as u64);
    }
    assert_eq!(session.pending(), 0);
    assert_eq!(session.next_write(4), WriteStep::Wait { deadline: 45_003 });
}

#[test]
fn session_takes_the_list_of_data_sources_first() {
    let mut session = open_session(45_000, 0);
    assert!(!session.outbound(response(1)));
    assert!(!session.outbound(ProxyMessage::Error { op_id: None, error: ProviderError::NotChecked }));
    assert_eq!(session.pending(), 0);
    let list = || {
        ProxyMessage::SetDataSources(vec![DataSource::new(
            Name::new("metrics".to_string()).unwrap(),
            "prometheus".to_string(),
            None,
            Vec::new(),
        )])
    };
    assert!(session.outbound(list()));
    assert!(session.outbound(response(1)));
    assert_eq!(session.next_write(0), WriteStep::Send(list()));
    assert!(!session.ready());
    session.on_written(Written::Sent, 0);
    assert!(session.ready());
    assert_eq!(session.next_write(0), WriteStep::Send(response(1)));
}

#[test]
fn session_drops_a_message_that_cannot_be_encoded() {
    let mut session = announced_session(45_000, 0);
    session.outbound(response(1));
    session.outbound(response(2));
    assert_eq!(session.next_write(10), WriteStep::Send(response(1)));
    session.on_written(Written::EncodeFailed, 10);
    assert_eq!(session.state(), SessionState::Open);
    assert_eq!(session.next_write(11), WriteStep::Send(response(2)));
    session.on_written(Written::Sent, 11);
    // Only the frame that was sent started the timeout anew.
    assert_eq!(session.next_write(12), WriteStep::Wait { deadline: 45_011 });
}

#[test]
fn session_closes_when_a_frame_cannot_be_sent() {
    let mut session = announced_session(45_000, 0);
    session.outbound(response(1));
    session.outbound(response(2));
    assert_eq!(session.next_write(10), WriteStep::Send(response(1)));
    session.on_written(Written::SendFailed { message: "broken pipe".to_string() }, 10);
    assert!(session.closed());
    assert_eq!(session.outcome(), Err(SessionError::Transport { message: "broken pipe".to_string() }));
    // Nothing is written any more but the close frame.
    assert!(!session.outbound(response(3)));
    assert_eq!(session.next_write(11), WriteStep::CloseFrame);
    assert_eq!(session.next_write(100_000), WriteStep::Stop);
    assert_eq!(session.next_write(200_000), WriteStep::Stop);
}

#[test]
fn session_pings_after_the_timeout_and_starts_it_anew() {
    let mut session = announced_session(1_000, 500);
    assert_eq!(session.next_write(500), WriteStep::Wait { deadline: 1_500 });
    assert_eq!(session.next_write(1_499), WriteStep::Wait { deadline: 1_500 });
    assert_eq!(session.next_write(1_500), WriteStep::Ping(b"ping".to_vec()));
    assert_eq!(session.next_write(1_500), WriteStep::Wait { deadline: 2_500 });
    assert_eq!(session.next_write(2_499), WriteStep::Wait { deadline: 2_500 });
    assert_eq!(session.next_write(3_000), WriteStep::Ping(b"ping".to_vec()));
    assert_eq!(session.next_write(3_999), WriteStep::Wait { deadline: 4_000 });
}

#[test]
fn session_timeout_starts_anew_with_every_frame_sent() {
    let mut session = announced_session(1_000, 0);
    session.outbound(response(1));
    assert_eq!(session.next_write(900), WriteStep::Send(response(1)));
    session.on_written(Written::Sent, 900);
    assert_eq!(session.next_write(1_000), WriteStep::Wait { deadline: 1_900 });
    assert_eq!(session.next_write(1_899), WriteStep::Wait { deadline: 1_900 });
    assert_eq!(session.next_write(1_900), WriteStep::Ping(b"ping".to_vec()));
}

#[test]
fn session_is_not_kept_alive_by_what_it_reads() {
    let mut session = announced_session(1_000, 0);
    assert_eq!(session.on_frame(Frame::Pong), ReadStep::Continue);
    assert_eq!(session.on_frame(Frame::Text), ReadStep::Continue);
    assert_eq!(session.next_write(1_000), WriteStep::Ping(b"ping".to_vec()));
}

#[test]
fn session_clock_may_stand_still_or_overflow() {
    let mut session = announced_session(1_000, 5_000);
    // A clock that went back counts as no time passed.
    assert_eq!(session.next_write(10), WriteStep::Wait { deadline: 6_000 });
    let mut session = announced_session(u64::MAX, 5_000);
    assert_eq!(session.next_write(6_000), WriteStep::Wait { deadline: u64::MAX });
}

#[test]
fn session_shutdown_closes_without_an_error() {
    let mut session = announced_session(45_000, 0);
    session.outbound(response(1));
    session.shutdown();
    assert!(session.closed());
    assert_eq!(session.outcome(), Ok(()));
    assert!(!session.outbound(response(2)));
    assert_eq!(session.on_frame(Frame::Message(ServerMessage::Poll { op_id: OpId(1) })), ReadStep::Stop);
    assert_eq!(session.next_write(1), WriteStep::CloseFrame);
    assert_eq!(session.next_write(1), WriteStep::Stop);

    let mut session = Session::new(45_000);
    session.shutdown();
    assert!(session.closed());
    assert_eq!(session.next_write(1), WriteStep::Stop);
}

#[test]
fn session_keeps_its_error_through_a_shutdown() {
    let mut session = open_session(45_000, 0);
    session.on_frame(Frame::End);
    session.shutdown();
    assert_eq!(session.outcome(), Err(SessionError::Transport { message: "connection ended".to_string() }));
}
