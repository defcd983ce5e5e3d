use proxy::error::{HandshakeError, SessionError};
use proxy::registry::StartupError;
use proxy::supervisor::{
    backoff_ms, exit_code, health_reply, HealthReply, Next, ServiceError, Supervisor, DEFAULT_MAX_RETRIES,
    INITIAL_BACKOFF_MS, MAX_BACKOFF_MS,
};

fn refused() -> Result<(), SessionError> {
    Err(SessionError::Handshake(HandshakeError::Http { status: 500 }))
}

#[test]
fn backoff_doubles_from_a_second_up_to_a_minute() {
    let waits: Vec<u64> = (1..=9).map(backoff_ms).collect();
    assert_eq!(waits, vec![1000, 2000, 4000, 8000, 16_000, 32_000, 60_000, 60_000, 60_000]);
    assert_eq!(backoff_ms(0), 1000);
    assert_eq!(backoff_ms(u32::MAX), 60_000);
    assert_eq!(INITIAL_BACKOFF_MS, 1000);
    assert_eq!(MAX_BACKOFF_MS, 60_000);
}

#[test]
fn supervisor_connects_first() {
    let supervisor = Supervisor::new(DEFAULT_MAX_RETRIES);
    assert_eq!(DEFAULT_MAX_RETRIES, 1);
    assert_eq!(supervisor.start(), Next::Connect);
    assert!(!supervisor.connected());
    assert_eq!(supervisor.failures(), 0);
}

#[test]
fn supervisor_retries_as_often_as_it_is_allowed() {
    let mut supervisor = Supervisor::new(3);
    assert_eq!(supervisor.on_closed(refused()), Next::RetryAfter { millis: 1000 });
    assert_eq!(supervisor.on_closed(refused()), Next::RetryAfter { millis: 2000 });
    assert_eq!(supervisor.on_closed(refused()), Next::RetryAfter { millis: 4000 });
    assert_eq!(supervisor.failures(), 3);
    assert_eq!(supervisor.on_closed(refused()), Next::Finish(refused()));
}

#[test]
fn supervisor_without_retries_gives_up_at_once() {
    let mut supervisor = Supervisor::new(0);
    let lost = || Err(SessionError::Transport { message: "connection ended".to_string() });
    assert_eq!(supervisor.on_closed(lost()), Next::Finish(lost()));
}

#[test]
fn supervisor_forgets_failures_when_a_session_opens() {
    let mut supervisor = Supervisor::new(2);
    assert_eq!(supervisor.on_closed(refused()), Next::RetryAfter { millis: 1000 });
    assert_eq!(supervisor.on_closed(refused()), Next::RetryAfter { millis: 2000 });
    supervisor.on_open();
    assert!(supervisor.connected());
    assert_eq!(supervisor.failures(), 0);
    let lost = || Err(SessionError::Transport { message: "connection closed by peer".to_string() });
    assert_eq!(supervisor.on_closed(lost()), Next::RetryAfter { millis: 1000 });
    assert!(!supervisor.connected());
}

#[test]
fn supervisor_stops_on_shutdown() {
    let mut supervisor = Supervisor::new(5);
    supervisor.on_open();
    supervisor.shutdown();
    assert_eq!(supervisor.on_closed(Ok(())), Next::Finish(Ok(())));
    assert_eq!(supervisor.on_closed(refused()), Next::Finish(Ok(())));
    assert_eq!(supervisor.start(), Next::Finish(Ok(())));
}

#[test]
fn health_endpoint_answers_by_path() {
    let reply = |status: u16, body: &str| HealthReply { status, body: body.to_string() };
    assert_eq!(health_reply("/", true), reply(200, "ok"));
    assert_eq!(health_reply("/", false), reply(200, "ok"));
    assert_eq!(health_reply("/health", true), reply(200, ""));
    assert_eq!(health_reply("/health", false), reply(502, ""));
    assert_eq!(health_reply("/healthz", true), reply(404, ""));
    assert_eq!(health_reply("", true), reply(404, ""));
}

#[test]
fn exit_codes_tell_startup_from_session_errors() {
    assert_eq!(exit_code(&Ok(())), 0);
    let startup = StartupError::InvalidModule { provider_type: "loki".to_string(), message: "bad".to_string() };
    assert_eq!(exit_code(&Err(ServiceError::Startup(startup))), 1);
    assert_eq!(exit_code(&Err(ServiceError::Bind { message: "address in use".to_string() })), 1);
    let session = SessionError::Handshake(HandshakeError::MissingConnId);
    assert_eq!(exit_code(&Err(ServiceError::Session(session))), 2);
}
