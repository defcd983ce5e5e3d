use proxy::connection::Step;
use proxy::error::{describe_http_error, HandshakeError, SessionError};
use proxy::handshake::{build_url, checked_request, handshake_request, HandshakeRequest, ProxyToken, CONN_ID_HEADER};
use proxy::name::Name;
use proxy::service::ProxyService;

fn token(workspace_id: u128, text: &str) -> ProxyToken {
    ProxyToken { workspace_id, proxy_name: Name::new("test-proxy".to_string()).unwrap(), token: text.to_string() }
}

fn invalid() -> Result<HandshakeRequest, SessionError> {
    Err(SessionError::Handshake(HandshakeError::InvalidRequest))
}

#[test]
fn handshake_url_is_built_of_endpoint_workspace_and_name() {
    let proxy_name = Name::new("test-proxy".to_string()).unwrap();
    assert_eq!(
        build_url("wss://studio.example.com", "W", &proxy_name),
        "wss://studio.example.com/api/workspaces/W/proxies/test-proxy/ws"
    );
    assert_eq!(build_url("", "", &proxy_name), "/api/workspaces//proxies/test-proxy/ws");
    assert_eq!(CONN_ID_HEADER, "fp-conn-id");
}

#[test]
fn handshake_prints_the_workspace_id_as_base64() {
    let request = handshake_request("http://localhost:3030", &token(0, "secret")).unwrap();
    assert_eq!(request.url, "http://localhost:3030/api/workspaces/AAAAAAAAAAAAAAAAAAAAAA/proxies/test-proxy/ws");
    assert_eq!(request.auth_token, "secret");
    let request = handshake_request("http://localhost:3030", &token(u128::MAX, "secret")).unwrap();
    assert_eq!(request.url, "http://localhost:3030/api/workspaces/_____________________w/proxies/test-proxy/ws");
    let id = uuid::Uuid::parse_str("10000000-0000-0000-0000-000000000000").unwrap();
    let request = handshake_request("http://localhost:3030", &token(id.as_u128(), "secret")).unwrap();
    assert_eq!(
        http::Uri::try_from(request.url.as_str()).unwrap().path(),
        format!("/api/workspaces/{}/proxies/test-proxy/ws", base64uuid::Base64Uuid(id))
    );
}

#[test]
fn handshake_refuses_a_token_that_is_no_header_value() {
    assert_eq!(handshake_request("http://localhost:3030", &token(1, "line\nbreak")), invalid());
    assert_eq!(handshake_request("http://localhost:3030", &token(1, "bell\u{7}")), invalid());
    assert_eq!(handshake_request("http://localhost:3030", &token(1, "del\u{7f}")), invalid());
    assert!(handshake_request("http://localhost:3030", &token(1, "tab\tand space")).is_ok());
    assert!(handshake_request("http://localhost:3030", &token(1, "")).is_ok());
}

#[test]
fn handshake_refuses_an_endpoint_that_is_no_uri() {
    assert_eq!(handshake_request("http://local host:3030", &token(1, "secret")), invalid());
    assert_eq!(handshake_request("http://[::1", &token(1, "secret")), invalid());
    let service = ProxyService::new(
        "http://local host:3030".to_string(),
        token(1, "secret"),
        Vec::new(),
        Vec::new(),
        5,
        None,
        300_000,
    )
    .unwrap();
    assert_eq!(service.connect().begin(&service), Step::Finish(Err(SessionError::Handshake(HandshakeError::InvalidRequest))));
}

#[test]
fn checked_request_needs_both_checks() {
    let request = |uri_ok, token_ok| checked_request("u".to_string(), "t".to_string(), uri_ok, token_ok);
    let built = HandshakeRequest {
        url: "u".to_string(),
        auth_header: "fp-auth-token".to_string(),
        auth_token: "t".to_string(),
    };
    assert_eq!(request(true, true), Ok(built));
    assert_eq!(request(true, false), invalid());
    assert_eq!(request(false, true), invalid());
    assert_eq!(request(false, false), invalid());
}

#[test]
fn session_errors_are_put_into_words() {
    let http = |status: u16| SessionError::Handshake(HandshakeError::Http { status }).message();
    assert_eq!(http(500), "HTTP error: 500 Internal Server Error");
    assert_eq!(http(404), "HTTP error: 404 Not Found");
    assert_eq!(http(101), "HTTP error: 101 Switching Protocols");
    assert_eq!(http(799), "HTTP error: 799 <unknown status code>");
    assert_eq!(http(99), "HTTP error: invalid status code");
    assert_eq!(http(1000), "HTTP error: invalid status code");
    assert_eq!(SessionError::Handshake(HandshakeError::InvalidRequest).message(), "invalid handshake request");
    assert_eq!(describe_http_error(Some("418 I'm a teapot".to_string())), "HTTP error: 418 I'm a teapot");
    assert_eq!(describe_http_error(None), "HTTP error: invalid status code");
}
