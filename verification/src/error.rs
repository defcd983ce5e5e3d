//! Why a session ends, and how that is put into words.

use vstd::prelude::*;

verus! {

/// Why a handshake did not open a session.
#[derive(Clone, Copy, Debug, PartialEq, Eq, Structural)]
pub enum HandshakeError {
    /// The upgrade was completed, but the answer named no connection.
    MissingConnId,
    /// The peer answered the upgrade with this HTTP status.
    Http { status: u16 },
    /// The address or the token cannot stand in an HTTP request.
    InvalidRequest,
}

/// Why a session ended.
#[derive(Debug, PartialEq, Eq)]
pub enum SessionError {
    /// The session never opened.
    Handshake(HandshakeError),
    /// The connection broke or was closed by the peer.
    Transport { message: String },
}

/// View of a `SessionError`.
pub enum SessionErrorView {
    Handshake(HandshakeError),
    Transport { message: Seq<char> },
}

impl View for SessionError {
    type V = SessionErrorView;

    open spec fn view(&self) -> SessionErrorView {
        match *self {
            SessionError::Handshake(e) => SessionErrorView::Handshake(e),
            SessionError::Transport { message } => SessionErrorView::Transport {
                message: message@,
            },
        }
    }
}

impl Clone for SessionError {
    fn clone(&self) -> (res: SessionError)
        ensures
            res@ == self@,
    {
        match self {
            SessionError::Handshake(e) => SessionError::Handshake(*e),
            SessionError::Transport { message } => SessionError::Transport {
                message: message.clone(),
            },
        }
    }
}

/// View of an optional session error.
pub open spec fn error_view(error: Option<SessionError>) -> Option<SessionErrorView> {
    match error {
        Some(e) => Some(e@),
        None => None,
    }
}

/// The status line that the `http` crate prints for `code`: the number and
/// its reason phrase.
pub uninterp spec fn status_text(code: u16) -> Seq<char>;

/// Whether `code` is a status code that the `http` crate accepts.
pub open spec fn is_status_code(code: u16) -> bool {
    100 <= code < 1000
}

/// Calls `http::StatusCode::from_u16` and prints the status with its
/// `Display` impl.
///
/// Claimed of it: the conversion succeeds exactly for the codes from 100 to
/// 999, as its source checks, and the text is a function of the code alone.
#[verifier::external_body]
fn render_status(code: u16) -> (text: Option<String>)
    ensures
        text is Some <==> is_status_code(code),
        text matches Some(t) ==> t@ == status_text(code),
{
    match http::StatusCode::from_u16(code) {
        Ok(status) => Some(status.to_string()),
        Err(_) => None,
    }
}

/// The words for a refused upgrade, given the printed status if there is one.
pub open spec fn http_error_text(status_line: Option<Seq<char>>) -> Seq<char> {
    match status_line {
        Some(line) => "HTTP error: "@ + line,
        None => "HTTP error: invalid status code"@,
    }
}

/// The words for `error`.
pub open spec fn error_text(error: SessionErrorView) -> Seq<char> {
    match error {
        SessionErrorView::Handshake(HandshakeError::MissingConnId) => {
            "no connection id was returned"@
        },
        SessionErrorView::Handshake(HandshakeError::Http { status }) => http_error_text(
            if is_status_code(status) {
                Some(status_text(status))
            } else {
                None
            },
        ),
        SessionErrorView::Handshake(HandshakeError::InvalidRequest) => {
            "invalid handshake request"@
        },
        SessionErrorView::Transport { message } => message,
    }
}

/// Puts a refused upgrade into words: `HTTP error: ` and the printed status.
pub fn describe_http_error(status_line: Option<String>) -> (text: String)
    ensures
        text@ == http_error_text(
            match status_line {
                Some(line) => Some(line@),
                None => None,
            },
        ),
{
    match status_line {
        Some(line) => String::from_str("HTTP error: ").concat(line.as_str()),
        None => String::from_str("HTTP error: invalid status code"),
    }
}

impl SessionError {
    /// The error in words, as it is shown to an operator.
    pub fn message(&self) -> (text: String)
        ensures
            text@ == error_text(self@),
    {
        match self {
            SessionError::Handshake(HandshakeError::MissingConnId) => String::from_str(
                "no connection id was returned",
            ),
            SessionError::Handshake(HandshakeError::Http { status }) => describe_http_error(
                render_status(*status),
            ),
            SessionError::Handshake(HandshakeError::InvalidRequest) => String::from_str(
                "invalid handshake request",
            ),
            SessionError::Transport { message } => message.clone(),
        }
    }
}

} // verus!
