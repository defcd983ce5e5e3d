//! The opening of a session: the request that is sent and what the answer
//! to it means.

use vstd::prelude::*;
use vstd::utf8::encode_utf8;

use crate::error::{HandshakeError, SessionError, SessionErrorView};
use crate::name::Name;

verus! {

/// What identifies this proxy to the control plane.
#[derive(Debug, PartialEq, Eq)]
pub struct ProxyToken {
    pub workspace_id: u128,
    pub proxy_name: Name,
    pub token: String,
}

impl Clone for ProxyToken {
    fn clone(&self) -> (res: ProxyToken)
        ensures
            res.workspace_id == self.workspace_id,
            res.proxy_name@ == self.proxy_name@,
            res.token@ == self.token@,
    {
        ProxyToken {
            workspace_id: self.workspace_id,
            proxy_name: self.proxy_name.clone(),
            token: self.token.clone(),
        }
    }
}

/// The request that opens the WebSocket: where to connect, and the header
/// that carries the token.
#[derive(Debug, PartialEq, Eq)]
pub struct HandshakeRequest {
    pub url: String,
    /// The name of the header: `fp-auth-token`.
    pub auth_header: String,
    /// The value of the header.
    pub auth_token: String,
}

/// The name of the header that carries the token.
pub open spec fn auth_header_text() -> Seq<char> {
    "fp-auth-token"@
}

/// How the peer answered the upgrade.
#[derive(Debug, PartialEq, Eq)]
pub enum HandshakeOutcome {
    /// The upgrade was completed. `conn_id` is the header `fp-conn-id` of the
    /// answer, where it is present and printable.
    Accepted { conn_id: Option<String> },
    /// The peer answered with an HTTP response instead of upgrading.
    Rejected { status: u16 },
    /// No answer arrived.
    Failed { message: String },
}

/// View of a `HandshakeOutcome`.
pub enum HandshakeOutcomeView {
    Accepted { conn_id: Option<Seq<char>> },
    Rejected { status: u16 },
    Failed { message: Seq<char> },
}

impl View for HandshakeOutcome {
    type V = HandshakeOutcomeView;

    open spec fn view(&self) -> HandshakeOutcomeView {
        match *self {
            HandshakeOutcome::Accepted { conn_id } => HandshakeOutcomeView::Accepted {
                conn_id: match conn_id {
                    Some(id) => Some(id@),
                    None => None,
                },
            },
            HandshakeOutcome::Rejected { status } => HandshakeOutcomeView::Rejected { status },
            HandshakeOutcome::Failed { message } => HandshakeOutcomeView::Failed {
                message: message@,
            },
        }
    }
}

impl HandshakeOutcomeView {
    /// The connection id of an answer that opens a session.
    pub open spec fn opens(self) -> Option<Seq<char>> {
        match self {
            HandshakeOutcomeView::Accepted { conn_id: Some(id) } => Some(id),
            _ => None,
        }
    }

    /// The error that an answer stands for, if it opens no session.
    pub open spec fn error(self) -> Option<SessionErrorView> {
        match self {
            HandshakeOutcomeView::Accepted { conn_id: Some(_) } => None,
            HandshakeOutcomeView::Accepted { conn_id: None } => Some(
                SessionErrorView::Handshake(HandshakeError::MissingConnId),
            ),
            HandshakeOutcomeView::Rejected { status } => Some(
                SessionErrorView::Handshake(HandshakeError::Http { status }),
            ),
            HandshakeOutcomeView::Failed { message } => Some(
                SessionErrorView::Transport { message },
            ),
        }
    }
}

/// The name of the header that carries the token.
pub const AUTH_HEADER: &'static str = "fp-auth-token";

/// The name of the header in which the peer names the connection.
pub const CONN_ID_HEADER: &'static str = "fp-conn-id";

/// The text that `base64uuid` prints for the 128 bits of a workspace id.
pub uninterp spec fn workspace_id_text(id: u128) -> Seq<char>;

/// Whether the `http` crate reads `uri` as a URI.
pub uninterp spec fn uri_accepted(uri: Seq<char>) -> bool;

/// A byte that may stand in the value of an HTTP header.
pub open spec fn header_byte_accepted(b: u8) -> bool {
    (b >= 32 && b != 127) || b == 9
}

/// A text that may stand as the value of an HTTP header: each byte of its
/// UTF-8 form is accepted.
pub open spec fn header_value_accepted(value: Seq<char>) -> bool {
    forall|i: int|
        0 <= i < encode_utf8(value).len() ==> header_byte_accepted(#[trigger] encode_utf8(value)[i])
}

/// Makes a `uuid::Uuid` of the 128 bits with `Uuid::from_u128`, wraps it in
/// `base64uuid::Base64Uuid` and prints it with that type's `Display` impl.
///
/// Claimed of it: the text is a function of the 128 bits alone.
#[verifier::external_body]
fn render_workspace_id(id: u128) -> (text: String)
    ensures
        text@ == workspace_id_text(id),
{
    base64uuid::Base64Uuid(uuid::Uuid::from_u128(id)).to_string()
}

/// Calls `http::Uri::try_from` on the text, the conversion that
/// `http::request::Builder::uri` applies.
///
/// Claimed of it: whether the text is read as a URI depends on the text alone.
#[verifier::external_body]
fn uri_is_accepted(uri: &str) -> (ok: bool)
    ensures
        ok == uri_accepted(uri@),
{
    http::Uri::try_from(uri).is_ok()
}

/// Calls `http::HeaderValue::from_str`.
///
/// Claimed of it: the text is accepted exactly if each of its bytes is a tab
/// or at least 32 and not 127, as the source of `HeaderValue` checks.
#[verifier::external_body]
fn header_value_is_accepted(value: &str) -> (ok: bool)
    ensures
        ok == header_value_accepted(value@),
{
    http::HeaderValue::from_str(value).is_ok()
}

/// The path of the WebSocket endpoint of a proxy.
pub open spec fn handshake_path(workspace: Seq<char>, proxy_name: Seq<char>) -> Seq<char> {
    "/api/workspaces/"@ + workspace + "/proxies/"@ + proxy_name + "/ws"@
}

/// The address of the WebSocket endpoint of a proxy.
pub open spec fn handshake_url(
    endpoint: Seq<char>,
    workspace: Seq<char>,
    proxy_name: Seq<char>,
) -> Seq<char> {
    endpoint + handshake_path(workspace, proxy_name)
}

/// Builds the address to connect to from the endpoint of the control plane,
/// the printed workspace id and the name of the proxy.
pub fn build_url(endpoint: &str, workspace: &str, proxy_name: &Name) -> (url: String)
    ensures
        url@ == handshake_url(endpoint@, workspace@, proxy_name@),
{
    let mut url = String::from_str(endpoint);
    url.append("/api/workspaces/");
    url.append(workspace);
    url.append("/proxies/");
    url.append(proxy_name.as_str());
    url.append("/ws");
    url
}

/// Makes the request of an address and a token that were checked.
pub fn checked_request(
    url: String,
    auth_token: String,
    uri_ok: bool,
    token_ok: bool,
) -> (res: Result<HandshakeRequest, SessionError>)
    ensures
        res is Ok <==> uri_ok && token_ok,
        res matches Ok(request) ==> request.url@ == url@ && request.auth_header@
            == auth_header_text() && request.auth_token@ == auth_token@,
        res matches Err(e) ==> e@ == SessionErrorView::Handshake(HandshakeError::InvalidRequest),
{
    if uri_ok && token_ok {
        Ok(HandshakeRequest { url, auth_header: AUTH_HEADER.to_owned(), auth_token })
    } else {
        Err(SessionError::Handshake(HandshakeError::InvalidRequest))
    }
}

/// The request that opens a session for `token` at `endpoint`.
///
/// It is refused where the `http` crate would not build it: where the
/// address is no URI or the token cannot be a header value.
pub fn handshake_request(
    endpoint: &str,
    token: &ProxyToken,
) -> (res: Result<HandshakeRequest, SessionError>)
    ensures
        res is Ok <==> uri_accepted(
            handshake_url(endpoint@, workspace_id_text(token.workspace_id), token.proxy_name@),
        ) && header_value_accepted(token.token@),
        res matches Ok(request) ==> request.url@ == handshake_url(
            endpoint@,
            workspace_id_text(token.workspace_id),
            token.proxy_name@,
        ) && request.auth_header@ == auth_header_text() && request.auth_token@ == token.token@,
        res matches Err(e) ==> e@ == SessionErrorView::Handshake(HandshakeError::InvalidRequest),
{
    let workspace = render_workspace_id(token.workspace_id);
    let url = build_url(endpoint, workspace.as_str(), &token.proxy_name);
    let uri_ok = uri_is_accepted(url.as_str());
    let token_ok = header_value_is_accepted(token.token.as_str());
    checked_request(url, token.token.clone(), uri_ok, token_ok)
}

} // verus!
