//! One WebSocket session, from the handshake to the close frame.
//!
//! The session is a state machine. The caller owns the socket: it reports
//! what it read and asks what to write, and the session answers with the
//! next step. A session opens at most once and, once closed, stays closed.

use std::collections::VecDeque;
use vstd::prelude::*;

use crate::error::{error_view, HandshakeError, SessionError, SessionErrorView};
use crate::handshake::{HandshakeOutcome, HandshakeOutcomeView};
use crate::model::{
    messages_view, text_view, ProxyMessage, ProxyMessageView, ServerMessage, ServerMessageView,
};

verus! {

/// The idle time after which a ping is sent where none is configured: 45 s.
pub const DEFAULT_INACTIVITY_TIMEOUT_MS: u64 = 45000;

/// Where a session stands.
#[derive(Clone, Copy, Debug, PartialEq, Eq, Structural)]
pub enum SessionState {
    /// The handshake has not been answered yet.
    Connecting,
    /// The handshake succeeded and the loops run.
    Open,
    /// The session is over.
    Closed,
}

/// One thing read from the socket.
#[derive(Debug, PartialEq, Eq)]
pub enum Frame {
    /// A binary frame that decoded into a message.
    Message(ServerMessage),
    /// A binary frame that did not decode.
    Malformed,
    /// A text frame.
    Text,
    /// A ping; the transport answers it by itself.
    Ping,
    /// A pong.
    Pong,
    /// The peer closes the connection.
    Close,
    /// Reading failed.
    Failed { message: String },
    /// The stream ended.
    End,
}

/// View of a `Frame`.
pub enum FrameView {
    Message(ServerMessageView),
    Malformed,
    Text,
    Ping,
    Pong,
    Close,
    Failed { message: Seq<char> },
    End,
}

impl View for Frame {
    type V = FrameView;

    open spec fn view(&self) -> FrameView {
        match *self {
            Frame::Message(m) => FrameView::Message(m@),
            Frame::Malformed => FrameView::Malformed,
            Frame::Text => FrameView::Text,
            Frame::Ping => FrameView::Ping,
            Frame::Pong => FrameView::Pong,
            Frame::Close => FrameView::Close,
            Frame::Failed { message } => FrameView::Failed { message: message@ },
            Frame::End => FrameView::End,
        }
    }
}

/// What the read loop does after a frame.
#[derive(Debug, PartialEq, Eq)]
pub enum ReadStep {
    /// Hand the message to the dispatcher and read on.
    Dispatch(ServerMessage),
    /// Read on.
    Continue,
    /// Leave the loop.
    Stop,
}

/// View of a `ReadStep`.
pub enum ReadStepView {
    Dispatch(ServerMessageView),
    Continue,
    Stop,
}

impl View for ReadStep {
    type V = ReadStepView;

    open spec fn view(&self) -> ReadStepView {
        match *self {
            ReadStep::Dispatch(m) => ReadStepView::Dispatch(m@),
            ReadStep::Continue => ReadStepView::Continue,
            ReadStep::Stop => ReadStepView::Stop,
        }
    }
}

/// What the write loop does next.
#[derive(Debug, PartialEq, Eq)]
pub enum WriteStep {
    /// Encode the message and send it as one binary frame.
    Send(ProxyMessage),
    /// Send a ping frame with this payload.
    Ping(Vec<u8>),
    /// Nothing is due before `deadline`: wait for a message, or for that time.
    Wait { deadline: u64 },
    /// Send a close frame without a status code; whether that works does not matter.
    CloseFrame,
    /// Leave the loop.
    Stop,
}

/// View of a `WriteStep`.
pub enum WriteStepView {
    Send(ProxyMessageView),
    Ping(Seq<u8>),
    Wait { deadline: u64 },
    CloseFrame,
    Stop,
}

impl View for WriteStep {
    type V = WriteStepView;

    open spec fn view(&self) -> WriteStepView {
        match *self {
            WriteStep::Send(m) => WriteStepView::Send(m@),
            WriteStep::Ping(payload) => WriteStepView::Ping(payload@),
            WriteStep::Wait { deadline } => WriteStepView::Wait { deadline },
            WriteStep::CloseFrame => WriteStepView::CloseFrame,
            WriteStep::Stop => WriteStepView::Stop,
        }
    }
}

impl WriteStepView {
    /// Whether the step puts a message or a ping on the wire.
    pub open spec fn writes(self) -> bool {
        self is Send || self is Ping
    }
}

/// How the sending of a message went.
#[derive(Debug, PartialEq, Eq)]
pub enum Written {
    /// The frame is on the wire.
    Sent,
    /// The message could not be encoded and was dropped.
    EncodeFailed,
    /// The transport refused the frame.
    SendFailed { message: String },
}

/// View of a `Written`.
pub enum WrittenView {
    Sent,
    EncodeFailed,
    SendFailed { message: Seq<char> },
}

impl View for Written {
    type V = WrittenView;

    open spec fn view(&self) -> WrittenView {
        match *self {
            Written::Sent => WrittenView::Sent,
            Written::EncodeFailed => WrittenView::EncodeFailed,
            Written::SendFailed { message } => WrittenView::SendFailed { message: message@ },
        }
    }
}

/// The payload of a keep-alive ping: the four letters `ping`.
pub open spec fn ping_payload() -> Seq<u8> {
    seq![112u8, 105u8, 110u8, 103u8]
}

/// The words under which a close frame of the peer ends the session.
pub open spec fn closed_by_peer_text() -> Seq<char> {
    "connection closed by peer"@
}

/// The words under which the end of the stream ends the session.
pub open spec fn stream_ended_text() -> Seq<char> {
    "connection ended"@
}

/// The time that has passed at `now` since `since`, on a clock that does
/// not run backwards.
pub open spec fn elapsed(now: u64, since: u64) -> int {
    if now >= since {
        now - since
    } else {
        0
    }
}

/// The state of a session.
pub struct SessionView {
    pub state: SessionState,
    /// The name that the peer gave the connection, once the session has opened.
    pub conn_id: Option<Seq<char>>,
    /// Why the session closed, unless it was shut down.
    pub error: Option<SessionErrorView>,
    pub inactivity_timeout: u64,
    /// When the last frame was sent.
    pub idle_since: u64,
    /// The messages that wait to be sent, oldest first.
    pub outbound: Seq<ProxyMessageView>,
    /// Whether the list of data sources has been queued.
    pub announced: bool,
    /// Whether a message has been sent: the peer knows the data sources.
    pub ready: bool,
    /// Whether the close frame has been handed out.
    pub close_frame_given: bool,
}

impl SessionView {
    /// A fresh session, before the handshake.
    pub open spec fn connecting(inactivity_timeout: u64) -> SessionView {
        SessionView {
            state: SessionState::Connecting,
            conn_id: None,
            error: None,
            inactivity_timeout,
            idle_since: 0,
            outbound: Seq::empty(),
            announced: false,
            ready: false,
            close_frame_given: false,
        }
    }

    /// The session closed, with `error` as the reason.
    pub open spec fn closed_with(self, error: Option<SessionErrorView>) -> SessionView {
        SessionView { state: SessionState::Closed, error, ..self }
    }

    /// After the answer to the handshake.
    pub open spec fn after_handshake(self, outcome: HandshakeOutcomeView, now: u64) -> SessionView {
        if self.state != SessionState::Connecting {
            self
        } else {
            match outcome.opens() {
                Some(id) => SessionView {
                    state: SessionState::Open,
                    conn_id: Some(id),
                    idle_since: now,
                    ..self
                },
                None => self.closed_with(outcome.error()),
            }
        }
    }

    /// Whether `message` is taken into the queue: the session is open, and
    /// nothing goes before the list of data sources.
    pub open spec fn accepts(self, message: ProxyMessageView) -> bool {
        self.state == SessionState::Open && (self.announced || message is SetDataSources)
    }

    /// After `message` was offered for sending.
    pub open spec fn after_outbound(self, message: ProxyMessageView) -> SessionView {
        if self.accepts(message) {
            SessionView { outbound: self.outbound.push(message), announced: true, ..self }
        } else {
            self
        }
    }

    /// What the read loop does with `frame`.
    pub open spec fn read_step(self, frame: FrameView) -> ReadStepView {
        if self.state != SessionState::Open {
            ReadStepView::Stop
        } else {
            match frame {
                FrameView::Message(m) => ReadStepView::Dispatch(m),
                FrameView::Malformed | FrameView::Text | FrameView::Ping | FrameView::Pong => {
                    ReadStepView::Continue
                },
                FrameView::Close | FrameView::Failed { .. } | FrameView::End => ReadStepView::Stop,
            }
        }
    }

    /// After `frame` was read.
    pub open spec fn after_frame(self, frame: FrameView) -> SessionView {
        if self.state != SessionState::Open {
            self
        } else {
            match frame {
                FrameView::Close => self.closed_with(
                    Some(SessionErrorView::Transport { message: closed_by_peer_text() }),
                ),
                FrameView::Failed { message } => self.closed_with(
                    Some(SessionErrorView::Transport { message }),
                ),
                FrameView::End => self.closed_with(
                    Some(SessionErrorView::Transport { message: stream_ended_text() }),
                ),
                _ => self,
            }
        }
    }

    /// Whether a ping is due at `now`: nothing waits and nothing was sent for
    /// the whole of the timeout.
    pub open spec fn ping_due(self, now: u64) -> bool {
        &&& self.state == SessionState::Open
        &&& self.outbound.len() == 0
        &&& elapsed(now, self.idle_since) >= self.inactivity_timeout
    }

    /// When the next ping falls due if nothing is sent until then.
    pub open spec fn ping_deadline(self) -> u64 {
        if self.idle_since + self.inactivity_timeout > u64::MAX {
            u64::MAX
        } else {
            (self.idle_since + self.inactivity_timeout) as u64
        }
    }

    /// What the write loop does at `now`.
    pub open spec fn write_step(self, now: u64) -> WriteStepView {
        match self.state {
            SessionState::Connecting => WriteStepView::Stop,
            SessionState::Closed => if self.conn_id is Some && !self.close_frame_given {
                WriteStepView::CloseFrame
            } else {
                WriteStepView::Stop
            },
            SessionState::Open => if self.outbound.len() > 0 {
                WriteStepView::Send(self.outbound[0])
            } else if self.ping_due(now) {
                WriteStepView::Ping(ping_payload())
            } else {
                WriteStepView::Wait { deadline: self.ping_deadline() }
            },
        }
    }

    /// After the write loop was told its step at `now`.
    pub open spec fn after_write_step(self, now: u64) -> SessionView {
        match self.write_step(now) {
            WriteStepView::Send(_) => SessionView { outbound: self.outbound.drop_first(), ..self },
            WriteStepView::Ping(_) => SessionView { idle_since: now, ..self },
            WriteStepView::CloseFrame => SessionView { close_frame_given: true, ..self },
            _ => self,
        }
    }

    /// After the write loop reported at `now` how sending a message went.
    pub open spec fn after_written(self, written: WrittenView, now: u64) -> SessionView {
        if self.state != SessionState::Open {
            self
        } else {
            match written {
                WrittenView::Sent => SessionView { idle_since: now, ready: true, ..self },
                WrittenView::EncodeFailed => self,
                WrittenView::SendFailed { message } => self.closed_with(
                    Some(SessionErrorView::Transport { message }),
                ),
            }
        }
    }

    /// After the shutdown signal.
    pub open spec fn after_shutdown(self) -> SessionView {
        if self.state == SessionState::Closed {
            self
        } else {
            self.closed_with(None)
        }
    }
}

/// One session of the proxy with the control plane.
#[derive(Debug)]
pub struct Session {
    state: SessionState,
    conn_id: Option<String>,
    error: Option<SessionError>,
    inactivity_timeout: u64,
    idle_since: u64,
    outbound: VecDeque<ProxyMessage>,
    announced: bool,
    ready: bool,
    close_frame_given: bool,
}

impl View for Session {
    type V = SessionView;

    closed spec fn view(&self) -> SessionView {
        SessionView {
            state: self.state,
            conn_id: text_view(self.conn_id),
            error: error_view(self.error),
            inactivity_timeout: self.inactivity_timeout,
            idle_since: self.idle_since,
            outbound: messages_view(self.outbound@),
            announced: self.announced,
            ready: self.ready,
            close_frame_given: self.close_frame_given,
        }
    }
}

impl Session {
    /// A session that waits for the answer to its handshake. It pings after
    /// `inactivity_timeout` milliseconds without a frame sent.
    pub fn new(inactivity_timeout: u64) -> (res: Session)
        ensures
            res@ == SessionView::connecting(inactivity_timeout),
    {
        let outbound: VecDeque<ProxyMessage> = VecDeque::new();
        assert(messages_view(outbound@) =~= Seq::<ProxyMessageView>::empty());
        Session {
            state: SessionState::Connecting,
            conn_id: None,
            error: None,
            inactivity_timeout,
            idle_since: 0,
            outbound,
            announced: false,
            ready: false,
            close_frame_given: false,
        }
    }

    /// Where the session stands.
    pub fn state(&self) -> (res: SessionState)
        ensures
            res == self@.state,
    {
        self.state
    }

    /// Whether the session is over.
    pub fn closed(&self) -> (res: bool)
        ensures
            res == (self@.state == SessionState::Closed),
    {
        match self.state {
            SessionState::Closed => true,
            _ => false,
        }
    }

    /// Whether the session is open and the peer has the list of data sources,
    /// so that requests can be served.
    pub fn ready(&self) -> (res: bool)
        ensures
            res == (self@.state == SessionState::Open && self@.ready),
    {
        match self.state {
            SessionState::Open => self.ready,
            _ => false,
        }
    }

    /// Whether the list of data sources has been queued.
    pub fn announced(&self) -> (res: bool)
        ensures
            res == self@.announced,
    {
        self.announced
    }

    /// The name that the peer gave the connection.
    pub fn conn_id(&self) -> (res: Option<String>)
        ensures
            text_view(res) == self@.conn_id,
    {
        match &self.conn_id {
            Some(id) => Some(id.clone()),
            None => None,
        }
    }

    /// How the session ended: `Ok` while it runs and after a shutdown, the
    /// error after anything else.
    pub fn outcome(&self) -> (res: Result<(), SessionError>)
        ensures
            res is Ok <==> self@.error is None,
            res matches Err(e) ==> self@.error == Some(e@),
    {
        match &self.error {
            Some(e) => Err(e.clone()),
            None => Ok(()),
        }
    }

    /// How many messages wait to be sent.
    pub fn pending(&self) -> (res: usize)
        ensures
            res == self@.outbound.len(),
    {
        self.outbound.len()
    }

    /// Takes the answer to the handshake.
    ///
    /// An accepted upgrade that names its connection opens the session. One
    /// that names none closes it with `MissingConnId`, a refusal with the
    /// HTTP status, a failure with the transport error. A session that is
    /// not connecting ignores the answer.
    pub fn on_handshake(&mut self, outcome: HandshakeOutcome, now: u64)
        ensures
            final(self)@ == old(self)@.after_handshake(outcome@, now),
    {
        match self.state {
            SessionState::Connecting => {},
            _ => {
                return ;
            },
        }
        match outcome {
            HandshakeOutcome::Accepted { conn_id: Some(id) } => {
                self.state = SessionState::Open;
                self.conn_id = Some(id);
                self.idle_since = now;
            },
            HandshakeOutcome::Accepted { conn_id: None } => {
                self.state = SessionState::Closed;
                self.error = Some(SessionError::Handshake(HandshakeError::MissingConnId));
            },
            HandshakeOutcome::Rejected { status } => {
                self.state = SessionState::Closed;
                self.error = Some(SessionError::Handshake(HandshakeError::Http { status }));
            },
            HandshakeOutcome::Failed { message } => {
                self.state = SessionState::Closed;
                self.error = Some(SessionError::Transport { message });
            },
        }
    }

    /// Offers a message for sending. It is queued behind those that wait,
    /// unless the session is not open or the message would go before the
    /// list of data sources; then it is dropped and `false` is returned.
    pub fn outbound(&mut self, message: ProxyMessage) -> (accepted: bool)
        ensures
            accepted == old(self)@.accepts(message@),
            final(self)@ == old(self)@.after_outbound(message@),
    {
        let open = match self.state {
            SessionState::Open => true,
            _ => false,
        };
        let announces = match &message {
            ProxyMessage::SetDataSources(_) => true,
            _ => false,
        };
        if open && (self.announced || announces) {
            let ghost waiting = self.outbound@;
            self.outbound.push_back(message);
            self.announced = true;
            assert(messages_view(self.outbound@) =~= messages_view(waiting).push(message@));
            true
        } else {
            false
        }
    }

    /// Takes what the read loop read and says how the loop goes on.
    ///
    /// A decoded message is handed on. A frame that does not decode, a text
    /// frame, a ping and a pong change nothing. A close frame, a read error
    /// and the end of the stream close the session. A session that is not
    /// open stops the loop whatever was read.
    pub fn on_frame(&mut self, frame: Frame) -> (step: ReadStep)
        ensures
            step@ == old(self)@.read_step(frame@),
            final(self)@ == old(self)@.after_frame(frame@),
    {
        match self.state {
            SessionState::Open => {},
            _ => {
                return ReadStep::Stop;
            },
        }
        match frame {
            Frame::Message(message) => ReadStep::Dispatch(message),
            Frame::Malformed => ReadStep::Continue,
            Frame::Text => ReadStep::Continue,
            Frame::Ping => ReadStep::Continue,
            Frame::Pong => ReadStep::Continue,
            Frame::Close => {
                proof {
                    reveal_strlit("connection closed by peer");
                }
                self.state = SessionState::Closed;
                self.error = Some(
                    SessionError::Transport {
                        message: String::from_str("connection closed by peer"),
                    },
                );
                ReadStep::Stop
            },
            Frame::Failed { message } => {
                self.state = SessionState::Closed;
                self.error = Some(SessionError::Transport { message });
                ReadStep::Stop
            },
            Frame::End => {
                proof {
                    reveal_strlit("connection ended");
                }
                self.state = SessionState::Closed;
                self.error = Some(
                    SessionError::Transport { message: String::from_str("connection ended") },
                );
                ReadStep::Stop
            },
        }
    }

    /// Says what the write loop does at `now`, a time in milliseconds on a
    /// clock that does not run backwards.
    ///
    /// While the session is open, the oldest waiting message is sent. Where
    /// none waits and nothing was sent for the whole of the timeout, a ping
    /// with the payload `ping` is sent and the timeout starts anew. Else the
    /// loop waits. After the session has closed, the loop is told once to
    /// send a close frame, if the session had opened, and then to stop.
    pub fn next_write(&mut self, now: u64) -> (step: WriteStep)
        ensures
            step@ == old(self)@.write_step(now),
            final(self)@ == old(self)@.after_write_step(now),
    {
        match self.state {
            SessionState::Connecting => WriteStep::Stop,
            SessionState::Closed => {
                if self.conn_id.is_some() && !self.close_frame_given {
                    self.close_frame_given = true;
                    WriteStep::CloseFrame
                } else {
                    WriteStep::Stop
                }
            },
            SessionState::Open => {
                let ghost waiting = self.outbound@;
                match self.outbound.pop_front() {
                    Some(message) => {
                        assert(messages_view(self.outbound@) =~= messages_view(
                            waiting,
                        ).drop_first());
                        WriteStep::Send(message)
                    },
                    None => {
                        let idle = if now >= self.idle_since {
                            now - self.idle_since
                        } else {
                            0
                        };
                        if idle >= self.inactivity_timeout {
                            self.idle_since = now;
                            let mut payload: Vec<u8> = Vec::new();
                            payload.push(112);
                            payload.push(105);
                            payload.push(110);
                            payload.push(103);
                            assert(payload@ =~= ping_payload());
                            WriteStep::Ping(payload)
                        } else {
                            let deadline = if self.inactivity_timeout > u64::MAX
                                - self.idle_since {
                                u64::MAX
                            } else {
                                self.idle_since + self.inactivity_timeout
                            };
                            WriteStep::Wait { deadline }
                        }
                    },
                }
            },
        }
    }

    /// Takes the report of the write loop on the message it was told to send.
    ///
    /// A sent frame starts the timeout anew. A message that could not be
    /// encoded is dropped and the session goes on. A frame that the
    /// transport refused closes the session.
    pub fn on_written(&mut self, written: Written, now: u64)
        ensures
            final(self)@ == old(self)@.after_written(written@, now),
    {
        match self.state {
            SessionState::Open => {},
            _ => {
                return ;
            },
        }
        match written {
            Written::Sent => {
                self.idle_since = now;
                self.ready = true;
            },
            Written::EncodeFailed => {},
            Written::SendFailed { message } => {
                self.state = SessionState::Closed;
                self.error = Some(SessionError::Transport { message });
            },
        }
    }

    /// Takes the shutdown signal: the session closes without an error.
    pub fn shutdown(&mut self)
        ensures
            final(self)@ == old(self)@.after_shutdown(),
    {
        match self.state {
            SessionState::Closed => {},
            _ => {
                self.state = SessionState::Closed;
                self.error = None;
            },
        }
    }
}

/// A closed session stays closed: whatever happens to it, it neither opens
/// again nor forgets why it closed.
pub proof fn lemma_closed_is_terminal(
    session: SessionView,
    outcome: HandshakeOutcomeView,
    message: ProxyMessageView,
    frame: FrameView,
    written: WrittenView,
    now: u64,
)
    requires
        session.state == SessionState::Closed,
    ensures
        session.after_handshake(outcome, now) == session,
        session.after_outbound(message) == session,
        session.after_frame(frame) == session,
        session.after_written(written, now) == session,
        session.after_shutdown() == session,
        session.after_write_step(now).state == SessionState::Closed,
        session.after_write_step(now).error == session.error,
{
}

/// Nothing is written after the session has closed: no message is taken
/// into the queue, none is handed to the write loop and no ping is sent.
/// The read loop is stopped as well.
pub proof fn lemma_no_write_after_close(
    session: SessionView,
    message: ProxyMessageView,
    frame: FrameView,
    now: u64,
)
    requires
        session.state == SessionState::Closed,
    ensures
        !session.accepts(message),
        !session.write_step(now).writes(),
        session.read_step(frame) == ReadStepView::Stop,
{
}

/// The close frame is handed out at most once, and only for a session that
/// had opened.
pub proof fn lemma_one_close_frame(session: SessionView, now: u64, later: u64)
    ensures
        session.write_step(now) is CloseFrame ==> session.state == SessionState::Closed
            && session.conn_id is Some,
        session.write_step(now) is CloseFrame ==> session.after_write_step(now).write_step(later)
            == WriteStepView::Stop,
{
}

/// The keep-alive: an open session with nothing to send pings exactly when
/// nothing was sent for the whole of the timeout, and then the timeout
/// starts anew, so that no second ping follows before it has passed again.
/// Every sent frame starts the timeout anew as well.
pub proof fn lemma_keep_alive(session: SessionView, now: u64, later: u64)
    requires
        session.state == SessionState::Open,
        session.outbound.len() == 0,
        now <= later,
    ensures
        session.write_step(now) is Ping <==> elapsed(now, session.idle_since)
            >= session.inactivity_timeout,
        session.write_step(now) is Ping ==> session.write_step(now) == WriteStepView::Ping(
            ping_payload(),
        ),
        session.write_step(now) is Ping && later - now < session.inactivity_timeout
            ==> !(session.after_write_step(now).write_step(later) is Ping),
        session.write_step(now) is Ping && later - now >= session.inactivity_timeout
            ==> session.after_write_step(now).write_step(later) is Ping,
        later - now < session.inactivity_timeout ==> !(session.after_written(
            WrittenView::Sent,
            now,
        ).write_step(later) is Ping),
{
}

/// Messages leave in the order in which they were queued: the write loop is
/// handed the oldest, and a new one goes behind all that wait.
pub proof fn lemma_first_in_first_out(session: SessionView, message: ProxyMessageView, now: u64)
    requires
        session.state == SessionState::Open,
        session.accepts(message),
    ensures
        session.outbound.len() > 0 ==> session.after_outbound(message).write_step(now)
            == WriteStepView::Send(session.outbound[0]),
        session.outbound.len() == 0 ==> session.after_outbound(message).write_step(now)
            == WriteStepView::Send(message),
        session.after_outbound(message).outbound.last() == message,
{
}

/// The list of data sources goes first: until it has been queued, the
/// session takes no other message.
pub proof fn lemma_data_sources_go_first(session: SessionView, message: ProxyMessageView)
    requires
        !session.announced,
        session.outbound.len() == 0,
    ensures
        session.accepts(message) ==> message is SetDataSources,
        session.after_outbound(message).outbound.len() > 0 ==> session.after_outbound(
            message,
        ).outbound[0] is SetDataSources,
        !session.after_outbound(message).announced ==> session.after_outbound(
            message,
        ).outbound.len() == 0,
{
}

} // verus!
