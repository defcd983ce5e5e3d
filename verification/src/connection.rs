//! One run of the proxy: the supervisor, the session of the moment, its
//! dispatcher and its health checker, wired together.
//!
//! The caller performs what a step asks for (it opens the socket, runs a
//! provider, waits) and reports what came of it. Every report goes through
//! one of the methods here, which hands it to the parts it concerns.

use vstd::multiset::Multiset;
use vstd::prelude::*;

use crate::dispatcher::{
    outcome_view, Dispatch, DispatchView, Dispatcher, DispatcherView, Invocation, InvocationView,
};
use crate::error::{HandshakeError, SessionError, SessionErrorView};
use crate::executor::{
    conclude, conclude_probe, probe_result_of, result_of, SandboxOutcome, SandboxOutcomeView,
};
use crate::handshake::{
    auth_header_text, HandshakeOutcome, HandshakeOutcomeView, HandshakeRequest,
};
use crate::health::{probes_of, probes_view, HealthChecker, HealthView, Probe, ProbeView};
use crate::model::{
    OpId, ProviderError, ProviderErrorView, ProxyMessageView, ServerMessageView,
};
use crate::service::{ProxyService, ServiceView};
use crate::session::{
    Frame, FrameView, ReadStep, ReadStepView, Session, SessionState, SessionView, WriteStep,
    Written, WrittenView,
};
use crate::supervisor::{
    health_body, health_reply, health_status, HealthReply, Next, NextView, Supervisor,
    SupervisorView,
};

verus! {

/// What the caller does next for the run.
#[derive(Debug, PartialEq, Eq)]
pub enum Step {
    /// Open the socket with this request and report the answer.
    Connect(HandshakeRequest),
    /// The session is open: run these status requests, report each, then
    /// report the end of the round.
    Probe(Vec<Probe>),
    /// Wait this many milliseconds, then begin again.
    RetryAfter { millis: u64 },
    /// The run is over with this result.
    Finish(Result<(), SessionError>),
    /// Nothing is to be done.
    Continue,
}

/// View of a `Step`.
pub enum StepView {
    Connect { url: Seq<char>, auth_header: Seq<char>, auth_token: Seq<char> },
    Probe(Seq<ProbeView>),
    RetryAfter { millis: u64 },
    Finish(Result<(), SessionErrorView>),
    Continue,
}

impl View for Step {
    type V = StepView;

    open spec fn view(&self) -> StepView {
        match *self {
            Step::Connect(request) => StepView::Connect {
                url: request.url@,
                auth_header: request.auth_header@,
                auth_token: request.auth_token@,
            },
            Step::Probe(probes) => StepView::Probe(probes_view(probes@)),
            Step::RetryAfter { millis } => StepView::RetryAfter { millis },
            Step::Finish(result) => StepView::Finish(
                match result {
                    Ok(_) => Ok(()),
                    Err(e) => Err(e@),
                },
            ),
            Step::Continue => StepView::Continue,
        }
    }
}

/// What the read loop does after a frame.
#[derive(Debug, PartialEq, Eq)]
pub enum Reading {
    /// Run this invocation on a worker, report what it brought, and read on.
    Run(Invocation),
    /// Read on.
    Continue,
    /// Leave the loop.
    Stop,
}

/// View of a `Reading`.
pub enum ReadingView {
    Run(InvocationView),
    Continue,
    Stop,
}

impl View for Reading {
    type V = ReadingView;

    open spec fn view(&self) -> ReadingView {
        match *self {
            Reading::Run(i) => ReadingView::Run(i@),
            Reading::Continue => ReadingView::Continue,
            Reading::Stop => ReadingView::Stop,
        }
    }
}

/// The state of a run.
pub struct ConnectionView {
    pub supervisor: SupervisorView,
    pub session: SessionView,
    pub dispatcher: DispatcherView,
    pub health: HealthView,
}

/// The result of a session, as the supervisor takes it.
pub open spec fn session_result(session: SessionView) -> Result<(), SessionErrorView> {
    match session.error {
        Some(e) => Err(e),
        None => Ok(()),
    }
}

/// A pool of `workers` workers, one at least, with nothing running and
/// nothing waiting.
pub open spec fn idle_pool(workers: nat) -> DispatcherView {
    DispatcherView {
        max_concurrent: if workers == 0 {
            1
        } else {
            workers
        },
        running: Multiset::empty(),
        queue: Seq::empty(),
    }
}

impl ConnectionView {
    /// The parts of a new attempt: a session that connects, an idle pool,
    /// and every data source with the status that the registry gave it.
    pub open spec fn renewed(self, service: ServiceView) -> ConnectionView {
        ConnectionView {
            supervisor: self.supervisor,
            session: SessionView::connecting(service.inactivity_timeout),
            dispatcher: idle_pool(service.max_concurrent_requests),
            health: HealthView {
                sources: service.registry.data_sources,
                published: None,
                checked: false,
            },
        }
    }

    /// The state in which a run starts.
    pub open spec fn fresh(service: ServiceView) -> ConnectionView {
        ConnectionView {
            supervisor: SupervisorView {
                max_retries: service.max_retries,
                failures: 0,
                connected: false,
                stopping: false,
            },
            session: SessionView::connecting(service.inactivity_timeout),
            dispatcher: idle_pool(service.max_concurrent_requests),
            health: HealthView {
                sources: service.registry.data_sources,
                published: None,
                checked: false,
            },
        }
    }

    /// What `begin` asks for: the handshake, unless the run was told to
    /// stop or the request cannot be built. While a session is open nothing
    /// begins, and a session that has closed is ended first.
    pub open spec fn on_begin(self, service: ServiceView) -> StepView {
        match self.session.state {
            SessionState::Open => StepView::Continue,
            SessionState::Closed => self.on_end(),
            SessionState::Connecting => if self.supervisor.stopping {
                StepView::Finish(Ok(()))
            } else if service.request_accepted() {
                StepView::Connect {
                    url: service.url(),
                    auth_header: auth_header_text(),
                    auth_token: service.token,
                }
            } else {
                StepView::Finish(Err(SessionErrorView::Handshake(HandshakeError::InvalidRequest)))
            },
        }
    }

    /// After `begin`.
    pub open spec fn after_begin(self, service: ServiceView) -> ConnectionView {
        self.after_end(service)
    }

    /// What follows the end of the session: a retry or the end of the run.
    pub open spec fn on_end(self) -> StepView {
        if self.session.state != SessionState::Closed {
            StepView::Continue
        } else {
            match self.supervisor.on_closed(session_result(self.session)) {
                NextView::RetryAfter { millis } => StepView::RetryAfter { millis },
                NextView::Finish(result) => StepView::Finish(result),
                NextView::Connect => StepView::Continue,
            }
        }
    }

    /// After the end of the session: before a retry every part but the
    /// supervisor starts anew.
    pub open spec fn after_end(self, service: ServiceView) -> ConnectionView {
        if self.session.state != SessionState::Closed {
            self
        } else {
            let supervisor = self.supervisor.after_closed(session_result(self.session));
            if self.on_end() is RetryAfter {
                ConnectionView { supervisor, ..self.renewed(service) }
            } else {
                ConnectionView { supervisor, ..self }
            }
        }
    }

    /// The state once the session has taken the answer to the handshake.
    pub open spec fn answered(self, outcome: HandshakeOutcomeView, now: u64) -> ConnectionView {
        let session = self.session.after_handshake(outcome, now);
        if session.state == SessionState::Open {
            ConnectionView { session, supervisor: self.supervisor.after_open(), ..self }
        } else {
            ConnectionView { session, ..self }
        }
    }

    /// What follows the answer to the handshake: the first round of probes
    /// where the session opened, else what follows the end of a session.
    pub open spec fn on_handshake(
        self,
        service: ServiceView,
        outcome: HandshakeOutcomeView,
        now: u64,
    ) -> StepView {
        if self.session.state != SessionState::Connecting {
            StepView::Continue
        } else if self.answered(outcome, now).session.state == SessionState::Open {
            StepView::Probe(probes_of(service.registry, self.health.sources))
        } else {
            self.answered(outcome, now).on_end()
        }
    }

    /// After the answer to the handshake.
    pub open spec fn after_handshake(
        self,
        service: ServiceView,
        outcome: HandshakeOutcomeView,
        now: u64,
    ) -> ConnectionView {
        if self.session.state != SessionState::Connecting {
            self
        } else if self.answered(outcome, now).session.state == SessionState::Open {
            self.answered(outcome, now)
        } else {
            self.answered(outcome, now).after_end(service)
        }
    }

    /// After a status request came back.
    pub open spec fn after_probe(
        self,
        name: Seq<char>,
        outcome: SandboxOutcomeView,
    ) -> ConnectionView {
        ConnectionView { health: self.health.after_record(name, probe_result_of(outcome)), ..self }
    }

    /// What the end of a round of probes sends: the list in any case at the
    /// first round of a session, afterwards what the health checker decides.
    pub open spec fn round_message(self) -> Option<ProxyMessageView> {
        if self.session.state != SessionState::Open {
            None
        } else if !self.session.announced {
            Some(self.health.snapshot())
        } else {
            self.health.on_check()
        }
    }

    /// After a round of probes.
    pub open spec fn after_round(self) -> ConnectionView {
        if self.session.state != SessionState::Open {
            self
        } else {
            ConnectionView {
                health: if !self.session.announced {
                    self.health.after_announce()
                } else {
                    self.health.after_check()
                },
                session: match self.round_message() {
                    Some(m) => self.session.after_outbound(m),
                    None => self.session,
                },
                ..self
            }
        }
    }

    /// What the read loop does with `frame`.
    pub open spec fn on_frame(self, service: ServiceView, frame: FrameView) -> ReadingView {
        match self.session.read_step(frame) {
            ReadStepView::Dispatch(m) => match self.dispatcher.decide(service.registry, m) {
                DispatchView::Start(invocation) => ReadingView::Run(invocation),
                _ => ReadingView::Continue,
            },
            ReadStepView::Continue => ReadingView::Continue,
            ReadStepView::Stop => ReadingView::Stop,
        }
    }

    /// After `frame` was read: a message went to the dispatcher, and what
    /// the dispatcher answered at once went into the queue of the session.
    pub open spec fn after_frame(self, service: ServiceView, frame: FrameView) -> ConnectionView {
        match self.session.read_step(frame) {
            ReadStepView::Dispatch(m) => ConnectionView {
                session: match self.dispatcher.decide(service.registry, m) {
                    DispatchView::Reply(reply) => self.session.after_frame(frame).after_outbound(
                        reply,
                    ),
                    _ => self.session.after_frame(frame),
                },
                dispatcher: self.dispatcher.after_submit(service.registry, m),
                ..self
            },
            _ => ConnectionView { session: self.session.after_frame(frame), ..self },
        }
    }

    /// The waiting request that is run when the worker of `op` comes back:
    /// the oldest, while the session is open.
    pub open spec fn on_result(
        self,
        op: OpId,
        result: Result<Seq<u8>, ProviderErrorView>,
    ) -> Option<InvocationView> {
        if self.session.state == SessionState::Open {
            self.dispatcher.on_complete(op, result).next
        } else {
            None
        }
    }

    /// After the worker of `op` came back: its answer went into the queue
    /// of the session.
    pub open spec fn after_result(
        self,
        op: OpId,
        result: Result<Seq<u8>, ProviderErrorView>,
    ) -> ConnectionView {
        ConnectionView {
            session: match self.dispatcher.on_complete(op, result).reply {
                Some(reply) => self.session.after_outbound(reply),
                None => self.session,
            },
            dispatcher: self.dispatcher.after_complete(op),
            ..self
        }
    }

    /// After the shutdown signal.
    pub open spec fn after_shutdown(self) -> ConnectionView {
        ConnectionView {
            supervisor: self.supervisor.after_shutdown(),
            session: self.session.after_shutdown(),
            ..self
        }
    }
}

/// One run of the proxy.
#[derive(Debug)]
pub struct Connection {
    supervisor: Supervisor,
    session: Session,
    dispatcher: Dispatcher,
    health: HealthChecker,
}

impl View for Connection {
    type V = ConnectionView;

    closed spec fn view(&self) -> ConnectionView {
        ConnectionView {
            supervisor: self.supervisor@,
            session: self.session@,
            dispatcher: self.dispatcher@,
            health: self.health@,
        }
    }
}

impl ProxyService {
    /// Starts a run: nothing is connected yet and no session has failed.
    pub fn connect(&self) -> (res: Connection)
        ensures
            res@ == ConnectionView::fresh(self@),
    {
        Connection {
            supervisor: Supervisor::new(self.max_retries()),
            session: Session::new(self.inactivity_timeout()),
            dispatcher: Dispatcher::new(self.max_concurrent_requests()),
            health: HealthChecker::new(self.registry()),
        }
    }
}

impl Connection {
    /// Whether the session of the moment is open.
    pub fn is_open(&self) -> (res: bool)
        ensures
            res == (self@.session.state == SessionState::Open),
    {
        match self.session.state() {
            SessionState::Open => true,
            _ => false,
        }
    }

    /// Whether the session is open and the peer has the list of data
    /// sources: from then on frames are read and requests are served.
    pub fn ready(&self) -> (res: bool)
        ensures
            res == (self@.session.state == SessionState::Open && self@.session.ready),
    {
        self.session.ready()
    }

    /// How many requests are on a worker.
    pub fn running(&self) -> (res: usize)
        ensures
            res == self@.dispatcher.running.len(),
    {
        self.dispatcher.running()
    }

    /// Begins an attempt: asks for the handshake.
    ///
    /// The run ends at once where it was told to stop, and with
    /// `InvalidRequest` where the request cannot be built: trying again
    /// would not mend that. A session that has closed is ended first, as
    /// by `end`; while a session is open nothing begins.
    pub fn begin(&mut self, service: &ProxyService) -> (step: Step)
        ensures
            step@ == old(self)@.on_begin(service@),
            final(self)@ == old(self)@.after_begin(service@),
    {
        match self.session.state() {
            SessionState::Connecting => {},
            SessionState::Open => {
                return Step::Continue;
            },
            SessionState::Closed => {
                return self.end(service);
            },
        }
        match self.supervisor.start() {
            Next::Connect => match service.handshake() {
                Ok(request) => Step::Connect(request),
                Err(e) => Step::Finish(Err(e)),
            },
            Next::RetryAfter { millis } => Step::Continue,
            Next::Finish(result) => Step::Finish(result),
        }
    }

    /// Ends the session of the moment and says what follows: a retry
    /// after the backoff, with every part but the supervisor started anew,
    /// or the end of the run. While the session is not closed nothing ends.
    pub fn end(&mut self, service: &ProxyService) -> (step: Step)
        ensures
            step@ == old(self)@.on_end(),
            final(self)@ == old(self)@.after_end(service@),
    {
        if !self.session.closed() {
            return Step::Continue;
        }
        match self.supervisor.on_closed(self.session.outcome()) {
            Next::RetryAfter { millis } => {
                self.session = Session::new(service.inactivity_timeout());
                self.dispatcher = Dispatcher::new(service.max_concurrent_requests());
                self.health = HealthChecker::new(service.registry());
                Step::RetryAfter { millis }
            },
            Next::Finish(result) => Step::Finish(result),
            Next::Connect => Step::Continue,
        }
    }

    /// Takes the answer to the handshake.
    ///
    /// Where the session opens, the failures are forgotten and the first
    /// round of probes is asked for. Where it does not, the session has
    /// ended and the supervisor decides.
    pub fn on_handshake(
        &mut self,
        service: &ProxyService,
        outcome: HandshakeOutcome,
        now: u64,
    ) -> (step: Step)
        ensures
            step@ == old(self)@.on_handshake(service@, outcome@, now),
            final(self)@ == old(self)@.after_handshake(service@, outcome@, now),
    {
        match self.session.state() {
            SessionState::Connecting => {},
            _ => {
                return Step::Continue;
            },
        }
        self.session.on_handshake(outcome, now);
        match self.session.state() {
            SessionState::Open => {
                self.supervisor.on_open();
                Step::Probe(self.health.probes(service.registry()))
            },
            _ => self.end(service),
        }
    }

    /// Takes what a status request for the data source `name` brought.
    pub fn on_probe(&mut self, name: &str, outcome: SandboxOutcome)
        ensures
            final(self)@ == old(self)@.after_probe(name@, outcome@),
    {
        self.health.record(name, conclude_probe(outcome));
    }

    /// The status requests of the next round.
    pub fn probes(&self, service: &ProxyService) -> (res: Vec<Probe>)
        ensures
            probes_view(res@) == probes_of(service@.registry, self@.health.sources),
    {
        self.health.probes(service.registry())
    }

    /// Concludes a round of probes and queues what is to be told: the list
    /// of data sources in any case after the first round of a session,
    /// afterwards only where the health checker finds a reason. Returns
    /// whether a list was queued.
    pub fn round_done(&mut self) -> (queued: bool)
        ensures
            queued == old(self)@.round_message() is Some,
            final(self)@ == old(self)@.after_round(),
    {
        if !self.is_open() {
            return false;
        }
        let message = if !self.session.announced() {
            Some(self.health.announce())
        } else {
            self.health.check()
        };
        match message {
            Some(m) => {
                self.session.outbound(m);
                true
            },
            None => false,
        }
    }

    /// Takes what the read loop read.
    ///
    /// A decoded message goes to the dispatcher. What the dispatcher
    /// answers at once is queued for sending; what it hands to a worker is
    /// returned to be run.
    pub fn on_frame(&mut self, service: &ProxyService, frame: Frame) -> (reading: Reading)
        ensures
            reading@ == old(self)@.on_frame(service@, frame@),
            final(self)@ == old(self)@.after_frame(service@, frame@),
    {
        match self.session.on_frame(frame) {
            ReadStep::Dispatch(message) => {
                match self.dispatcher.submit(service.registry(), message) {
                    Dispatch::Reply(reply) => {
                        self.session.outbound(reply);
                        Reading::Continue
                    },
                    Dispatch::Start(invocation) => Reading::Run(invocation),
                    Dispatch::Queued => Reading::Continue,
                    Dispatch::Ignored => Reading::Continue,
                }
            },
            ReadStep::Continue => Reading::Continue,
            ReadStep::Stop => Reading::Stop,
        }
    }

    /// Takes back the worker of request `op_id` with what the sandbox
    /// brought: see `on_result`.
    pub fn on_done(&mut self, op_id: OpId, outcome: SandboxOutcome) -> (next: Option<Invocation>)
        ensures
            match next {
                Some(i) => Some(i@),
                None => None,
            } == old(self)@.on_result(op_id, result_of(outcome@)),
            final(self)@ == old(self)@.after_result(op_id, result_of(outcome@)),
    {
        self.on_result(op_id, conclude(outcome))
    }

    /// Takes back the worker of request `op_id` with the result of the
    /// invocation. The answer is queued for sending, unless the session has
    /// closed meanwhile: then it is dropped. Returns the waiting request
    /// that takes the worker, while the session is open.
    pub fn on_result(
        &mut self,
        op_id: OpId,
        result: Result<Vec<u8>, ProviderError>,
    ) -> (next: Option<Invocation>)
        ensures
            match next {
                Some(i) => Some(i@),
                None => None,
            } == old(self)@.on_result(op_id, outcome_view(result)),
            final(self)@ == old(self)@.after_result(op_id, outcome_view(result)),
    {
        let completion = self.dispatcher.complete(op_id, result);
        match completion.reply {
            Some(reply) => {
                self.session.outbound(reply);
            },
            None => {},
        }
        if self.is_open() {
            completion.next
        } else {
            None
        }
    }

    /// Says what the write loop does at `now`.
    pub fn next_write(&mut self, now: u64) -> (step: WriteStep)
        ensures
            step@ == old(self)@.session.write_step(now),
            final(self)@ == (ConnectionView {
                session: old(self)@.session.after_write_step(now),
                ..old(self)@
            }),
    {
        self.session.next_write(now)
    }

    /// Takes the report of the write loop on the message it was told to send.
    pub fn on_written(&mut self, written: Written, now: u64)
        ensures
            final(self)@ == (ConnectionView {
                session: old(self)@.session.after_written(written@, now),
                ..old(self)@
            }),
    {
        self.session.on_written(written, now);
    }

    /// Takes the shutdown signal: the session closes without an error and
    /// no other is opened.
    pub fn shutdown(&mut self)
        ensures
            final(self)@ == old(self)@.after_shutdown(),
    {
        self.supervisor.shutdown();
        self.session.shutdown();
    }

    /// Answers a request to the local health endpoint: `/health` is well
    /// while the session is open.
    pub fn health_reply(&self, path: &str) -> (reply: HealthReply)
        ensures
            reply.status == health_status(path@, self@.session.state == SessionState::Open),
            reply.body@ == health_body(path@),
    {
        health_reply(path, self.is_open())
    }
}

/// No answer is lost on its way out. While the session is open and the
/// list of data sources has been queued, whatever the dispatcher answers,
/// at once or when a worker comes back, goes to the end of the queue of the
/// session, and it carries the id of the request that it answers.
pub proof fn lemma_answers_are_queued(
    run: ConnectionView,
    service: ServiceView,
    frame: FrameView,
    op: OpId,
    result: Result<Seq<u8>, ProviderErrorView>,
)
    requires
        run.session.state == SessionState::Open,
        run.session.announced,
    ensures
        match frame {
            FrameView::Message(m) => match run.dispatcher.decide(service.registry, m) {
                DispatchView::Reply(reply) => {
                    &&& run.after_frame(service, frame).session.outbound
                        == run.session.outbound.push(reply)
                    &&& reply.answers(m.op_id())
                },
                _ => run.after_frame(service, frame).session.outbound == run.session.outbound,
            },
            _ => run.after_frame(service, frame).session.outbound == run.session.outbound,
        },
        match run.dispatcher.on_complete(op, result).reply {
            Some(reply) => {
                &&& run.after_result(op, result).session.outbound == run.session.outbound.push(
                    reply,
                )
                &&& reply.answers(op)
            },
            None => run.after_result(op, result).session.outbound == run.session.outbound,
        },
{
}

/// A closed session takes nothing more: what the dispatcher answers after
/// the session has closed is dropped, and no waiting request is started.
pub proof fn lemma_closed_session_drops_answers(
    run: ConnectionView,
    service: ServiceView,
    frame: FrameView,
    op: OpId,
    result: Result<Seq<u8>, ProviderErrorView>,
)
    requires
        run.session.state == SessionState::Closed,
    ensures
        run.after_frame(service, frame).session == run.session,
        run.after_frame(service, frame).dispatcher == run.dispatcher,
        run.on_frame(service, frame) == ReadingView::Stop,
        run.after_result(op, result).session == run.session,
        run.on_result(op, result) is None,
        run.after_round() == run,
{
}

/// A round of probes leaves the peer informed. While the session is open,
/// after a round the list that was sent last shows every status as it is;
/// where the round queued a list it is the list of the moment, and where it
/// queued none, the peer had it already.
pub proof fn lemma_round_leaves_peer_informed(run: ConnectionView)
    requires
        run.session.state == SessionState::Open,
    ensures
        run.after_round().health.up_to_date(),
        run.round_message() matches Some(message) ==> message == run.health.snapshot()
            && run.after_round().session.outbound == run.session.outbound.push(message),
        run.round_message() is None ==> run.health.up_to_date() && run.after_round().session
            == run.session,
{
}

/// How failures are dealt with while a session is open and announced.
///
/// A frame that does not decode and a message that does not encode are
/// dropped and the session goes on. A request for an unknown data source
/// and a provider that fails are answered to the peer with an error, and
/// the session goes on. A frame that cannot be sent, a read error, a close
/// frame of the peer, the end of the stream and the shutdown signal close
/// the session; only the shutdown leaves no error behind.
pub proof fn lemma_failures_are_dealt_with(
    run: ConnectionView,
    service: ServiceView,
    request: ServerMessageView,
    op: OpId,
    error: ProviderErrorView,
    message: Seq<char>,
    now: u64,
)
    requires
        run.session.state == SessionState::Open,
        run.session.announced,
        request is InvokeProxyRequest,
        service.registry.lookup(request->data_source_name) is None,
        run.dispatcher.running.contains(op),
    ensures
        run.after_frame(service, FrameView::Malformed) == run,
        run.on_frame(service, FrameView::Malformed) == ReadingView::Continue,
        run.session.after_written(WrittenView::EncodeFailed, now) == run.session,
        run.after_frame(service, FrameView::Message(request)).session == run.session.after_outbound(
            ProxyMessageView::Error {
                op_id: Some(request.op_id()),
                error: ProviderErrorView::NotFound,
            },
        ),
        run.after_frame(service, FrameView::Message(request)).session.state == SessionState::Open,
        run.after_result(op, Err(error)).session == run.session.after_outbound(
            ProxyMessageView::Error { op_id: Some(op), error },
        ),
        run.after_result(op, Err(error)).session.state == SessionState::Open,
        run.session.after_written(WrittenView::SendFailed { message }, now).state
            == SessionState::Closed,
        run.after_frame(service, FrameView::Failed { message }).session.state
            == SessionState::Closed,
        run.after_frame(service, FrameView::Close).session.state == SessionState::Closed,
        run.after_frame(service, FrameView::End).session.state == SessionState::Closed,
        run.after_frame(service, FrameView::Failed { message }).session.error == Some(
            SessionErrorView::Transport { message },
        ),
        run.after_shutdown().session.state == SessionState::Closed,
        run.after_shutdown().session.error is None,
{
}

} // verus!
