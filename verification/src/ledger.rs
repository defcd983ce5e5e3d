//! The books of an open session: the requests that were read against the
//! answers that were handed to the write loop.
//!
//! `trace` follows the dispatcher alone. Here the whole run is followed,
//! from the frame that is read to the message that is written, through the
//! dispatcher and the queue of the session.

use vstd::prelude::*;

use crate::connection::ConnectionView;
use crate::dispatcher::DispatchView;
use crate::executor::SandboxOutcomeView;
use crate::model::{OpId, ProviderErrorView, ProxyMessageView, ServerMessageView};
use crate::service::ServiceView;
use crate::session::{FrameView, ReadStepView, SessionState, WriteStepView, WrittenView};
use crate::trace::{answers_to, lemma_event_balance, outstanding, Event};

verus! {

/// One thing that happens to a run while its session is open.
pub enum Happening {
    /// The read loop read a frame.
    Frame(FrameView),
    /// A worker came back.
    Result { op: OpId, result: Result<Seq<u8>, ProviderErrorView> },
    /// A status request came back.
    Probe { name: Seq<char>, outcome: SandboxOutcomeView },
    /// A round of probes is over.
    Round,
    /// The write loop asks for its next step.
    Write { now: u64 },
    /// The write loop reports on the message it sent.
    Written { written: WrittenView, now: u64 },
    /// The shutdown signal.
    Shutdown,
}

/// The run after `happening`.
pub open spec fn advance(
    run: ConnectionView,
    service: ServiceView,
    happening: Happening,
) -> ConnectionView {
    match happening {
        Happening::Frame(frame) => run.after_frame(service, frame),
        Happening::Result { op, result } => run.after_result(op, result),
        Happening::Probe { name, outcome } => run.after_probe(name, outcome),
        Happening::Round => run.after_round(),
        Happening::Write { now } => ConnectionView {
            session: run.session.after_write_step(now),
            ..run
        },
        Happening::Written { written, now } => ConnectionView {
            session: run.session.after_written(written, now),
            ..run
        },
        Happening::Shutdown => run.after_shutdown(),
    }
}

/// The message that `happening` hands to the write loop, if it hands it one.
pub open spec fn handed_out(run: ConnectionView, happening: Happening) -> Option<ProxyMessageView> {
    match happening {
        Happening::Write { now } => match run.session.write_step(now) {
            WriteStepView::Send(message) => Some(message),
            _ => None,
        },
        _ => None,
    }
}

/// The run after all of `happenings`, taken in order.
pub open spec fn advance_all(
    run: ConnectionView,
    service: ServiceView,
    happenings: Seq<Happening>,
) -> ConnectionView
    decreases happenings.len(),
{
    if happenings.len() == 0 {
        run
    } else {
        advance(advance_all(run, service, happenings.drop_last()), service, happenings.last())
    }
}

/// The messages handed to the write loop during all of `happenings`, in order.
pub open spec fn written_out(
    run: ConnectionView,
    service: ServiceView,
    happenings: Seq<Happening>,
) -> Seq<ProxyMessageView>
    decreases happenings.len(),
{
    if happenings.len() == 0 {
        Seq::empty()
    } else {
        let earlier = written_out(run, service, happenings.drop_last());
        match handed_out(advance_all(run, service, happenings.drop_last()), happenings.last()) {
            Some(message) => earlier.push(message),
            None => earlier,
        }
    }
}

/// Whether `happening` is the reading of an invoke request with the id `op`.
pub open spec fn reads_request(happening: Happening, op: OpId) -> bool {
    happening matches Happening::Frame(
        FrameView::Message(ServerMessageView::InvokeProxyRequest { op_id, .. }),
    ) && op_id == op
}

/// How many invoke requests with the id `op` were read during `happenings`.
pub open spec fn requests_read(happenings: Seq<Happening>, op: OpId) -> nat
    decreases happenings.len(),
{
    if happenings.len() == 0 {
        0
    } else {
        requests_read(happenings.drop_last(), op) + if reads_request(happenings.last(), op) {
            1nat
        } else {
            0nat
        }
    }
}

/// How many answers to request `op` the run still owes or holds: the
/// requests that run or wait in the dispatcher and the answers that wait
/// in the queue of the session.
pub open spec fn owed(run: ConnectionView, op: OpId) -> nat {
    outstanding(run.dispatcher, op) + answers_to(run.session.outbound, op)
}

proof fn lemma_answers_to_push(frames: Seq<ProxyMessageView>, frame: ProxyMessageView, op: OpId)
    ensures
        answers_to(frames.push(frame), op) == answers_to(frames, op) + if frame.answers(op) {
            1nat
        } else {
            0nat
        },
{
    assert(frames.push(frame).drop_last() =~= frames);
}

proof fn lemma_answers_to_drop_first(frames: Seq<ProxyMessageView>, op: OpId)
    requires
        frames.len() > 0,
    ensures
        answers_to(frames, op) == answers_to(frames.drop_first(), op) + if frames[0].answers(op) {
            1nat
        } else {
            0nat
        },
    decreases frames.len(),
{
    if frames.len() == 1 {
        assert(frames.drop_first() =~= Seq::<ProxyMessageView>::empty());
        assert(frames.drop_last() =~= Seq::<ProxyMessageView>::empty());
    } else {
        lemma_answers_to_drop_first(frames.drop_last(), op);
        assert(frames.drop_first().drop_last() =~= frames.drop_last().drop_first());
    }
}

/// One happening keeps the books: nothing is answered twice, and while
/// the session is open nothing is lost.
proof fn lemma_happening_balance(
    run: ConnectionView,
    service: ServiceView,
    happening: Happening,
    op: OpId,
)
    requires
        run.session.state != SessionState::Connecting,
        run.session.announced,
    ensures
        advance(run, service, happening).session.state != SessionState::Connecting,
        advance(run, service, happening).session.announced,
        run.session.state == SessionState::Closed ==> advance(run, service, happening).session.state
            == SessionState::Closed,
        (if handed_out(run, happening) matches Some(message) && message.answers(op) {
            1nat
        } else {
            0nat
        }) + owed(advance(run, service, happening), op) <= owed(run, op) + if reads_request(
            happening,
            op,
        ) {
            1nat
        } else {
            0nat
        },
        run.session.state == SessionState::Open ==> (if handed_out(run, happening) matches Some(
            message,
        ) && message.answers(op) {
            1nat
        } else {
            0nat
        }) + owed(advance(run, service, happening), op) == owed(run, op) + if reads_request(
            happening,
            op,
        ) {
            1nat
        } else {
            0nat
        },
{
    match happening {
        Happening::Frame(frame) => {
            match run.session.read_step(frame) {
                ReadStepView::Dispatch(message) => {
                    lemma_event_balance(
                        run.dispatcher,
                        service.registry,
                        Event::Message(message),
                        op,
                    );
                    match run.dispatcher.decide(service.registry, message) {
                        DispatchView::Reply(reply) => {
                            lemma_answers_to_push(run.session.outbound, reply, op);
                        },
                        _ => {},
                    }
                },
                _ => {},
            }
        },
        Happening::Result { op: done, result } => {
            lemma_event_balance(
                run.dispatcher,
                service.registry,
                Event::Done { op: done, outcome: result },
                op,
            );
            match run.dispatcher.on_complete(done, result).reply {
                Some(reply) => {
                    if run.session.state == SessionState::Open {
                        lemma_answers_to_push(run.session.outbound, reply, op);
                    }
                },
                None => {},
            }
        },
        Happening::Probe { name, outcome } => {},
        Happening::Round => {
            match run.round_message() {
                Some(message) => {
                    lemma_answers_to_push(run.session.outbound, message, op);
                },
                None => {},
            }
        },
        Happening::Write { now } => {
            match run.session.write_step(now) {
                WriteStepView::Send(message) => {
                    lemma_answers_to_drop_first(run.session.outbound, op);
                },
                _ => {},
            }
        },
        Happening::Written { written, now } => {},
        Happening::Shutdown => {},
    }
}

/// From the frame that is read to the message that is written, every
/// request is answered at most once, and exactly once while the session
/// stays open.
///
/// For every request id, the answers that were handed to the write loop
/// and the answers that the run still owes or holds never exceed the
/// requests that were read and what was owed at the start. While the
/// session is open the two sides are equal: no answer is lost. Once it
/// has closed, what was owed is dropped and nothing more is handed out.
pub proof fn lemma_requests_and_answers_balance(
    run: ConnectionView,
    service: ServiceView,
    happenings: Seq<Happening>,
    op: OpId,
)
    requires
        run.session.state == SessionState::Open,
        run.session.announced,
    ensures
        advance_all(run, service, happenings).session.state != SessionState::Connecting,
        advance_all(run, service, happenings).session.announced,
        answers_to(written_out(run, service, happenings), op) + owed(
            advance_all(run, service, happenings),
            op,
        ) <= requests_read(happenings, op) + owed(run, op),
        advance_all(run, service, happenings).session.state == SessionState::Open ==> answers_to(
            written_out(run, service, happenings),
            op,
        ) + owed(advance_all(run, service, happenings), op) == requests_read(happenings, op) + owed(
            run,
            op,
        ),
    decreases happenings.len(),
{
    if happenings.len() > 0 {
        let earlier = happenings.drop_last();
        lemma_requests_and_answers_balance(run, service, earlier, op);
        let before = advance_all(run, service, earlier);
        lemma_happening_balance(before, service, happenings.last(), op);
        match handed_out(before, happenings.last()) {
            Some(message) => {
                lemma_answers_to_push(written_out(run, service, earlier), message, op);
            },
            None => {},
        }
    }
}

/// After the session has closed nothing is handed to the write loop any
/// more: no message and no ping, whatever happens.
pub proof fn lemma_nothing_is_written_after_close(
    run: ConnectionView,
    service: ServiceView,
    happenings: Seq<Happening>,
)
    requires
        run.session.state == SessionState::Closed,
    ensures
        advance_all(run, service, happenings).session.state == SessionState::Closed,
        advance_all(run, service, happenings).session.error == run.session.error,
        advance_all(run, service, happenings).session.outbound == run.session.outbound,
        written_out(run, service, happenings) == Seq::<ProxyMessageView>::empty(),
    decreases happenings.len(),
{
    if happenings.len() > 0 {
        lemma_nothing_is_written_after_close(run, service, happenings.drop_last());
    }
}

/// The message that `happening` puts into the queue of the session, if it
/// puts one there: an answer of the dispatcher or a list of data sources.
pub open spec fn taken_in(
    run: ConnectionView,
    service: ServiceView,
    happening: Happening,
) -> Option<ProxyMessageView> {
    let offered = match happening {
        Happening::Frame(frame) => match run.session.read_step(frame) {
            ReadStepView::Dispatch(message) => match run.dispatcher.decide(
                service.registry,
                message,
            ) {
                DispatchView::Reply(reply) => Some(reply),
                _ => None,
            },
            _ => None,
        },
        Happening::Result { op, result } => run.dispatcher.on_complete(op, result).reply,
        Happening::Round => run.round_message(),
        _ => None,
    };
    match offered {
        Some(message) => if run.session.accepts(message) {
            Some(message)
        } else {
            None
        },
        None => None,
    }
}

/// The messages put into the queue during all of `happenings`, in order.
pub open spec fn queued_in(
    run: ConnectionView,
    service: ServiceView,
    happenings: Seq<Happening>,
) -> Seq<ProxyMessageView>
    decreases happenings.len(),
{
    if happenings.len() == 0 {
        Seq::empty()
    } else {
        let earlier = queued_in(run, service, happenings.drop_last());
        match taken_in(
            advance_all(run, service, happenings.drop_last()),
            service,
            happenings.last(),
        ) {
            Some(message) => earlier.push(message),
            None => earlier,
        }
    }
}

/// The write loop never reorders. What was handed to it, followed by what
/// still waits, is what waited at the start followed by what was queued
/// since, message for message and in that order: nothing overtakes,
/// nothing is written twice and nothing that was queued gets lost.
pub proof fn lemma_queue_order_is_kept(
    run: ConnectionView,
    service: ServiceView,
    happenings: Seq<Happening>,
)
    ensures
        written_out(run, service, happenings) + advance_all(
            run,
            service,
            happenings,
        ).session.outbound == run.session.outbound + queued_in(run, service, happenings),
    decreases happenings.len(),
{
    if happenings.len() > 0 {
        let earlier = happenings.drop_last();
        lemma_queue_order_is_kept(run, service, earlier);
        let before = advance_all(run, service, earlier);
        let written = written_out(run, service, earlier);
        match taken_in(before, service, happenings.last()) {
            Some(message) => {
                assert(written + before.session.outbound.push(message) =~= (written
                    + before.session.outbound).push(message));
            },
            None => {},
        }
    }
}

/// The list of data sources goes first. From the opening of a session on,
/// whatever happens, the first message that is queued, and so the first
/// that is handed to the write loop, is the list of data sources.
pub proof fn lemma_list_is_written_first(
    run: ConnectionView,
    service: ServiceView,
    happenings: Seq<Happening>,
)
    requires
        !run.session.announced,
        run.session.outbound.len() == 0,
    ensures
        queued_in(run, service, happenings).len() > 0 ==> queued_in(
            run,
            service,
            happenings,
        )[0] is SetDataSources,
        written_out(run, service, happenings).len() > 0 ==> written_out(
            run,
            service,
            happenings,
        )[0] is SetDataSources,
        advance_all(run, service, happenings).session.announced <==> queued_in(
            run,
            service,
            happenings,
        ).len() > 0,
    decreases happenings.len(),
{
    lemma_queue_order_is_kept(run, service, happenings);
    if happenings.len() > 0 {
        lemma_list_is_written_first(run, service, happenings.drop_last());
    }
}

} // verus!
