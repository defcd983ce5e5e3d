//! Runs of the dispatcher: what holds after every sequence of events.
//!
//! A run starts in some state of the dispatcher and feeds it inbound
//! messages and returning workers, in any order. The lemmas here speak of
//! the frames that such a run emits.

use vstd::prelude::*;
use vstd::seq_lib::{to_multiset_build, to_multiset_remove};

use crate::dispatcher::{
    invocation_for, reply_for, supported_version, DispatchView, DispatcherView, InvocationView,
};
use crate::model::{OpId, ProviderErrorView, ProxyMessageView, ServerMessageView};
use crate::registry::RegistryView;

verus! {

/// One thing that happens to the dispatcher.
pub enum Event {
    /// A message from the peer was decoded.
    Message(ServerMessageView),
    /// A worker came back.
    Done { op: OpId, outcome: Result<Seq<u8>, ProviderErrorView> },
}

/// The frame that the dispatcher emits for `event` in state `state`, if any.
pub open spec fn frame_of(
    state: DispatcherView,
    registry: RegistryView,
    event: Event,
) -> Option<ProxyMessageView> {
    match event {
        Event::Message(message) => match state.decide(registry, message) {
            DispatchView::Reply(frame) => Some(frame),
            _ => None,
        },
        Event::Done { op, outcome } => state.on_complete(op, outcome).reply,
    }
}

/// The state that follows `state` on `event`.
pub open spec fn step(
    state: DispatcherView,
    registry: RegistryView,
    event: Event,
) -> DispatcherView {
    match event {
        Event::Message(message) => state.after_submit(registry, message),
        Event::Done { op, outcome } => state.after_complete(op),
    }
}

/// The state after all of `events`, taken in order.
pub open spec fn run(
    state: DispatcherView,
    registry: RegistryView,
    events: Seq<Event>,
) -> DispatcherView
    decreases events.len(),
{
    if events.len() == 0 {
        state
    } else {
        step(run(state, registry, events.drop_last()), registry, events.last())
    }
}

/// The frames emitted during all of `events`, in the order of their emission.
pub open spec fn frames(
    state: DispatcherView,
    registry: RegistryView,
    events: Seq<Event>,
) -> Seq<ProxyMessageView>
    decreases events.len(),
{
    if events.len() == 0 {
        Seq::empty()
    } else {
        let earlier = frames(state, registry, events.drop_last());
        match frame_of(run(state, registry, events.drop_last()), registry, events.last()) {
            Some(frame) => earlier.push(frame),
            None => earlier,
        }
    }
}

/// Whether `event` is an invoke request with the id `op`.
pub open spec fn asks(event: Event, op: OpId) -> bool {
    event matches Event::Message(ServerMessageView::InvokeProxyRequest { op_id, .. }) && op_id == op
}

/// How many invoke requests with the id `op` are among `events`.
pub open spec fn requests_for(events: Seq<Event>, op: OpId) -> nat
    decreases events.len(),
{
    if events.len() == 0 {
        0
    } else {
        requests_for(events.drop_last(), op) + if asks(events.last(), op) {
            1nat
        } else {
            0nat
        }
    }
}

/// How many of `frames` answer request `op`.
pub open spec fn answers_to(frames: Seq<ProxyMessageView>, op: OpId) -> nat
    decreases frames.len(),
{
    if frames.len() == 0 {
        0
    } else {
        answers_to(frames.drop_last(), op) + if frames.last().answers(op) {
            1nat
        } else {
            0nat
        }
    }
}

/// The ids of the waiting requests, oldest first.
pub open spec fn waiting_ops(queue: Seq<InvocationView>) -> Seq<OpId> {
    queue.map_values(|i: InvocationView| i.op_id)
}

/// How many requests with the id `op` the dispatcher still owes an answer:
/// those on a worker and those in the queue.
pub open spec fn outstanding(state: DispatcherView, op: OpId) -> nat {
    state.running.count(op) + waiting_ops(state.queue).to_multiset().count(op)
}

/// Every frame names its request. What the dispatcher emits is a response
/// or an error, and it carries the id of the request that brought it about:
/// the request that was just refused, or the one whose worker came back.
pub proof fn lemma_frame_names_its_request(
    state: DispatcherView,
    registry: RegistryView,
    event: Event,
)
    ensures
        match frame_of(state, registry, event) {
            Some(frame) => {
                &&& frame is InvokeProxyResponse || frame is Error
                &&& match event {
                    Event::Message(message) => message is InvokeProxyRequest && frame.op_id()
                        == Some(message.op_id()),
                    Event::Done { op, outcome } => state.running.contains(op) && frame.op_id()
                        == Some(op),
                }
            },
            None => true,
        },
{
}

proof fn lemma_answers_push(frames: Seq<ProxyMessageView>, frame: ProxyMessageView, op: OpId)
    ensures
        answers_to(frames.push(frame), op) == answers_to(frames, op) + if frame.answers(op) {
            1nat
        } else {
            0nat
        },
{
    assert(frames.push(frame).drop_last() =~= frames);
}

/// One event keeps the books: what it adds to the requests it adds to the
/// answers or to what is outstanding.
pub proof fn lemma_event_balance(
    state: DispatcherView,
    registry: RegistryView,
    event: Event,
    op: OpId,
)
    ensures
        (if frame_of(state, registry, event) matches Some(frame) && frame.answers(op) {
            1nat
        } else {
            0nat
        }) + outstanding(step(state, registry, event), op) == outstanding(state, op) + if asks(
            event,
            op,
        ) {
            1nat
        } else {
            0nat
        },
{
    broadcast use {
        vstd::multiset::group_multiset_axioms,
        vstd::multiset::group_multiset_properties,
    };

    match event {
        Event::Message(message) => {
            if state.decide(registry, message) is Queued {
                let invocation = invocation_for(registry, message);
                assert(waiting_ops(state.queue.push(invocation)) =~= waiting_ops(state.queue).push(
                    invocation.op_id,
                ));
                to_multiset_build(waiting_ops(state.queue), invocation.op_id);
            }
        },
        Event::Done { op: done, outcome } => {
            if state.running.contains(done) && state.queue.len() > 0 {
                let ops = waiting_ops(state.queue);
                assert(waiting_ops(state.queue.drop_first()) =~= ops.remove(0));
                to_multiset_remove(ops, 0);
                ops.to_multiset_ensures();
            }
        },
    }
}

/// Every request gets exactly one answer, or is still outstanding.
///
/// Whatever the dispatcher is fed, for every request id the frames that
/// answer it and the requests still running or waiting under it add up to
/// the requests that came in under it and those outstanding at the start.
/// No frame is lost and none is sent twice.
pub proof fn lemma_one_answer_per_request(
    state: DispatcherView,
    registry: RegistryView,
    events: Seq<Event>,
    op: OpId,
)
    ensures
        answers_to(frames(state, registry, events), op) + outstanding(
            run(state, registry, events),
            op,
        ) == requests_for(events, op) + outstanding(state, op),
    decreases events.len(),
{
    if events.len() > 0 {
        let earlier = events.drop_last();
        lemma_one_answer_per_request(state, registry, earlier, op);
        let before = run(state, registry, earlier);
        lemma_event_balance(before, registry, events.last(), op);
        match frame_of(before, registry, events.last()) {
            Some(frame) => {
                lemma_answers_push(frames(state, registry, earlier), frame, op);
            },
            None => {},
        }
    }
}

/// A request that came in once and is no longer outstanding was answered
/// exactly once.
pub proof fn lemma_settled_request_has_one_answer(
    state: DispatcherView,
    registry: RegistryView,
    events: Seq<Event>,
    op: OpId,
)
    requires
        outstanding(state, op) == 0,
        requests_for(events, op) == 1,
        outstanding(run(state, registry, events), op) == 0,
    ensures
        answers_to(frames(state, registry, events), op) == 1,
{
    lemma_one_answer_per_request(state, registry, events, op);
}

/// The pool is never overfull: a well-formed dispatcher stays well-formed
/// through every run, so that at no point more requests run than the pool
/// has workers.
pub proof fn lemma_pool_bound(state: DispatcherView, registry: RegistryView, events: Seq<Event>)
    requires
        state.wf(),
    ensures
        run(state, registry, events).wf(),
        run(state, registry, events).running.len() <= state.max_concurrent,
        run(state, registry, events).max_concurrent == state.max_concurrent,
    decreases events.len(),
{
    broadcast use vstd::multiset::group_multiset_axioms;

    if events.len() > 0 {
        lemma_pool_bound(state, registry, events.drop_last());
    }
}

/// Whether `message` is a request that the dispatcher would hand to a worker.
pub open spec fn runnable(registry: RegistryView, message: ServerMessageView) -> bool {
    &&& message is InvokeProxyRequest
    &&& registry.lookup(message->data_source_name) is Some
    &&& supported_version(message->protocol_version)
}

/// Answers may overtake one another.
///
/// Two requests that both get a worker are answered in the order in which
/// their workers come back, not in the order in which they came in: where
/// the second finishes first, its answer is the first frame.
pub proof fn lemma_answers_follow_completion(
    state: DispatcherView,
    registry: RegistryView,
    first: ServerMessageView,
    second: ServerMessageView,
    first_outcome: Result<Seq<u8>, ProviderErrorView>,
    second_outcome: Result<Seq<u8>, ProviderErrorView>,
)
    requires
        state.wf(),
        state.running.len() + 2 <= state.max_concurrent,
        runnable(registry, first),
        runnable(registry, second),
    ensures
        frames(
            state,
            registry,
            seq![
                Event::Message(first),
                Event::Message(second),
                Event::Done { op: second.op_id(), outcome: second_outcome },
                Event::Done { op: first.op_id(), outcome: first_outcome },
            ],
        ) == seq![
            reply_for(second.op_id(), second_outcome),
            reply_for(first.op_id(), first_outcome),
        ],
{
    broadcast use {
        vstd::multiset::group_multiset_axioms,
        vstd::multiset::group_multiset_properties,
    };

    let asked_first = Event::Message(first);
    let asked_second = Event::Message(second);
    let second_done = Event::Done { op: second.op_id(), outcome: second_outcome };
    let first_done = Event::Done { op: first.op_id(), outcome: first_outcome };
    let nothing = Seq::<Event>::empty();
    let one_asked = seq![asked_first];
    let both_asked = seq![asked_first, asked_second];
    let one_done = seq![asked_first, asked_second, second_done];
    let both_done = seq![asked_first, asked_second, second_done, first_done];
    assert(one_asked.drop_last() =~= nothing);
    assert(both_asked.drop_last() =~= one_asked);
    assert(one_done.drop_last() =~= both_asked);
    assert(both_done.drop_last() =~= one_done);
    assert(frames(state, registry, nothing) =~= Seq::<ProxyMessageView>::empty());
    assert(frames(state, registry, one_asked) =~= Seq::<ProxyMessageView>::empty());
    assert(frames(state, registry, both_asked) =~= Seq::<ProxyMessageView>::empty());
    assert(frames(state, registry, one_done) =~= seq![reply_for(second.op_id(), second_outcome)]);
}

} // verus!
