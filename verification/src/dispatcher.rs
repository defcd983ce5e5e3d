//! The request router: a bounded pool of workers with a first-in, first-out
//! queue in front of it.
//!
//! `submit` decides what happens to an inbound message, `complete` what
//! happens when a worker comes back. Running the provider is the caller's
//! part; the dispatcher only counts the workers and keeps the order.

use std::collections::VecDeque;
use vstd::multiset::Multiset;
use vstd::prelude::*;
use vstd::seq_lib::{to_multiset_build, to_multiset_remove};

use crate::model::{
    copy_bytes, OpId, ProviderError, ProviderErrorView, ProxyMessage, ProxyMessageView,
    ServerMessage, ServerMessageView,
};
use crate::registry::{Registry, RegistryView};

verus! {

/// The pool size used where none is configured.
pub const DEFAULT_MAX_CONCURRENT_REQUESTS: usize = 5;

/// One call of a provider, as handed to a worker.
#[derive(Debug, PartialEq, Eq)]
pub struct Invocation {
    pub op_id: OpId,
    pub provider_type: String,
    pub config: Vec<u8>,
    pub payload: Vec<u8>,
    pub protocol_version: u8,
}

/// View of an `Invocation`.
pub struct InvocationView {
    pub op_id: OpId,
    pub provider_type: Seq<char>,
    pub config: Seq<u8>,
    pub payload: Seq<u8>,
    pub protocol_version: u8,
}

impl View for Invocation {
    type V = InvocationView;

    open spec fn view(&self) -> InvocationView {
        InvocationView {
            op_id: self.op_id,
            provider_type: self.provider_type@,
            config: self.config@,
            payload: self.payload@,
            protocol_version: self.protocol_version,
        }
    }
}

/// Views of the waiting invocations, in order.
pub open spec fn queue_view(queue: Seq<Invocation>) -> Seq<InvocationView> {
    queue.map_values(|i: Invocation| i@)
}

/// What becomes of an inbound message.
#[derive(Debug, PartialEq, Eq)]
pub enum Dispatch {
    /// The message is answered at once, without a worker.
    Reply(ProxyMessage),
    /// A worker is free: run this now.
    Start(Invocation),
    /// Every worker is busy: the request waits its turn.
    Queued,
    /// The message asks for nothing.
    Ignored,
}

/// View of a `Dispatch`.
pub enum DispatchView {
    Reply(ProxyMessageView),
    Start(InvocationView),
    Queued,
    Ignored,
}

impl View for Dispatch {
    type V = DispatchView;

    open spec fn view(&self) -> DispatchView {
        match *self {
            Dispatch::Reply(m) => DispatchView::Reply(m@),
            Dispatch::Start(i) => DispatchView::Start(i@),
            Dispatch::Queued => DispatchView::Queued,
            Dispatch::Ignored => DispatchView::Ignored,
        }
    }
}

/// What follows when a worker comes back.
#[derive(Debug, PartialEq, Eq)]
pub struct Completion {
    /// The frame for the peer, if the worker was one of ours.
    pub reply: Option<ProxyMessage>,
    /// The waiting request that takes the freed worker.
    pub next: Option<Invocation>,
}

/// View of a `Completion`.
pub struct CompletionView {
    pub reply: Option<ProxyMessageView>,
    pub next: Option<InvocationView>,
}

impl View for Completion {
    type V = CompletionView;

    open spec fn view(&self) -> CompletionView {
        CompletionView {
            reply: match self.reply {
                Some(m) => Some(m@),
                None => None,
            },
            next: match self.next {
                Some(i) => Some(i@),
                None => None,
            },
        }
    }
}

/// View of what a worker brings back.
pub open spec fn outcome_view(
    outcome: Result<Vec<u8>, ProviderError>,
) -> Result<Seq<u8>, ProviderErrorView> {
    match outcome {
        Ok(data) => Ok(data@),
        Err(e) => Err(e@),
    }
}

/// The protocol versions that the engine speaks.
pub open spec fn supported_version(version: u8) -> bool {
    version == 1 || version == 2
}

/// The text of the error that answers a request in another protocol version.
pub open spec fn unsupported_version_text() -> Seq<char> {
    "unsupported protocol version"@
}

/// The frame that carries what a worker brought back for request `op`.
pub open spec fn reply_for(
    op: OpId,
    outcome: Result<Seq<u8>, ProviderErrorView>,
) -> ProxyMessageView {
    match outcome {
        Ok(data) => ProxyMessageView::InvokeProxyResponse { op_id: op, data },
        Err(error) => ProxyMessageView::Error { op_id: Some(op), error },
    }
}

/// The invocation that `message` asks for, where it names a data source of
/// the registry.
pub open spec fn invocation_for(
    registry: RegistryView,
    message: ServerMessageView,
) -> InvocationView {
    InvocationView {
        op_id: message.op_id(),
        provider_type: registry.lookup(message->data_source_name)->0.provider_type,
        config: registry.lookup(message->data_source_name)->0.config,
        payload: message->payload,
        protocol_version: message->protocol_version,
    }
}

/// The state of the dispatcher: the pool size, the requests on a worker and
/// the requests that wait, oldest first.
pub struct DispatcherView {
    pub max_concurrent: nat,
    pub running: Multiset<OpId>,
    pub queue: Seq<InvocationView>,
}

impl DispatcherView {
    /// There is at least one worker, no more requests run than there are
    /// workers, and none waits while a worker is idle.
    pub open spec fn wf(self) -> bool {
        &&& self.max_concurrent >= 1
        &&& self.running.len() <= self.max_concurrent
        &&& self.queue.len() > 0 ==> self.running.len() == self.max_concurrent
    }

    /// What `submit` answers for `message`.
    pub open spec fn decide(
        self,
        registry: RegistryView,
        message: ServerMessageView,
    ) -> DispatchView {
        match message {
            ServerMessageView::Poll { .. } => DispatchView::Ignored,
            ServerMessageView::InvokeProxyRequest {
                op_id,
                data_source_name,
                payload,
                protocol_version,
            } => match registry.lookup(data_source_name) {
                None => DispatchView::Reply(
                    ProxyMessageView::Error {
                        op_id: Some(op_id),
                        error: ProviderErrorView::NotFound,
                    },
                ),
                Some(source) => if !supported_version(protocol_version) {
                    DispatchView::Reply(
                        ProxyMessageView::Error {
                            op_id: Some(op_id),
                            error: ProviderErrorView::ValidationError {
                                details: unsupported_version_text(),
                            },
                        },
                    )
                } else if self.running.len() < self.max_concurrent {
                    DispatchView::Start(invocation_for(registry, message))
                } else {
                    DispatchView::Queued
                },
            },
        }
    }

    /// The state after `submit` has taken `message`.
    pub open spec fn after_submit(
        self,
        registry: RegistryView,
        message: ServerMessageView,
    ) -> DispatcherView {
        match self.decide(registry, message) {
            DispatchView::Start(invocation) => DispatcherView {
                running: self.running.insert(invocation.op_id),
                ..self
            },
            DispatchView::Queued => DispatcherView {
                queue: self.queue.push(invocation_for(registry, message)),
                ..self
            },
            _ => self,
        }
    }

    /// What `complete` answers when the worker of request `op` comes back.
    /// A completion for a request that is not running is answered with nothing.
    pub open spec fn on_complete(
        self,
        op: OpId,
        outcome: Result<Seq<u8>, ProviderErrorView>,
    ) -> CompletionView {
        if self.running.contains(op) {
            CompletionView {
                reply: Some(reply_for(op, outcome)),
                next: if self.queue.len() > 0 {
                    Some(self.queue[0])
                } else {
                    None
                },
            }
        } else {
            CompletionView { reply: None, next: None }
        }
    }

    /// The state after `complete`: the worker is free again, or taken at once
    /// by the request that has waited longest.
    pub open spec fn after_complete(self, op: OpId) -> DispatcherView {
        if !self.running.contains(op) {
            self
        } else if self.queue.len() > 0 {
            DispatcherView {
                running: self.running.remove(op).insert(self.queue[0].op_id),
                queue: self.queue.drop_first(),
                ..self
            }
        } else {
            DispatcherView { running: self.running.remove(op), ..self }
        }
    }
}

/// The bounded worker pool of one session.
#[derive(Debug)]
pub struct Dispatcher {
    max_concurrent: usize,
    running: Vec<OpId>,
    queue: VecDeque<Invocation>,
}

impl View for Dispatcher {
    type V = DispatcherView;

    closed spec fn view(&self) -> DispatcherView {
        DispatcherView {
            max_concurrent: self.max_concurrent as nat,
            running: self.running@.to_multiset(),
            queue: queue_view(self.queue@),
        }
    }
}

impl Dispatcher {
    /// A pool of `max_concurrent_requests` workers, all idle. A pool of none
    /// is a pool of one.
    pub fn new(max_concurrent_requests: usize) -> (res: Dispatcher)
        ensures
            res@.wf(),
            res@.max_concurrent == if max_concurrent_requests == 0 {
                1
            } else {
                max_concurrent_requests as nat
            },
            res@.running == Multiset::<OpId>::empty(),
            res@.queue == Seq::<InvocationView>::empty(),
    {
        let max_concurrent = if max_concurrent_requests == 0 {
            1
        } else {
            max_concurrent_requests
        };
        let running: Vec<OpId> = Vec::new();
        let queue: VecDeque<Invocation> = VecDeque::new();
        proof {
            broadcast use vstd::seq_lib::group_to_multiset_ensures;
        }
        Dispatcher { max_concurrent, running, queue }
    }

    /// How many workers the pool has.
    pub fn max_concurrent(&self) -> (res: usize)
        ensures
            res == self@.max_concurrent,
    {
        self.max_concurrent
    }

    /// How many requests are on a worker.
    pub fn running(&self) -> (res: usize)
        ensures
            res == self@.running.len(),
    {
        proof {
            self.running@.to_multiset_ensures();
        }
        self.running.len()
    }

    /// How many requests wait for a worker.
    pub fn queued(&self) -> (res: usize)
        ensures
            res == self@.queue.len(),
    {
        self.queue.len()
    }

    /// Takes an inbound message.
    ///
    /// A request for a data source that the registry does not know is
    /// answered with `NotFound`, one in a protocol version other than 1 and 2
    /// with a validation error. Any other request goes to a worker if one is
    /// idle and to the end of the queue if none is. `Poll` asks for nothing.
    pub fn submit(&mut self, registry: &Registry, message: ServerMessage) -> (res: Dispatch)
        ensures
            res@ == old(self)@.decide(registry@, message@),
            final(self)@ == old(self)@.after_submit(registry@, message@),
            old(self)@.wf() ==> final(self)@.wf(),
    {
        proof {
            self.running@.to_multiset_ensures();
        }
        match message {
            ServerMessage::Poll { .. } => Dispatch::Ignored,
            ServerMessage::InvokeProxyRequest {
                op_id,
                data_source_name,
                payload,
                protocol_version,
            } => {
                match registry.lookup_data_source(data_source_name.as_str()) {
                    None => Dispatch::Reply(
                        ProxyMessage::Error { op_id: Some(op_id), error: ProviderError::NotFound },
                    ),
                    Some(source) => {
                        if protocol_version != 1 && protocol_version != 2 {
                            proof {
                                reveal_strlit("unsupported protocol version");
                            }
                            Dispatch::Reply(
                                ProxyMessage::Error {
                                    op_id: Some(op_id),
                                    error: ProviderError::ValidationError {
                                        details: "unsupported protocol version".to_owned(),
                                    },
                                },
                            )
                        } else {
                            let invocation = Invocation {
                                op_id,
                                provider_type: source.provider_type.clone(),
                                config: copy_bytes(&source.config),
                                payload,
                                protocol_version,
                            };
                            if self.running.len() < self.max_concurrent {
                                proof {
                                    to_multiset_build(self.running@, op_id);
                                }
                                self.running.push(op_id);
                                proof {
                                    self.running@.to_multiset_ensures();
                                }
                                Dispatch::Start(invocation)
                            } else {
                                let ghost waiting = self.queue@;
                                self.queue.push_back(invocation);
                                assert(queue_view(self.queue@) =~= queue_view(waiting).push(
                                    invocation@,
                                ));
                                Dispatch::Queued
                            }
                        }
                    },
                }
            },
        }
    }

    /// Index of `op` among the running requests.
    fn position(&self, op: OpId) -> (res: Option<usize>)
        ensures
            res is Some <==> self@.running.contains(op),
            res matches Some(i) ==> i < self.running.len() && self.running[i as int] == op,
    {
        proof {
            self.running@.to_multiset_ensures();
        }
        let mut i: usize = 0;
        while i < self.running.len()
            invariant
                0 <= i <= self.running.len(),
                forall|k: int| 0 <= k < i ==> self.running[k] != op,
            decreases self.running.len() - i,
        {
            if self.running[i].0 == op.0 {
                proof {
                    self.running@.to_multiset_ensures();
                }
                return Some(i);
            }
            i = i + 1;
        }
        None
    }

    /// Takes back the worker of request `op_id` with what it brought.
    ///
    /// The answer carries `op_id`: a response with the data where the
    /// provider succeeded, an error otherwise. The freed worker goes to the
    /// request that has waited longest, if any waits. Where `op_id` is not
    /// running, nothing is answered and nothing changes.
    pub fn complete(
        &mut self,
        op_id: OpId,
        outcome: Result<Vec<u8>, ProviderError>,
    ) -> (res: Completion)
        ensures
            res@ == old(self)@.on_complete(op_id, outcome_view(outcome)),
            final(self)@ == old(self)@.after_complete(op_id),
            old(self)@.wf() ==> final(self)@.wf(),
    {
        proof {
            self.running@.to_multiset_ensures();
        }
        let index = match self.position(op_id) {
            Some(index) => index,
            None => {
                return Completion { reply: None, next: None };
            },
        };
        let reply = match outcome {
            Ok(data) => ProxyMessage::InvokeProxyResponse { op_id, data },
            Err(error) => ProxyMessage::Error { op_id: Some(op_id), error },
        };
        let ghost running = self.running@;
        let ghost waiting = self.queue@;
        proof {
            to_multiset_remove(running, index as int);
            running.remove(index as int).to_multiset_ensures();
        }
        match self.queue.pop_front() {
            Some(next) => {
                proof {
                    to_multiset_build(running.remove(index as int), next.op_id);
                    running.remove(index as int).push(next.op_id).to_multiset_ensures();
                    assert(queue_view(self.queue@) =~= queue_view(waiting).drop_first());
                }
                self.running.remove(index);
                self.running.push(next.op_id);
                Completion { reply: Some(reply), next: Some(next) }
            },
            None => {
                self.running.remove(index);
                Completion { reply: Some(reply), next: None }
            },
        }
    }
}

} // verus!
