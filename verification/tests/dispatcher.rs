use proxy::dispatcher::{Completion, Dispatch, Dispatcher, Invocation};
use proxy::model::{DataSource, OpId, ProviderError, ProxyMessage, ServerMessage};
use proxy::name::Name;
use proxy::registry::{ProviderModule, Registry};

fn registry() -> Registry {
    Registry::new(
        vec![ProviderModule { provider_type: "prometheus".to_string(), bytes: vec![1] }],
        vec![DataSource::new(
            Name::new("metrics".to_string()).unwrap(),
            "prometheus".to_string(),
            None,
            b"{\"url\":\"http://localhost:9090\"}".to_vec(),
        )],
    )
    .unwrap()
}

fn request(op_id: u128, data_source: &str, protocol_version: u8) -> ServerMessage {
    ServerMessage::InvokeProxyRequest {
        op_id: OpId(op_id),
        data_source_name: data_source.to_string(),
        payload: op_id.to_be_bytes().to_vec(),
        protocol_version,
    }
}

fn invocation(op_id: u128, protocol_version: u8) -> Invocation {
    Invocation {
        op_id: OpId(op_id),
        provider_type: "prometheus".to_string(),
        config: b"{\"url\":\"http://localhost:9090\"}".to_vec(),
        payload: op_id.to_be_bytes().to_vec(),
        protocol_version,
    }
}

#[test]
fn dispatcher_starts_requests_while_workers_are_idle() {
    let registry = registry();
    let mut dispatcher = Dispatcher::new(2);
    assert_eq!(dispatcher.max_concurrent(), 2);
    assert_eq!(dispatcher.submit(&registry, request(1, "metrics", 1)), Dispatch::Start(invocation(1, 1)));
    assert_eq!(dispatcher.submit(&registry, request(2, "metrics", 2)), Dispatch::Start(invocation(2, 2)));
    assert_eq!(dispatcher.running(), 2);
    assert_eq!(dispatcher.queued(), 0);
}

#[test]
fn dispatcher_queues_requests_when_the_pool_is_full() {
    let registry = registry();
    let mut dispatcher = Dispatcher::new(1);
    assert_eq!(dispatcher.submit(&registry, request(1, "metrics", 1)), Dispatch::Start(invocation(1, 1)));
    assert_eq!(dispatcher.submit(&registry, request(2, "metrics", 1)), Dispatch::Queued);
    assert_eq!(dispatcher.submit(&registry, request(3, "metrics", 1)), Dispatch::Queued);
    assert_eq!(dispatcher.running(), 1);
    assert_eq!(dispatcher.queued(), 2);

    // The freed worker goes to the request that has waited longest.
    let completion = dispatcher.complete(OpId(1), Ok(b"one".to_vec()));
    assert_eq!(
        completion,
        Completion {
            reply: Some(ProxyMessage::InvokeProxyResponse { op_id: OpId(1), data: b"one".to_vec() }),
            next: Some(invocation(2, 1)),
        }
    );
    assert_eq!(dispatcher.running(), 1);
    assert_eq!(dispatcher.queued(), 1);

    let completion = dispatcher.complete(OpId(2), Err(ProviderError::UnsupportedRequest));
    assert_eq!(
        completion,
        Completion {
            reply: Some(ProxyMessage::Error { op_id: Some(OpId(2)), error: ProviderError::UnsupportedRequest }),
            next: Some(invocation(3, 1)),
        }
    );
    let completion = dispatcher.complete(OpId(3), Ok(Vec::new()));
    assert_eq!(completion.next, None);
    assert_eq!(dispatcher.running(), 0);
    assert_eq!(dispatcher.queued(), 0);
}

#[test]
fn dispatcher_never_runs_more_than_the_pool_holds() {
    let registry = registry();
    let mut dispatcher = Dispatcher::new(3);
    for op_id in 0..20u128 {
        dispatcher.submit(&registry, request(op_id, "metrics", 2));
        assert!(dispatcher.running() <= 3);
    }
    assert_eq!(dispatcher.running(), 3);
    assert_eq!(dispatcher.queued(), 17);
    for op_id in 0..20u128 {
        let completion = dispatcher.complete(OpId(op_id), Ok(Vec::new()));
        assert_eq!(completion.reply.unwrap().op_id(), Some(OpId(op_id)));
        assert!(dispatcher.running() <= 3);
    }
    assert_eq!(dispatcher.running(), 0);
}

#[test]
fn dispatcher_with_no_workers_has_one() {
    assert_eq!(Dispatcher::new(0).max_concurrent(), 1);
    assert_eq!(proxy::dispatcher::DEFAULT_MAX_CONCURRENT_REQUESTS, 5);
}

#[test]
fn dispatcher_answers_unknown_data_sources_at_once() {
    let registry = registry();
    let mut dispatcher = Dispatcher::new(1);
    assert_eq!(
        dispatcher.submit(&registry, request(9, "data-source-1", 1)),
        Dispatch::Reply(ProxyMessage::Error { op_id: Some(OpId(9)), error: ProviderError::NotFound })
    );
    // Also in a version that is not spoken.
    assert_eq!(
        dispatcher.submit(&registry, request(9, "data-source-1", 7)),
        Dispatch::Reply(ProxyMessage::Error { op_id: Some(OpId(9)), error: ProviderError::NotFound })
    );
    assert_eq!(dispatcher.running(), 0);
}

#[test]
fn dispatcher_refuses_unknown_protocol_versions() {
    let registry = registry();
    let mut dispatcher = Dispatcher::new(1);
    for version in [0u8, 3, 255] {
        assert_eq!(
            dispatcher.submit(&registry, request(4, "metrics", version)),
            Dispatch::Reply(ProxyMessage::Error {
                op_id: Some(OpId(4)),
                error: ProviderError::ValidationError { details: "unsupported protocol version".to_string() },
            })
        );
    }
    assert_eq!(dispatcher.running(), 0);
    assert_eq!(dispatcher.queued(), 0);
}

#[test]
fn dispatcher_ignores_poll() {
    let registry = registry();
    let mut dispatcher = Dispatcher::new(1);
    assert_eq!(dispatcher.submit(&registry, ServerMessage::Poll { op_id: OpId(5) }), Dispatch::Ignored);
    assert_eq!(ServerMessage::Poll { op_id: OpId(5) }.op_id(), OpId(5));
    assert_eq!(dispatcher.running(), 0);
}

#[test]
fn dispatcher_answers_a_worker_only_once() {
    let registry = registry();
    let mut dispatcher = Dispatcher::new(2);
    dispatcher.submit(&registry, request(1, "metrics", 1));
    assert!(dispatcher.complete(OpId(1), Ok(Vec::new())).reply.is_some());
    // The same worker cannot come back twice, and a stranger is no worker.
    assert_eq!(dispatcher.complete(OpId(1), Ok(Vec::new())), Completion { reply: None, next: None });
    assert_eq!(dispatcher.complete(OpId(2), Ok(Vec::new())), Completion { reply: None, next: None });
}
