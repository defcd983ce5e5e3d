use proxy::executor::{conclude, conclude_probe, prepare, Envelope, SandboxOutcome};
use proxy::dispatcher::Invocation;
use proxy::health::ProbeOutcome;
use proxy::model::{DataSource, DataSourceStatus, OpId, ProviderError};
use proxy::name::Name;
use proxy::registry::{ProviderModule, Registry, StartupError};
use proxy::service::{collect_modules, provider_types, ModuleLoad, ProxyService};
use proxy::handshake::ProxyToken;

fn source(name: &str, provider_type: &str) -> DataSource {
    DataSource::new(
        Name::new(name.to_string()).unwrap(),
        provider_type.to_string(),
        Some(format!("{} of {}", name, provider_type)),
        name.as_bytes().to_vec(),
    )
}

fn module(provider_type: &str, bytes: &[u8]) -> ProviderModule {
    ProviderModule { provider_type: provider_type.to_string(), bytes: bytes.to_vec() }
}

fn registry() -> Registry {
    Registry::new(
        vec![module("prometheus", b"p"), module("loki", b"l")],
        vec![source("metrics", "prometheus"), source("logs", "loki"), source("traces", "tempo")],
    )
    .unwrap()
}

#[test]
fn registry_finds_data_sources_by_name() {
    let registry = registry();
    let found = registry.lookup_data_source("logs").unwrap();
    assert_eq!(found.name.as_str(), "logs");
    assert_eq!(found.provider_type, "loki");
    assert_eq!(found.config, b"logs".to_vec());
    assert!(registry.lookup_data_source("log").is_none());
    assert!(registry.lookup_data_source("").is_none());
    assert_eq!(registry.len(), 3);
}

#[test]
fn registry_finds_modules_by_provider_type() {
    let registry = registry();
    assert_eq!(registry.module_for("prometheus"), Some(&b"p".to_vec()));
    assert_eq!(registry.module_for("loki"), Some(&b"l".to_vec()));
    assert_eq!(registry.module_for("tempo"), None);
}

#[test]
fn registry_keeps_data_sources_of_unknown_providers() {
    let listed = registry().list();
    let statuses: Vec<&DataSourceStatus> = listed.iter().map(|d| &d.status).collect();
    assert_eq!(listed.iter().map(|d| d.name.as_str()).collect::<Vec<_>>(), vec!["metrics", "logs", "traces"]);
    assert_eq!(*statuses[0], DataSourceStatus::Error(ProviderError::NotChecked));
    assert_eq!(*statuses[1], DataSourceStatus::Error(ProviderError::NotChecked));
    assert_eq!(
        *statuses[2],
        DataSourceStatus::Error(ProviderError::Invocation { message: "unknown provider".to_string() })
    );
    assert_eq!(listed[2].description, Some("traces of tempo".to_string()));
}

#[test]
fn registry_ignores_the_status_that_a_data_source_brings() {
    let brought = source("metrics", "prometheus").with_status(DataSourceStatus::Connected);
    let registry = Registry::new(vec![module("prometheus", b"p")], vec![brought]).unwrap();
    assert_eq!(registry.list()[0].status, DataSourceStatus::Error(ProviderError::NotChecked));
}

#[test]
fn registry_refuses_a_name_given_twice() {
    let result = Registry::new(
        vec![module("prometheus", b"p")],
        vec![source("metrics", "prometheus"), source("logs", "loki"), source("metrics", "loki")],
    );
    assert_eq!(result.unwrap_err(), StartupError::DuplicateDataSource { name: "metrics".to_string() });
}

#[test]
fn registry_refuses_a_provider_type_given_twice() {
    let result = Registry::new(
        vec![module("prometheus", b"p"), module("prometheus", b"q")],
        vec![source("metrics", "prometheus"), source("metrics", "prometheus")],
    );
    assert_eq!(result.unwrap_err(), StartupError::DuplicateModule { provider_type: "prometheus".to_string() });
}

#[test]
fn provider_types_are_listed_once_in_order_of_first_use() {
    let sources = vec![
        source("a", "prometheus"),
        source("b", "loki"),
        source("c", "prometheus"),
        source("d", "tempo"),
        source("e", "loki"),
    ];
    assert_eq!(provider_types(&sources), vec!["prometheus", "loki", "tempo"]);
    assert_eq!(provider_types(&Vec::new()), Vec::<String>::new());
}

#[test]
fn loaded_modules_are_collected_in_order() {
    let loads = vec![
        ModuleLoad::Loaded { provider_type: "prometheus".to_string(), bytes: b"p".to_vec() },
        ModuleLoad::Missing { provider_type: "tempo".to_string() },
        ModuleLoad::Loaded { provider_type: "loki".to_string(), bytes: b"l".to_vec() },
    ];
    assert_eq!(collect_modules(loads), Ok(vec![module("prometheus", b"p"), module("loki", b"l")]));
}

#[test]
fn an_invalid_module_aborts_the_startup() {
    let loads = || {
        vec![
            ModuleLoad::Loaded { provider_type: "prometheus".to_string(), bytes: b"p".to_vec() },
            ModuleLoad::Invalid { provider_type: "loki".to_string(), message: "bad magic".to_string() },
            ModuleLoad::Invalid { provider_type: "tempo".to_string(), message: "too short".to_string() },
        ]
    };
    let expected =
        StartupError::InvalidModule { provider_type: "loki".to_string(), message: "bad magic".to_string() };
    assert_eq!(collect_modules(loads()), Err(expected));
    let token = ProxyToken {
        workspace_id: 1,
        proxy_name: Name::new("proxy".to_string()).unwrap(),
        token: "secret".to_string(),
    };
    let service =
        ProxyService::init("ws://localhost".to_string(), token, loads(), vec![source("a", "loki")], 1, None, 1000);
    assert_eq!(
        service.err(),
        Some(StartupError::InvalidModule { provider_type: "loki".to_string(), message: "bad magic".to_string() })
    );
}

#[test]
fn service_settings_have_their_defaults_and_bounds() {
    let token = ProxyToken {
        workspace_id: 1,
        proxy_name: Name::new("proxy".to_string()).unwrap(),
        token: "secret".to_string(),
    };
    let service =
        ProxyService::new("ws://localhost".to_string(), token, Vec::new(), Vec::new(), 3, None, 200).unwrap();
    assert_eq!(service.max_retries(), 3);
    assert_eq!(service.max_concurrent_requests(), 5);
    assert_eq!(service.inactivity_timeout(), 45_000);
    assert_eq!(service.status_interval(), 1000);
    assert_eq!(service.listen_addr(), None);
    let service = service.with_max_concurrent_requests(0).with_inactivity_timeout(10);
    assert_eq!(service.max_concurrent_requests(), 1);
    assert_eq!(service.inactivity_timeout(), 10);
    let service = service.with_max_concurrent_requests(9);
    assert_eq!(service.max_concurrent_requests(), 9);
}

#[test]
fn executor_prepares_the_call_of_a_loaded_provider() {
    let registry = registry();
    let invocation = Invocation {
        op_id: OpId(1),
        provider_type: "loki".to_string(),
        config: b"cfg".to_vec(),
        payload: b"req".to_vec(),
        protocol_version: 2,
    };
    let call = prepare(&registry, &invocation).unwrap();
    assert_eq!(call.module, b"l".to_vec());
    assert_eq!(call.config, b"cfg".to_vec());
    assert_eq!(call.request, b"req".to_vec());
    assert_eq!(call.protocol_version, 2);

    let unknown = Invocation { provider_type: "tempo".to_string(), ..invocation };
    assert_eq!(prepare(&registry, &unknown), Err(ProviderError::NotFound));
}

#[test]
fn executor_maps_what_the_sandbox_brings() {
    let returned = |envelope| SandboxOutcome::Returned { response: b"raw".to_vec(), envelope };
    assert_eq!(conclude(returned(Envelope::Success)), Ok(b"raw".to_vec()));
    assert_eq!(
        conclude(returned(Envelope::Failure(ProviderError::UnsupportedRequest))),
        Err(ProviderError::UnsupportedRequest)
    );
    assert_eq!(
        conclude(returned(Envelope::Failure(ProviderError::ValidationError { details: "query".to_string() }))),
        Err(ProviderError::ValidationError { details: "query".to_string() })
    );
    assert_eq!(
        conclude(returned(Envelope::Unknown { message: "not an envelope".to_string() })),
        Err(ProviderError::Deserialization { message: "not an envelope".to_string() })
    );
    assert_eq!(
        conclude(SandboxOutcome::Failed { message: "trap".to_string() }),
        Err(ProviderError::Invocation { message: "trap".to_string() })
    );
}

#[test]
fn executor_maps_what_a_status_request_brings() {
    let returned = |envelope| SandboxOutcome::Returned { response: Vec::new(), envelope };
    assert_eq!(conclude_probe(returned(Envelope::Success)), ProbeOutcome::Healthy);
    assert_eq!(
        conclude_probe(returned(Envelope::Failure(ProviderError::Config { message: "no url".to_string() }))),
        ProbeOutcome::Unhealthy(ProviderError::Config { message: "no url".to_string() })
    );
    assert_eq!(
        conclude_probe(returned(Envelope::Unknown { message: "x".to_string() })),
        ProbeOutcome::Unhealthy(ProviderError::Deserialization { message: "x".to_string() })
    );
    assert_eq!(
        conclude_probe(SandboxOutcome::Failed { message: "trap".to_string() }),
        ProbeOutcome::SandboxFailed { message: "trap".to_string() }
    );
}
