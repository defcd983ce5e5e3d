use proxy::health::{
    status_from_probe, status_interval, HealthChecker, Probe, ProbeOutcome, DEFAULT_STATUS_INTERVAL_MS,
    MIN_STATUS_INTERVAL_MS,
};
use proxy::model::{DataSource, DataSourceStatus, ProviderError, ProxyMessage};
use proxy::name::Name;
use proxy::registry::{ProviderModule, Registry};

fn source(name: &str, provider_type: &str) -> DataSource {
    DataSource::new(Name::new(name.to_string()).unwrap(), provider_type.to_string(), None, name.as_bytes().to_vec())
}

fn registry() -> Registry {
    Registry::new(
        vec![ProviderModule { provider_type: "prometheus".to_string(), bytes: vec![1] }],
        vec![source("metrics", "prometheus"), source("traces", "tempo"), source("more-metrics", "prometheus")],
    )
    .unwrap()
}

fn statuses(message: Option<ProxyMessage>) -> Option<Vec<DataSourceStatus>> {
    match message {
        Some(ProxyMessage::SetDataSources(sources)) => Some(sources.into_iter().map(|s| s.status).collect()),
        Some(other) => panic!("wrong message {:?}", other),
        None => None,
    }
}

fn unknown_provider() -> DataSourceStatus {
    DataSourceStatus::Error(ProviderError::Invocation { message: "unknown provider".to_string() })
}

#[test]
fn status_interval_has_a_default_and_a_minimum() {
    assert_eq!(DEFAULT_STATUS_INTERVAL_MS, 5 * 60 * 1000);
    assert_eq!(MIN_STATUS_INTERVAL_MS, 1000);
    assert_eq!(status_interval(None), 300_000);
    assert_eq!(status_interval(Some(0)), 1000);
    assert_eq!(status_interval(Some(999)), 1000);
    assert_eq!(status_interval(Some(1000)), 1000);
    assert_eq!(status_interval(Some(86_400_000)), 86_400_000);
}

#[test]
fn probe_outcomes_become_statuses() {
    assert_eq!(status_from_probe(ProbeOutcome::Healthy), DataSourceStatus::Connected);
    let kept = [
        ProviderError::Http { status_code: 500, response: b"Some Error".to_vec() },
        ProviderError::ValidationError { details: "url".to_string() },
        ProviderError::UnsupportedRequest,
    ];
    for error in kept {
        assert_eq!(status_from_probe(ProbeOutcome::Unhealthy(error.clone())), DataSourceStatus::Error(error));
    }
    assert_eq!(
        status_from_probe(ProbeOutcome::SandboxFailed { message: "out of memory".to_string() }),
        DataSourceStatus::Error(ProviderError::Invocation { message: "out of memory".to_string() })
    );
}

#[test]
fn health_checker_probes_only_loaded_providers() {
    let registry = registry();
    let checker = HealthChecker::new(&registry);
    let expected = |name: &str| Probe {
        data_source_name: name.to_string(),
        provider_type: "prometheus".to_string(),
        config: name.as_bytes().to_vec(),
    };
    assert_eq!(checker.probes(&registry), vec![expected("metrics"), expected("more-metrics")]);
}

#[test]
fn health_checker_starts_with_the_statuses_of_the_registry() {
    let registry = registry();
    let mut checker = HealthChecker::new(&registry);
    let not_checked = || DataSourceStatus::Error(ProviderError::NotChecked);
    assert_eq!(statuses(Some(checker.announce())), Some(vec![not_checked(), unknown_provider(), not_checked()]));
}

#[test]
fn health_checker_records_the_status_of_the_named_data_source() {
    let registry = registry();
    let mut checker = HealthChecker::new(&registry);
    checker.record("metrics", ProbeOutcome::Healthy);
    checker.record("nothing-of-that-name", ProbeOutcome::Healthy);
    checker.record("more-metrics", ProbeOutcome::SandboxFailed { message: "trap".to_string() });
    assert_eq!(
        statuses(Some(checker.snapshot())),
        Some(vec![
            DataSourceStatus::Connected,
            unknown_provider(),
            DataSourceStatus::Error(ProviderError::Invocation { message: "trap".to_string() }),
        ])
    );
}

#[test]
fn health_checker_reports_the_first_round_and_every_change() {
    let registry = registry();
    let mut checker = HealthChecker::new(&registry);
    let healthy = || Some(vec![DataSourceStatus::Connected, unknown_provider(), DataSourceStatus::Connected]);

    checker.record("metrics", ProbeOutcome::Healthy);
    checker.record("more-metrics", ProbeOutcome::Healthy);
    assert_eq!(statuses(Some(checker.announce())), healthy());

    // The first round reports although nothing changed.
    checker.record("metrics", ProbeOutcome::Healthy);
    checker.record("more-metrics", ProbeOutcome::Healthy);
    assert_eq!(statuses(checker.check()), healthy());

    // Later rounds that change nothing are silent.
    for _ in 0..3 {
        checker.record("metrics", ProbeOutcome::Healthy);
        checker.record("more-metrics", ProbeOutcome::Healthy);
        assert_eq!(checker.check(), None);
    }

    // A change is reported once.
    checker.record("metrics", ProbeOutcome::Unhealthy(ProviderError::UnsupportedRequest));
    assert_eq!(
        statuses(checker.check()),
        Some(vec![
            DataSourceStatus::Error(ProviderError::UnsupportedRequest),
            unknown_provider(),
            DataSourceStatus::Connected,
        ])
    );
    assert_eq!(checker.check(), None);

    // And so is the way back.
    checker.record("metrics", ProbeOutcome::Healthy);
    assert_eq!(statuses(checker.check()), healthy());
    assert_eq!(checker.check(), None);
}

#[test]
fn health_checker_reports_a_first_round_without_an_announcement() {
    let registry = registry();
    let mut checker = HealthChecker::new(&registry);
    assert!(checker.check().is_some());
    assert_eq!(checker.check(), None);
}

#[test]
fn health_checker_compares_the_contents_of_an_error() {
    let registry = registry();
    let mut checker = HealthChecker::new(&registry);
    let failed = |body: &str| {
        ProbeOutcome::Unhealthy(ProviderError::Http { status_code: 500, response: body.as_bytes().to_vec() })
    };
    checker.record("metrics", failed("a"));
    assert!(checker.check().is_some());
    checker.record("metrics", failed("a"));
    assert_eq!(checker.check(), None);
    checker.record("metrics", failed("b"));
    assert!(checker.check().is_some());
}
