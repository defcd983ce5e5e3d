//! The proxy service: its settings and its registry, ready to connect.

use vstd::prelude::*;

use crate::dispatcher::DEFAULT_MAX_CONCURRENT_REQUESTS;
use crate::error::{SessionError, SessionErrorView};
use crate::handshake::{
    auth_header_text, handshake_request, handshake_url, header_value_accepted, uri_accepted, workspace_id_text,
    HandshakeRequest, ProxyToken,
};
use crate::health::MIN_STATUS_INTERVAL_MS;
use crate::model::{same_str, sources_view, DataSource, DataSourceView};
use crate::registry::{
    modules_view, names_distinct, names_duplicate, registered, types_distinct, ProviderModule,
    ProviderModuleView,
    Registry, RegistryView, StartupError, StartupErrorView,
};
use crate::session::DEFAULT_INACTIVITY_TIMEOUT_MS;

verus! {

/// Views of a list of texts, in order.
pub open spec fn texts_view(texts: Seq<String>) -> Seq<Seq<char>> {
    texts.map_values(|t: String| t@)
}

/// The provider types that `sources` name, each once, in the order in which
/// they first occur.
pub open spec fn distinct_types(sources: Seq<DataSourceView>) -> Seq<Seq<char>>
    decreases sources.len(),
{
    if sources.len() == 0 {
        Seq::empty()
    } else {
        let earlier = distinct_types(sources.drop_last());
        if earlier.contains(sources.last().provider_type) {
            earlier
        } else {
            earlier.push(sources.last().provider_type)
        }
    }
}

/// `distinct_types` names every provider type of `sources`, names nothing
/// else, and names nothing twice.
pub proof fn lemma_distinct_types(sources: Seq<DataSourceView>)
    ensures
        forall|i: int|
            0 <= i < sources.len() ==> distinct_types(sources).contains(
                (#[trigger] sources[i]).provider_type,
            ),
        forall|j: int|
            0 <= j < distinct_types(sources).len() ==> exists|i: int|
                0 <= i < sources.len() && (#[trigger] sources[i]).provider_type
                    == #[trigger] distinct_types(sources)[j],
        distinct_types(sources).no_duplicates(),
    decreases sources.len(),
{
    if sources.len() > 0 {
        let rest = sources.drop_last();
        let earlier = distinct_types(rest);
        let last = sources.last().provider_type;
        let all = distinct_types(sources);
        lemma_distinct_types(rest);
        assert forall|i: int| 0 <= i < sources.len() implies all.contains(
            (#[trigger] sources[i]).provider_type,
        ) by {
            if i < rest.len() {
                assert(rest[i] == sources[i]);
                let j = choose|j: int|
                    0 <= j < earlier.len() && earlier[j] == rest[i].provider_type;
                assert(all[j] == earlier[j]);
            } else if !earlier.contains(last) {
                assert(all[earlier.len() as int] == last);
            }
        }
    }
}

/// Whether `text` is among `texts`.
fn contains_text(texts: &Vec<String>, text: &str) -> (res: bool)
    ensures
        res == texts_view(texts@).contains(text@),
{
    let mut i: usize = 0;
    while i < texts.len()
        invariant
            0 <= i <= texts.len(),
            forall|k: int| 0 <= k < i ==> texts_view(texts@)[k] != text@,
        decreases texts.len() - i,
    {
        if same_str(texts[i].as_str(), text) {
            assert(texts_view(texts@)[i as int] == text@);
            return true;
        }
        i = i + 1;
    }
    false
}

/// The provider types whose modules are to be loaded for `data_sources`:
/// each type that a data source names, once.
pub fn provider_types(data_sources: &Vec<DataSource>) -> (res: Vec<String>)
    ensures
        texts_view(res@) == distinct_types(sources_view(data_sources@)),
{
    let ghost all = sources_view(data_sources@);
    let mut out: Vec<String> = Vec::new();
    let mut i: usize = 0;
    while i < data_sources.len()
        invariant
            0 <= i <= data_sources.len(),
            all == sources_view(data_sources@),
            texts_view(out@) == distinct_types(all.subrange(0, i as int)),
        decreases data_sources.len() - i,
    {
        let source = &data_sources[i];
        assert(all.subrange(0, i + 1).drop_last() =~= all.subrange(0, i as int));
        if !contains_text(&out, source.provider_type.as_str()) {
            out.push(source.provider_type.clone());
        }
        i = i + 1;
    }
    assert(all.subrange(0, i as int) =~= all);
    out
}

/// What loading the module of one provider type brought.
#[derive(Debug, PartialEq, Eq)]
pub enum ModuleLoad {
    /// The module was read and is a valid provider.
    Loaded { provider_type: String, bytes: Vec<u8> },
    /// There is no module for this provider type.
    Missing { provider_type: String },
    /// There is a module, but it is no valid provider.
    Invalid { provider_type: String, message: String },
}

/// View of a `ModuleLoad`.
pub enum ModuleLoadView {
    Loaded { provider_type: Seq<char>, bytes: Seq<u8> },
    Missing { provider_type: Seq<char> },
    Invalid { provider_type: Seq<char>, message: Seq<char> },
}

impl View for ModuleLoad {
    type V = ModuleLoadView;

    open spec fn view(&self) -> ModuleLoadView {
        match *self {
            ModuleLoad::Loaded { provider_type, bytes } => ModuleLoadView::Loaded {
                provider_type: provider_type@,
                bytes: bytes@,
            },
            ModuleLoad::Missing { provider_type } => ModuleLoadView::Missing {
                provider_type: provider_type@,
            },
            ModuleLoad::Invalid { provider_type, message } => ModuleLoadView::Invalid {
                provider_type: provider_type@,
                message: message@,
            },
        }
    }
}

/// Views of a list of loads, in order.
pub open spec fn loads_view(loads: Seq<ModuleLoad>) -> Seq<ModuleLoadView> {
    loads.map_values(|l: ModuleLoad| l@)
}

/// The modules that were loaded, in the order of the loads.
pub open spec fn loaded_modules(loads: Seq<ModuleLoadView>) -> Seq<ProviderModuleView>
    decreases loads.len(),
{
    if loads.len() == 0 {
        Seq::empty()
    } else {
        let earlier = loaded_modules(loads.drop_last());
        match loads.last() {
            ModuleLoadView::Loaded { provider_type, bytes } => earlier.push(
                ProviderModuleView { provider_type, bytes },
            ),
            _ => earlier,
        }
    }
}

/// The first load that found an invalid module, as the error it stands for.
pub open spec fn first_invalid(loads: Seq<ModuleLoadView>) -> Option<StartupErrorView>
    decreases loads.len(),
{
    if loads.len() == 0 {
        None
    } else {
        match first_invalid(loads.drop_last()) {
            Some(e) => Some(e),
            None => match loads.last() {
                ModuleLoadView::Invalid { provider_type, message } => Some(
                    StartupErrorView::InvalidModule { provider_type, message },
                ),
                _ => None,
            },
        }
    }
}

/// Sorts out what the loads brought: the modules that were loaded, or the
/// first invalid module as an error.
pub fn collect_modules(loads: Vec<ModuleLoad>) -> (res: Result<Vec<ProviderModule>, StartupError>)
    ensures
        res is Ok <==> first_invalid(loads_view(loads@)) is None,
        res matches Ok(modules) ==> modules_view(modules@) == loaded_modules(loads_view(loads@)),
        res matches Err(e) ==> first_invalid(loads_view(loads@)) == Some(e@),
{
    let ghost all = loads_view(loads@);
    let mut rest = loads;
    let mut out: Vec<ProviderModule> = Vec::new();
    let ghost mut done: int = 0;
    while rest.len() > 0
        invariant
            0 <= done,
            all == loads_view(loads@),
            done + rest.len() == all.len(),
            forall|k: int| 0 <= k < rest.len() ==> (#[trigger] rest[k])@ == all[done + k],
            first_invalid(all.subrange(0, done)) is None,
            modules_view(out@) == loaded_modules(all.subrange(0, done)),
        decreases rest.len(),
    {
        let load = rest.remove(0);
        assert(all.subrange(0, done + 1).drop_last() =~= all.subrange(0, done));
        match load {
            ModuleLoad::Loaded { provider_type, bytes } => {
                out.push(ProviderModule { provider_type, bytes });
            },
            ModuleLoad::Missing { .. } => {},
            ModuleLoad::Invalid { provider_type, message } => {
                proof {
                    lemma_first_invalid_stays(all, done + 1);
                }
                return Err(StartupError::InvalidModule { provider_type, message });
            },
        }
        proof {
            done = done + 1;
        }
    }
    assert(all.subrange(0, done) =~= all);
    Ok(out)
}

/// An invalid module among the first `n` loads is the first invalid module
/// of all loads.
proof fn lemma_first_invalid_stays(loads: Seq<ModuleLoadView>, n: int)
    requires
        0 <= n <= loads.len(),
        first_invalid(loads.subrange(0, n)) is Some,
    ensures
        first_invalid(loads) == first_invalid(loads.subrange(0, n)),
    decreases loads.len() - n,
{
    if n < loads.len() {
        assert(loads.subrange(0, n + 1).drop_last() =~= loads.subrange(0, n));
        lemma_first_invalid_stays(loads, n + 1);
    } else {
        assert(loads.subrange(0, n) =~= loads);
    }
}

/// The settings of the service.
pub struct ServiceView {
    pub endpoint: Seq<char>,
    pub workspace_id: u128,
    pub proxy_name: Seq<char>,
    pub token: Seq<char>,
    pub registry: RegistryView,
    pub max_retries: u32,
    pub max_concurrent_requests: nat,
    pub listen_addr: Option<Seq<char>>,
    pub status_interval: u64,
    pub inactivity_timeout: u64,
}

impl ServiceView {
    /// The address that the service connects to.
    pub open spec fn url(self) -> Seq<char> {
        handshake_url(self.endpoint, workspace_id_text(self.workspace_id), self.proxy_name)
    }

    /// Whether the `http` crate builds the request that opens a session.
    pub open spec fn request_accepted(self) -> bool {
        uri_accepted(self.url()) && header_value_accepted(self.token)
    }
}

/// The proxy: where it connects, as whom, and what it serves.
#[derive(Debug)]
pub struct ProxyService {
    endpoint: String,
    token: ProxyToken,
    registry: Registry,
    max_retries: u32,
    max_concurrent_requests: usize,
    listen_addr: Option<String>,
    status_interval: u64,
    inactivity_timeout: u64,
}

impl View for ProxyService {
    type V = ServiceView;

    closed spec fn view(&self) -> ServiceView {
        ServiceView {
            endpoint: self.endpoint@,
            workspace_id: self.token.workspace_id,
            proxy_name: self.token.proxy_name@,
            token: self.token.token@,
            registry: self.registry@,
            max_retries: self.max_retries,
            max_concurrent_requests: self.max_concurrent_requests as nat,
            listen_addr: match self.listen_addr {
                Some(a) => Some(a@),
                None => None,
            },
            status_interval: self.status_interval,
            inactivity_timeout: self.inactivity_timeout,
        }
    }
}

/// The service that `new` builds of its arguments.
pub open spec fn service_of(
    endpoint: Seq<char>,
    token: ProxyToken,
    modules: Seq<ProviderModuleView>,
    sources: Seq<DataSourceView>,
    max_retries: u32,
    listen_addr: Option<String>,
    status_interval: u64,
) -> ServiceView {
    ServiceView {
        endpoint,
        workspace_id: token.workspace_id,
        proxy_name: token.proxy_name@,
        token: token.token@,
        registry: RegistryView { modules, data_sources: registered(modules, sources) },
        max_retries,
        max_concurrent_requests: DEFAULT_MAX_CONCURRENT_REQUESTS as nat,
        listen_addr: match listen_addr {
            Some(a) => Some(a@),
            None => None,
        },
        status_interval: if status_interval < MIN_STATUS_INTERVAL_MS {
            MIN_STATUS_INTERVAL_MS
        } else {
            status_interval
        },
        inactivity_timeout: DEFAULT_INACTIVITY_TIMEOUT_MS,
    }
}

impl ProxyService {
    /// Builds the service of modules that are already loaded.
    ///
    /// `status_interval` is the time between two rounds of probes in
    /// milliseconds; less than a second counts as a second. The pool has
    /// five workers and the keep-alive timeout is 45 seconds until they are
    /// set otherwise. Two modules of one provider type, or two data sources
    /// of one name, are refused.
    pub fn new(
        endpoint: String,
        token: ProxyToken,
        modules: Vec<ProviderModule>,
        data_sources: Vec<DataSource>,
        max_retries: u32,
        listen_addr: Option<String>,
        status_interval: u64,
    ) -> (res: Result<ProxyService, StartupError>)
        ensures
            res is Ok <==> types_distinct(modules_view(modules@)) && names_distinct(
                sources_view(data_sources@),
            ),
            res matches Ok(service) ==> service@ == service_of(
                endpoint@,
                token,
                modules_view(modules@),
                sources_view(data_sources@),
                max_retries,
                listen_addr,
                status_interval,
            ) && service@.registry.wf(),
            res matches Err(e) ==> names_duplicate(
                modules_view(modules@),
                sources_view(data_sources@),
                e@,
            ),
    {
        match Registry::new(modules, data_sources) {
            Ok(registry) => Ok(
                ProxyService {
                    endpoint,
                    token,
                    registry,
                    max_retries,
                    max_concurrent_requests: DEFAULT_MAX_CONCURRENT_REQUESTS,
                    listen_addr,
                    status_interval: crate::health::status_interval(Some(status_interval)),
                    inactivity_timeout: DEFAULT_INACTIVITY_TIMEOUT_MS,
                },
            ),
            Err(e) => Err(e),
        }
    }

    /// Builds the service of what loading the provider modules brought.
    ///
    /// An invalid module aborts the startup. A provider type without a
    /// module does not: its data sources are kept and reported with an
    /// invocation error.
    pub fn init(
        endpoint: String,
        token: ProxyToken,
        loads: Vec<ModuleLoad>,
        data_sources: Vec<DataSource>,
        max_retries: u32,
        listen_addr: Option<String>,
        status_interval: u64,
    ) -> (res: Result<ProxyService, StartupError>)
        ensures
            res is Ok <==> first_invalid(loads_view(loads@)) is None && types_distinct(
                loaded_modules(loads_view(loads@)),
            ) && names_distinct(sources_view(data_sources@)),
            res matches Ok(service) ==> service@ == service_of(
                endpoint@,
                token,
                loaded_modules(loads_view(loads@)),
                sources_view(data_sources@),
                max_retries,
                listen_addr,
                status_interval,
            ) && service@.registry.wf(),
            res matches Err(e) ==> if first_invalid(loads_view(loads@)) is Some {
                first_invalid(loads_view(loads@)) == Some(e@)
            } else {
                names_duplicate(
                    loaded_modules(loads_view(loads@)),
                    sources_view(data_sources@),
                    e@,
                )
            },
    {
        match collect_modules(loads) {
            Ok(modules) => ProxyService::new(
                endpoint,
                token,
                modules,
                data_sources,
                max_retries,
                listen_addr,
                status_interval,
            ),
            Err(e) => Err(e),
        }
    }

    /// The same service with a pool of `workers` workers; a pool of none is
    /// a pool of one.
    pub fn with_max_concurrent_requests(self, workers: usize) -> (res: ProxyService)
        ensures
            res@ == (ServiceView {
                max_concurrent_requests: if workers == 0 {
                    1
                } else {
                    workers as nat
                },
                ..self@
            }),
    {
        ProxyService {
            endpoint: self.endpoint,
            token: self.token,
            registry: self.registry,
            max_retries: self.max_retries,
            max_concurrent_requests: if workers == 0 {
                1
            } else {
                workers
            },
            listen_addr: self.listen_addr,
            status_interval: self.status_interval,
            inactivity_timeout: self.inactivity_timeout,
        }
    }

    /// The same service with a keep-alive timeout of `millis` milliseconds.
    pub fn with_inactivity_timeout(self, millis: u64) -> (res: ProxyService)
        ensures
            res@ == (ServiceView { inactivity_timeout: millis, ..self@ }),
    {
        ProxyService {
            endpoint: self.endpoint,
            token: self.token,
            registry: self.registry,
            max_retries: self.max_retries,
            max_concurrent_requests: self.max_concurrent_requests,
            listen_addr: self.listen_addr,
            status_interval: self.status_interval,
            inactivity_timeout: millis,
        }
    }

    /// The registry of the service.
    pub fn registry(&self) -> (res: &Registry)
        ensures
            res@ == self@.registry,
    {
        &self.registry
    }

    /// How often a failed session is tried again.
    pub fn max_retries(&self) -> (res: u32)
        ensures
            res == self@.max_retries,
    {
        self.max_retries
    }

    /// How many workers the pool has.
    pub fn max_concurrent_requests(&self) -> (res: usize)
        ensures
            res == self@.max_concurrent_requests,
    {
        self.max_concurrent_requests
    }

    /// Where the local health endpoint listens, if it is wanted.
    pub fn listen_addr(&self) -> (res: Option<&String>)
        ensures
            match res {
                Some(a) => Some(a@),
                None => None,
            } == self@.listen_addr,
    {
        self.listen_addr.as_ref()
    }

    /// The time between two rounds of probes, in milliseconds.
    pub fn status_interval(&self) -> (res: u64)
        ensures
            res == self@.status_interval,
    {
        self.status_interval
    }

    /// The keep-alive timeout, in milliseconds.
    pub fn inactivity_timeout(&self) -> (res: u64)
        ensures
            res == self@.inactivity_timeout,
    {
        self.inactivity_timeout
    }

    /// The request that opens a session: the address
    /// `{endpoint}/api/workspaces/{workspace_id}/proxies/{proxy_name}/ws`
    /// and the token for the header `fp-auth-token`.
    pub fn handshake(&self) -> (res: Result<HandshakeRequest, SessionError>)
        ensures
            res is Ok <==> self@.request_accepted(),
            res matches Ok(request) ==> request.url@ == self@.url() && request.auth_header@
                == auth_header_text() && request.auth_token@ == self@.token,
            res matches Err(e) ==> e@ == SessionErrorView::Handshake(
                crate::error::HandshakeError::InvalidRequest,
            ),
    {
        handshake_request(self.endpoint.as_str(), &self.token)
    }
}

} // verus!
