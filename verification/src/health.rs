//! The health checker: it keeps the status of every data source and tells
//! the control plane when that status is first known and when it changes.

use vstd::prelude::*;

use crate::model::{
    copy_bytes, copy_sources, same_str, sources_view, statuses_view, DataSource, DataSourceStatus,
    DataSourceStatusView, DataSourceView, ProviderError, ProviderErrorView, ProxyMessage,
    ProxyMessageView,
};
use crate::registry::{has_module, Registry, RegistryView};

verus! {

/// The time between two rounds of probes where none is configured: 5 minutes.
pub const DEFAULT_STATUS_INTERVAL_MS: u64 = 300000;

/// The shortest time between two rounds of probes: 1 second.
pub const MIN_STATUS_INTERVAL_MS: u64 = 1000;

/// The time between two rounds of probes for a configured interval: the
/// default where none is configured, and never less than the minimum.
pub fn status_interval(configured: Option<u64>) -> (millis: u64)
    ensures
        millis == match configured {
            None => DEFAULT_STATUS_INTERVAL_MS,
            Some(m) => if m < MIN_STATUS_INTERVAL_MS {
                MIN_STATUS_INTERVAL_MS
            } else {
                m
            },
        },
{
    match configured {
        None => DEFAULT_STATUS_INTERVAL_MS,
        Some(m) => if m < MIN_STATUS_INTERVAL_MS {
            MIN_STATUS_INTERVAL_MS
        } else {
            m
        },
    }
}

/// What a status request to a provider brought.
#[derive(Debug, PartialEq, Eq)]
pub enum ProbeOutcome {
    /// The provider reports that it reaches its backend.
    Healthy,
    /// The provider answered with an error.
    Unhealthy(ProviderError),
    /// The sandbox failed before the provider answered.
    SandboxFailed { message: String },
}

/// View of a `ProbeOutcome`.
pub enum ProbeOutcomeView {
    Healthy,
    Unhealthy(ProviderErrorView),
    SandboxFailed { message: Seq<char> },
}

impl View for ProbeOutcome {
    type V = ProbeOutcomeView;

    open spec fn view(&self) -> ProbeOutcomeView {
        match *self {
            ProbeOutcome::Healthy => ProbeOutcomeView::Healthy,
            ProbeOutcome::Unhealthy(e) => ProbeOutcomeView::Unhealthy(e@),
            ProbeOutcome::SandboxFailed { message } => ProbeOutcomeView::SandboxFailed {
                message: message@,
            },
        }
    }
}

/// The status that a probe stands for: connected on success, the error of
/// the provider as it is, an invocation error where the sandbox failed.
pub open spec fn status_of(outcome: ProbeOutcomeView) -> DataSourceStatusView {
    match outcome {
        ProbeOutcomeView::Healthy => DataSourceStatusView::Connected,
        ProbeOutcomeView::Unhealthy(e) => DataSourceStatusView::Error(e),
        ProbeOutcomeView::SandboxFailed { message } => DataSourceStatusView::Error(
            ProviderErrorView::Invocation { message },
        ),
    }
}

/// Turns what a probe brought into the status of the data source.
pub fn status_from_probe(outcome: ProbeOutcome) -> (status: DataSourceStatus)
    ensures
        status@ == status_of(outcome@),
{
    match outcome {
        ProbeOutcome::Healthy => DataSourceStatus::Connected,
        ProbeOutcome::Unhealthy(e) => DataSourceStatus::Error(e),
        ProbeOutcome::SandboxFailed { message } => DataSourceStatus::Error(
            ProviderError::Invocation { message },
        ),
    }
}

/// One status request that is to be run.
#[derive(Debug, PartialEq, Eq)]
pub struct Probe {
    pub data_source_name: String,
    pub provider_type: String,
    pub config: Vec<u8>,
}

/// View of a `Probe`.
pub struct ProbeView {
    pub data_source_name: Seq<char>,
    pub provider_type: Seq<char>,
    pub config: Seq<u8>,
}

impl View for Probe {
    type V = ProbeView;

    open spec fn view(&self) -> ProbeView {
        ProbeView {
            data_source_name: self.data_source_name@,
            provider_type: self.provider_type@,
            config: self.config@,
        }
    }
}

/// Views of a list of probes, in order.
pub open spec fn probes_view(probes: Seq<Probe>) -> Seq<ProbeView> {
    probes.map_values(|p: Probe| p@)
}

/// The probe of one data source.
pub open spec fn probe_of(source: DataSourceView) -> ProbeView {
    ProbeView {
        data_source_name: source.name,
        provider_type: source.provider_type,
        config: source.config,
    }
}

/// The probes of one round: one for each data source whose provider is
/// loaded, in the order of the data sources.
pub open spec fn probes_of(registry: RegistryView, sources: Seq<DataSourceView>) -> Seq<ProbeView>
    decreases sources.len(),
{
    if sources.len() == 0 {
        Seq::empty()
    } else {
        let earlier = probes_of(registry, sources.drop_last());
        if has_module(registry.modules, sources.last().provider_type) {
            earlier.push(probe_of(sources.last()))
        } else {
            earlier
        }
    }
}

/// The statuses of a list of data sources, in order.
pub open spec fn statuses_of(sources: Seq<DataSourceView>) -> Seq<DataSourceStatusView> {
    sources.map_values(|d: DataSourceView| d.status)
}

/// The data sources after `status` was recorded for `name`.
pub open spec fn recorded(
    sources: Seq<DataSourceView>,
    name: Seq<char>,
    status: DataSourceStatusView,
) -> Seq<DataSourceView> {
    sources.map_values(
        |d: DataSourceView|
            if d.name == name {
                DataSourceView { status, ..d }
            } else {
                d
            },
    )
}

/// The state of the health checker.
pub struct HealthView {
    /// The data sources with their current status.
    pub sources: Seq<DataSourceView>,
    /// The statuses in the list that was sent last, if one was sent.
    pub published: Option<Seq<DataSourceStatusView>>,
    /// Whether a round of probes has been concluded.
    pub checked: bool,
}

impl HealthView {
    /// Whether the list that was sent last shows every status as it is now.
    pub open spec fn up_to_date(self) -> bool {
        self.published == Some(statuses_of(self.sources))
    }

    /// After a probe of the data source `name` came back.
    pub open spec fn after_record(self, name: Seq<char>, outcome: ProbeOutcomeView) -> HealthView {
        HealthView { sources: recorded(self.sources, name, status_of(outcome)), ..self }
    }

    /// The list of all data sources with their current status.
    pub open spec fn snapshot(self) -> ProxyMessageView {
        ProxyMessageView::SetDataSources(self.sources)
    }

    /// After the list was sent at the opening of a session.
    pub open spec fn after_announce(self) -> HealthView {
        HealthView { published: Some(statuses_of(self.sources)), ..self }
    }

    /// Whether the end of a round of probes is reported: at the first round,
    /// and whenever a status differs from what was sent last.
    pub open spec fn publishes(self) -> bool {
        !self.checked || !self.up_to_date()
    }

    /// What is sent at the end of a round of probes.
    pub open spec fn on_check(self) -> Option<ProxyMessageView> {
        if self.publishes() {
            Some(self.snapshot())
        } else {
            None
        }
    }

    /// After a round of probes was concluded.
    pub open spec fn after_check(self) -> HealthView {
        HealthView { published: Some(statuses_of(self.sources)), checked: true, ..self }
    }
}

/// The health checker of one session.
#[derive(Debug)]
pub struct HealthChecker {
    sources: Vec<DataSource>,
    published: Option<Vec<DataSourceStatus>>,
    checked: bool,
}

impl View for HealthChecker {
    type V = HealthView;

    closed spec fn view(&self) -> HealthView {
        HealthView {
            sources: sources_view(self.sources@),
            published: match self.published {
                Some(statuses) => Some(statuses_view(statuses@)),
                None => None,
            },
            checked: self.checked,
        }
    }
}

/// The statuses of `sources`, copied.
fn statuses(sources: &Vec<DataSource>) -> (res: Vec<DataSourceStatus>)
    ensures
        statuses_view(res@) == statuses_of(sources_view(sources@)),
{
    let mut out: Vec<DataSourceStatus> = Vec::new();
    let mut i: usize = 0;
    while i < sources.len()
        invariant
            0 <= i <= sources.len(),
            out.len() == i,
            forall|k: int| 0 <= k < i ==> (#[trigger] out[k])@ == sources[k].status@,
        decreases sources.len() - i,
    {
        out.push(sources[i].status.clone());
        i = i + 1;
    }
    out
}

/// Whether `statuses` are the statuses of `sources`.
fn shows(statuses: &Vec<DataSourceStatus>, sources: &Vec<DataSource>) -> (res: bool)
    ensures
        res == (statuses_view(statuses@) == statuses_of(sources_view(sources@))),
{
    let ghost left = statuses_view(statuses@);
    let ghost right = statuses_of(sources_view(sources@));
    if statuses.len() != sources.len() {
        assert(left.len() != right.len());
        return false;
    }
    let mut i: usize = 0;
    while i < statuses.len()
        invariant
            0 <= i <= statuses.len(),
            statuses.len() == sources.len(),
            left == statuses_view(statuses@),
            right == statuses_of(sources_view(sources@)),
            forall|k: int| 0 <= k < i ==> left[k] == right[k],
        decreases statuses.len() - i,
    {
        if !statuses[i].same(&sources[i].status) {
            assert(left[i as int] != right[i as int]);
            return false;
        }
        i = i + 1;
    }
    assert(left =~= right);
    true
}

impl HealthChecker {
    /// A checker for the data sources of `registry`, each with the status
    /// that the registry gave it. Nothing has been sent yet.
    pub fn new(registry: &Registry) -> (res: HealthChecker)
        ensures
            res@ == (HealthView {
                sources: registry@.data_sources,
                published: None,
                checked: false,
            }),
    {
        HealthChecker { sources: registry.list(), published: None, checked: false }
    }

    /// The status requests of one round: one for each data source whose
    /// provider is loaded.
    pub fn probes(&self, registry: &Registry) -> (res: Vec<Probe>)
        ensures
            probes_view(res@) == probes_of(registry@, self@.sources),
    {
        let ghost all = sources_view(self.sources@);
        let mut out: Vec<Probe> = Vec::new();
        let mut i: usize = 0;
        while i < self.sources.len()
            invariant
                0 <= i <= self.sources.len(),
                all == sources_view(self.sources@),
                probes_view(out@) == probes_of(registry@, all.subrange(0, i as int)),
            decreases self.sources.len() - i,
        {
            let source = &self.sources[i];
            assert(all.subrange(0, i + 1).drop_last() =~= all.subrange(0, i as int));
            if registry.module_for(source.provider_type.as_str()).is_some() {
                let probe = Probe {
                    data_source_name: source.name.as_str().to_owned(),
                    provider_type: source.provider_type.clone(),
                    config: copy_bytes(&source.config),
                };
                out.push(probe);
            }
            i = i + 1;
        }
        assert(all.subrange(0, i as int) =~= all);
        out
    }

    /// Records what a probe of the data source `name` brought.
    pub fn record(&mut self, name: &str, outcome: ProbeOutcome)
        ensures
            final(self)@ == old(self)@.after_record(name@, outcome@),
    {
        let status = status_from_probe(outcome);
        let ghost before = sources_view(self.sources@);
        let mut i: usize = 0;
        while i < self.sources.len()
            invariant
                0 <= i <= self.sources.len(),
                self.sources.len() == before.len(),
                self.published == old(self).published,
                self.checked == old(self).checked,
                forall|k: int|
                    0 <= k < i ==> (#[trigger] self.sources[k])@ == recorded(
                        before,
                        name@,
                        status@,
                    )[k],
                forall|k: int| i <= k < before.len() ==> (#[trigger] self.sources[k])@ == before[k],
            decreases self.sources.len() - i,
        {
            if same_str(self.sources[i].name.as_str(), name) {
                let changed = self.sources[i].with_status(status.clone());
                self.sources.set(i, changed);
            }
            i = i + 1;
        }
        assert(sources_view(self.sources@) =~= recorded(before, name@, status@));
    }

    /// The list of all data sources with their current status.
    pub fn snapshot(&self) -> (message: ProxyMessage)
        ensures
            message@ == self@.snapshot(),
    {
        ProxyMessage::SetDataSources(copy_sources(&self.sources))
    }

    /// The list that is sent when a session has opened. It is sent whatever
    /// was sent before.
    pub fn announce(&mut self) -> (message: ProxyMessage)
        ensures
            message@ == old(self)@.snapshot(),
            final(self)@ == old(self)@.after_announce(),
            final(self)@.up_to_date(),
    {
        self.published = Some(statuses(&self.sources));
        self.snapshot()
    }

    /// Concludes a round of probes. The list is sent at the first round and
    /// whenever a status differs from what was sent last; a round that
    /// changed nothing sends nothing.
    pub fn check(&mut self) -> (message: Option<ProxyMessage>)
        ensures
            match message {
                Some(m) => Some(m@),
                None => None,
            } == old(self)@.on_check(),
            final(self)@ == old(self)@.after_check(),
            final(self)@.up_to_date(),
    {
        let up_to_date = match &self.published {
            Some(published) => shows(published, &self.sources),
            None => false,
        };
        let publish = !self.checked || !up_to_date;
        self.checked = true;
        if publish {
            self.published = Some(statuses(&self.sources));
            Some(self.snapshot())
        } else {
            None
        }
    }
}

/// What the control plane was told last is what holds now. After the list
/// was sent, at the opening of a session or at the end of a round, it shows
/// every status as it is, and it keeps doing so until a probe comes back.
/// One probe changes the status of the data source it names and of no other.
pub proof fn lemma_last_list_is_current(
    health: HealthView,
    name: Seq<char>,
    outcome: ProbeOutcomeView,
)
    ensures
        health.after_announce().up_to_date(),
        health.after_check().up_to_date(),
        health.on_check() matches Some(m) ==> m == ProxyMessageView::SetDataSources(health.sources),
        forall|i: int|
            0 <= i < health.sources.len() && (#[trigger] health.sources[i]).name != name
                ==> health.after_record(name, outcome).sources[i] == health.sources[i],
        health.after_record(name, outcome).sources.len() == health.sources.len(),
{
}

/// A round that changed nothing sends nothing, except the first: after a
/// round was concluded, another one without a probe in between is silent,
/// and so is every later round that finds the statuses as they were sent.
pub proof fn lemma_unchanged_status_is_silent(health: HealthView)
    ensures
        health.after_check().on_check() is None,
        health.checked && health.up_to_date() ==> health.on_check() is None,
        !health.checked ==> health.on_check() == Some(health.snapshot()),
        health.checked && !health.up_to_date() ==> health.on_check() == Some(health.snapshot()),
{
}

} // verus!
