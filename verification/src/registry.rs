//! The provider registry: which provider modules are loaded and which data
//! sources are configured. It is built once and only read afterwards.

use vstd::prelude::*;

use crate::model::{
    copy_sources, same_str, sources_view, DataSource, DataSourceStatus, DataSourceStatusView,
    DataSourceView, ProviderError, ProviderErrorView,
};

verus! {

/// The bytes of one provider module.
#[derive(Debug, PartialEq, Eq)]
pub struct ProviderModule {
    pub provider_type: String,
    pub bytes: Vec<u8>,
}

/// View of a `ProviderModule`.
pub struct ProviderModuleView {
    pub provider_type: Seq<char>,
    pub bytes: Seq<u8>,
}

impl View for ProviderModule {
    type V = ProviderModuleView;

    open spec fn view(&self) -> ProviderModuleView {
        ProviderModuleView { provider_type: self.provider_type@, bytes: self.bytes@ }
    }
}

/// Views of a list of modules, in order.
pub open spec fn modules_view(modules: Seq<ProviderModule>) -> Seq<ProviderModuleView> {
    modules.map_values(|m: ProviderModule| m@)
}

/// Why the registry cannot be built.
#[derive(Debug, PartialEq, Eq)]
pub enum StartupError {
    /// Two data sources carry the same name.
    DuplicateDataSource { name: String },
    /// Two modules claim the same provider type.
    DuplicateModule { provider_type: String },
    /// A module file was found but is no valid provider.
    InvalidModule { provider_type: String, message: String },
}

/// View of a `StartupError`.
pub enum StartupErrorView {
    DuplicateDataSource { name: Seq<char> },
    DuplicateModule { provider_type: Seq<char> },
    InvalidModule { provider_type: Seq<char>, message: Seq<char> },
}

impl View for StartupError {
    type V = StartupErrorView;

    open spec fn view(&self) -> StartupErrorView {
        match *self {
            StartupError::DuplicateDataSource { name } => StartupErrorView::DuplicateDataSource {
                name: name@,
            },
            StartupError::DuplicateModule { provider_type } => StartupErrorView::DuplicateModule {
                provider_type: provider_type@,
            },
            StartupError::InvalidModule { provider_type, message } => {
                StartupErrorView::InvalidModule { provider_type: provider_type@, message: message@ }
            },
        }
    }
}

/// No two data sources share a name.
pub open spec fn names_distinct(sources: Seq<DataSourceView>) -> bool {
    forall|i: int, j: int|
        0 <= i < j < sources.len() ==> (#[trigger] sources[i]).name != (#[trigger] sources[j]).name
}

/// No two modules share a provider type.
pub open spec fn types_distinct(modules: Seq<ProviderModuleView>) -> bool {
    forall|i: int, j: int|
        0 <= i < j < modules.len() ==> (#[trigger] modules[i]).provider_type != (
        #[trigger] modules[j]).provider_type
}

/// A data source named `name` is among `sources`.
pub open spec fn has_source(sources: Seq<DataSourceView>, name: Seq<char>) -> bool {
    exists|i: int| 0 <= i < sources.len() && (#[trigger] sources[i]).name == name
}

/// A module for `provider_type` is among `modules`.
pub open spec fn has_module(modules: Seq<ProviderModuleView>, provider_type: Seq<char>) -> bool {
    exists|i: int| 0 <= i < modules.len() && (#[trigger] modules[i]).provider_type == provider_type
}

/// The text of the status given to a data source whose provider has no module.
pub open spec fn unknown_provider_text() -> Seq<char> {
    "unknown provider"@
}

/// The status a data source starts with: not checked yet where its provider is
/// loaded, an invocation error where it is not.
pub open spec fn initial_status(
    modules: Seq<ProviderModuleView>,
    provider_type: Seq<char>,
) -> DataSourceStatusView {
    if has_module(modules, provider_type) {
        DataSourceStatusView::Error(ProviderErrorView::NotChecked)
    } else {
        DataSourceStatusView::Error(
            ProviderErrorView::Invocation { message: unknown_provider_text() },
        )
    }
}

/// The data sources as the registry keeps them: each as configured, with its
/// initial status.
pub open spec fn registered(
    modules: Seq<ProviderModuleView>,
    sources: Seq<DataSourceView>,
) -> Seq<DataSourceView> {
    Seq::new(
        sources.len(),
        |i: int|
            DataSourceView {
                status: initial_status(modules, sources[i].provider_type),
                ..sources[i]
            },
    )
}

/// Whether the module at index `j` is the first whose provider type
/// also stands at an earlier index.
pub open spec fn first_repeated_type(modules: Seq<ProviderModuleView>, j: int) -> bool {
    &&& 0 <= j < modules.len()
    &&& exists|i: int|
        0 <= i < j && (#[trigger] modules[i]).provider_type == modules[j].provider_type
    &&& types_distinct(modules.subrange(0, j))
}

/// Whether the data source at index `j` is the first whose name also
/// stands at an earlier index.
pub open spec fn first_repeated_name(sources: Seq<DataSourceView>, j: int) -> bool {
    &&& 0 <= j < sources.len()
    &&& exists|i: int| 0 <= i < j && (#[trigger] sources[i]).name == sources[j].name
    &&& names_distinct(sources.subrange(0, j))
}

/// Whether `error` names what is given twice: the first provider type
/// that repeats an earlier one, where two modules share one, else the
/// first name that repeats an earlier one.
pub open spec fn names_duplicate(
    modules: Seq<ProviderModuleView>,
    sources: Seq<DataSourceView>,
    error: StartupErrorView,
) -> bool {
    if !types_distinct(modules) {
        &&& error matches StartupErrorView::DuplicateModule { provider_type }
        &&& exists|j: int|
            first_repeated_type(modules, j) && (#[trigger] modules[j]).provider_type
                == provider_type
    } else {
        &&& error matches StartupErrorView::DuplicateDataSource { name }
        &&& exists|j: int| first_repeated_name(sources, j) && (#[trigger] sources[j]).name == name
    }
}

/// View of a `Registry`.
pub struct RegistryView {
    pub modules: Seq<ProviderModuleView>,
    pub data_sources: Seq<DataSourceView>,
}

impl RegistryView {
    /// The data source named `name`, if there is one.
    pub open spec fn lookup(self, name: Seq<char>) -> Option<DataSourceView> {
        if has_source(self.data_sources, name) {
            Some(
                self.data_sources[choose|i: int|
                    0 <= i < self.data_sources.len() && (#[trigger] self.data_sources[i]).name
                        == name],
            )
        } else {
            None
        }
    }

    /// The module for `provider_type`, if it is loaded.
    pub open spec fn module_for(self, provider_type: Seq<char>) -> Option<Seq<u8>> {
        if has_module(self.modules, provider_type) {
            Some(
                self.modules[choose|i: int|
                    0 <= i < self.modules.len() && (#[trigger] self.modules[i]).provider_type
                        == provider_type].bytes,
            )
        } else {
            None
        }
    }

    /// Names and provider types are unique, and every status is the initial one.
    pub open spec fn wf(self) -> bool {
        &&& names_distinct(self.data_sources)
        &&& types_distinct(self.modules)
        &&& self.data_sources == registered(self.modules, self.data_sources)
    }
}

/// Provider modules by type and data sources by name.
#[derive(Debug)]
pub struct Registry {
    modules: Vec<ProviderModule>,
    data_sources: Vec<DataSource>,
}

impl View for Registry {
    type V = RegistryView;

    closed spec fn view(&self) -> RegistryView {
        RegistryView {
            modules: modules_view(self.modules@),
            data_sources: sources_view(self.data_sources@),
        }
    }
}

/// Index of the module for `provider_type` in `modules`.
fn find_module(modules: &Vec<ProviderModule>, provider_type: &str) -> (res: Option<usize>)
    ensures
        res is Some <==> has_module(modules_view(modules@), provider_type@),
        res matches Some(i) ==> i < modules.len() && modules[i as int].provider_type@
            == provider_type@,
{
    let mut i: usize = 0;
    while i < modules.len()
        invariant
            0 <= i <= modules.len(),
            forall|k: int| 0 <= k < i ==> (#[trigger] modules_view(modules@)[k]).provider_type
                != provider_type@,
        decreases modules.len() - i,
    {
        if same_str(modules[i].provider_type.as_str(), provider_type) {
            assert(modules_view(modules@)[i as int].provider_type == provider_type@);
            return Some(i);
        }
        i = i + 1;
    }
    None
}

/// Index of the data source named `name` in `sources`.
fn find_source(sources: &Vec<DataSource>, name: &str) -> (res: Option<usize>)
    ensures
        res is Some <==> has_source(sources_view(sources@), name@),
        res matches Some(i) ==> i < sources.len() && sources[i as int].name@ == name@,
{
    let mut i: usize = 0;
    while i < sources.len()
        invariant
            0 <= i <= sources.len(),
            forall|k: int| 0 <= k < i ==> (#[trigger] sources_view(sources@)[k]).name != name@,
        decreases sources.len() - i,
    {
        if same_str(sources[i].name.as_str(), name) {
            assert(sources_view(sources@)[i as int].name == name@);
            return Some(i);
        }
        i = i + 1;
    }
    None
}

/// Index of a module whose provider type also stands at an earlier index.
fn repeated_module(modules: &Vec<ProviderModule>) -> (res: Option<usize>)
    ensures
        res is None <==> types_distinct(modules_view(modules@)),
        res matches Some(j) ==> first_repeated_type(modules_view(modules@), j as int),
{
    let ghost view = modules_view(modules@);
    let mut j: usize = 0;
    while j < modules.len()
        invariant
            0 <= j <= modules.len(),
            view == modules_view(modules@),
            forall|a: int, b: int|
                0 <= a < b < j ==> (#[trigger] view[a]).provider_type != (
                #[trigger] view[b]).provider_type,
        decreases modules.len() - j,
    {
        let mut i: usize = 0;
        while i < j
            invariant
                0 <= i <= j < modules.len(),
                view == modules_view(modules@),
                forall|a: int, b: int|
                    0 <= a < b < j ==> (#[trigger] view[a]).provider_type != (
                    #[trigger] view[b]).provider_type,
                forall|a: int|
                    0 <= a < i ==> (#[trigger] view[a]).provider_type
                        != view[j as int].provider_type,
            decreases j - i,
        {
            if same_str(modules[i].provider_type.as_str(), modules[j].provider_type.as_str()) {
                assert(view[i as int].provider_type == view[j as int].provider_type);
                return Some(j);
            }
            i = i + 1;
        }
        j = j + 1;
    }
    None
}

/// Index of a data source whose name also stands at an earlier index.
fn repeated_source(sources: &Vec<DataSource>) -> (res: Option<usize>)
    ensures
        res is None <==> names_distinct(sources_view(sources@)),
        res matches Some(j) ==> first_repeated_name(sources_view(sources@), j as int),
{
    let ghost view = sources_view(sources@);
    let mut j: usize = 0;
    while j < sources.len()
        invariant
            0 <= j <= sources.len(),
            view == sources_view(sources@),
            forall|a: int, b: int|
                0 <= a < b < j ==> (#[trigger] view[a]).name != (#[trigger] view[b]).name,
        decreases sources.len() - j,
    {
        let mut i: usize = 0;
        while i < j
            invariant
                0 <= i <= j < sources.len(),
                view == sources_view(sources@),
                forall|a: int, b: int|
                    0 <= a < b < j ==> (#[trigger] view[a]).name != (#[trigger] view[b]).name,
                forall|a: int| 0 <= a < i ==> (#[trigger] view[a]).name != view[j as int].name,
            decreases j - i,
        {
            if same_str(sources[i].name.as_str(), sources[j].name.as_str()) {
                assert(view[i as int].name == view[j as int].name);
                return Some(j);
            }
            i = i + 1;
        }
        j = j + 1;
    }
    None
}

impl Registry {
    #[verifier::type_invariant]
    spec fn inv(self) -> bool {
        self@.wf()
    }

    /// Builds the registry from loaded modules and configured data sources.
    ///
    /// A data source whose provider has no module is kept, with an
    /// invocation error as its status. The statuses that the given data
    /// sources carry are not used.
    pub fn new(
        modules: Vec<ProviderModule>,
        data_sources: Vec<DataSource>,
    ) -> (res: Result<Registry, StartupError>)
        ensures
            res is Ok <==> types_distinct(modules_view(modules@)) && names_distinct(
                sources_view(data_sources@),
            ),
            res matches Ok(r) ==> {
                &&& r@.wf()
                &&& r@.modules == modules_view(modules@)
                &&& r@.data_sources == registered(
                    modules_view(modules@),
                    sources_view(data_sources@),
                )
            },
            res matches Err(e) ==> names_duplicate(
                modules_view(modules@),
                sources_view(data_sources@),
                e@,
            ),
    {
        let ghost mv = modules_view(modules@);
        let ghost sv = sources_view(data_sources@);
        match repeated_module(&modules) {
            Some(j) => {
                return Err(
                    StartupError::DuplicateModule {
                        provider_type: modules[j].provider_type.clone(),
                    },
                );
            },
            None => {},
        }
        match repeated_source(&data_sources) {
            Some(j) => {
                return Err(
                    StartupError::DuplicateDataSource {
                        name: data_sources[j].name.as_str().to_owned(),
                    },
                );
            },
            None => {},
        }
        let mut kept: Vec<DataSource> = Vec::new();
        let mut i: usize = 0;
        while i < data_sources.len()
            invariant
                0 <= i <= data_sources.len(),
                kept.len() == i,
                mv == modules_view(modules@),
                sv == sources_view(data_sources@),
                forall|k: int| 0 <= k < i ==> (#[trigger] kept[k])@ == registered(mv, sv)[k],
            decreases data_sources.len() - i,
        {
            let source = &data_sources[i];
            let status = match find_module(&modules, source.provider_type.as_str()) {
                Some(_) => DataSourceStatus::Error(ProviderError::NotChecked),
                None => {
                    proof {
                        reveal_strlit("unknown provider");
                    }
                    DataSourceStatus::Error(
                        ProviderError::Invocation { message: "unknown provider".to_owned() },
                    )
                },
            };
            kept.push(source.with_status(status));
            i = i + 1;
        }
        let ghost rv = sources_view(kept@);
        assert(registered(mv, rv) =~= rv);
        Ok(Registry { modules, data_sources: kept })
    }

    /// The data source named `name`.
    pub fn lookup_data_source(&self, name: &str) -> (res: Option<&DataSource>)
        ensures
            self@.wf(),
            res is Some <==> has_source(self@.data_sources, name@),
            res matches Some(d) ==> self@.lookup(name@) == Some(d@) && d@.name == name@,
            res is None ==> self@.lookup(name@) is None,
    {
        proof {
            use_type_invariant(self);
        }
        match find_source(&self.data_sources, name) {
            Some(i) => {
                assert(self@.data_sources[i as int].name == name@);
                Some(&self.data_sources[i])
            },
            None => None,
        }
    }

    /// The module for `provider_type`.
    pub fn module_for(&self, provider_type: &str) -> (res: Option<&Vec<u8>>)
        ensures
            self@.wf(),
            res is Some <==> has_module(self@.modules, provider_type@),
            res matches Some(b) ==> self@.module_for(provider_type@) == Some(b@),
            res is None ==> self@.module_for(provider_type@) is None,
    {
        proof {
            use_type_invariant(self);
        }
        match find_module(&self.modules, provider_type) {
            Some(i) => {
                assert(self@.modules[i as int].provider_type == provider_type@);
                Some(&self.modules[i].bytes)
            },
            None => None,
        }
    }

    /// A copy of every data source, in the order in which they were configured.
    pub fn list(&self) -> (res: Vec<DataSource>)
        ensures
            self@.wf(),
            sources_view(res@) == self@.data_sources,
    {
        proof {
            use_type_invariant(self);
        }
        copy_sources(&self.data_sources)
    }

    /// How many data sources are configured.
    pub fn len(&self) -> (res: usize)
        ensures
            res == self@.data_sources.len(),
    {
        self.data_sources.len()
    }
}

} // verus!
