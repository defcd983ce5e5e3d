//! The values that travel through the engine, each with its mathematical view.

use vstd::prelude::*;
use vstd::utf8::encode_utf8_decode_utf8;

use crate::name::Name;

verus! {

/// Correlation key of one request: 128 bits minted by the peer and echoed back.
#[derive(Clone, Copy, Debug, PartialEq, Eq, Hash, Structural)]
pub struct OpId(pub u128);

/// Copies a byte buffer.
pub fn copy_bytes(bytes: &Vec<u8>) -> (res: Vec<u8>)
    ensures
        res@ == bytes@,
{
    let mut out: Vec<u8> = Vec::new();
    let mut i: usize = 0;
    while i < bytes.len()
        invariant
            0 <= i <= bytes.len(),
            out@ == bytes@.subrange(0, i as int),
        decreases bytes.len() - i,
    {
        out.push(bytes[i]);
        i = i + 1;
    }
    out
}

/// Compares two byte slices.
pub fn same_slice(a: &[u8], b: &[u8]) -> (res: bool)
    ensures
        res == (a@ == b@),
{
    if a.len() != b.len() {
        return false;
    }
    let mut i: usize = 0;
    while i < a.len()
        invariant
            0 <= i <= a.len(),
            a.len() == b.len(),
            a@.subrange(0, i as int) == b@.subrange(0, i as int),
        decreases a.len() - i,
    {
        if a[i] != b[i] {
            return false;
        }
        i = i + 1;
    }
    assert(a@ == a@.subrange(0, a.len() as int));
    assert(b@ == b@.subrange(0, b.len() as int));
    true
}

/// Compares two byte buffers.
pub fn same_bytes(a: &Vec<u8>, b: &Vec<u8>) -> (res: bool)
    ensures
        res == (a@ == b@),
{
    same_slice(a.as_slice(), b.as_slice())
}

/// Compares two texts.
pub fn same_str(a: &str, b: &str) -> (res: bool)
    ensures
        res == (a@ == b@),
{
    proof {
        encode_utf8_decode_utf8(a@);
        encode_utf8_decode_utf8(b@);
    }
    same_slice(a.as_bytes(), b.as_bytes())
}

/// View of an optional text.
pub open spec fn text_view(t: Option<String>) -> Option<Seq<char>> {
    match t {
        Some(s) => Some(s@),
        None => None,
    }
}

/// Copies an optional text.
pub fn copy_text(t: &Option<String>) -> (res: Option<String>)
    ensures
        text_view(res) == text_view(*t),
{
    match t {
        Some(s) => Some(s.clone()),
        None => None,
    }
}

/// Compares two optional texts.
pub fn same_text(a: &Option<String>, b: &Option<String>) -> (res: bool)
    ensures
        res == (text_view(*a) == text_view(*b)),
{
    match (a, b) {
        (Some(x), Some(y)) => *x == *y,
        (None, None) => true,
        _ => false,
    }
}

/// What a provider, or the engine on its behalf, reports as gone wrong.
#[derive(Debug, PartialEq, Eq)]
pub enum ProviderError {
    NotFound,
    UnsupportedRequest,
    ValidationError { details: String },
    Http { status_code: u16, response: Vec<u8> },
    Invocation { message: String },
    Deserialization { message: String },
    Config { message: String },
    Other { message: String },
    NotChecked,
}

/// View of a `ProviderError`.
pub enum ProviderErrorView {
    NotFound,
    UnsupportedRequest,
    ValidationError { details: Seq<char> },
    Http { status_code: u16, response: Seq<u8> },
    Invocation { message: Seq<char> },
    Deserialization { message: Seq<char> },
    Config { message: Seq<char> },
    Other { message: Seq<char> },
    NotChecked,
}

impl View for ProviderError {
    type V = ProviderErrorView;

    open spec fn view(&self) -> ProviderErrorView {
        match *self {
            ProviderError::NotFound => ProviderErrorView::NotFound,
            ProviderError::UnsupportedRequest => ProviderErrorView::UnsupportedRequest,
            ProviderError::ValidationError { details } => ProviderErrorView::ValidationError {
                details: details@,
            },
            ProviderError::Http { status_code, response } => ProviderErrorView::Http {
                status_code,
                response: response@,
            },
            ProviderError::Invocation { message } => ProviderErrorView::Invocation {
                message: message@,
            },
            ProviderError::Deserialization { message } => ProviderErrorView::Deserialization {
                message: message@,
            },
            ProviderError::Config { message } => ProviderErrorView::Config { message: message@ },
            ProviderError::Other { message } => ProviderErrorView::Other { message: message@ },
            ProviderError::NotChecked => ProviderErrorView::NotChecked,
        }
    }
}

impl Clone for ProviderError {
    fn clone(&self) -> (res: ProviderError)
        ensures
            res@ == self@,
    {
        match self {
            ProviderError::NotFound => ProviderError::NotFound,
            ProviderError::UnsupportedRequest => ProviderError::UnsupportedRequest,
            ProviderError::ValidationError { details } => ProviderError::ValidationError {
                details: details.clone(),
            },
            ProviderError::Http { status_code, response } => ProviderError::Http {
                status_code: *status_code,
                response: copy_bytes(response),
            },
            ProviderError::Invocation { message } => ProviderError::Invocation {
                message: message.clone(),
            },
            ProviderError::Deserialization { message } => ProviderError::Deserialization {
                message: message.clone(),
            },
            ProviderError::Config { message } => ProviderError::Config { message: message.clone() },
            ProviderError::Other { message } => ProviderError::Other { message: message.clone() },
            ProviderError::NotChecked => ProviderError::NotChecked,
        }
    }
}

impl ProviderError {
    /// Whether two errors are the same kind with the same contents.
    pub fn same(&self, other: &ProviderError) -> (res: bool)
        ensures
            res == (self@ == other@),
    {
        match (self, other) {
            (ProviderError::NotFound, ProviderError::NotFound) => true,
            (ProviderError::UnsupportedRequest, ProviderError::UnsupportedRequest) => true,
            (
                ProviderError::ValidationError { details: a },
                ProviderError::ValidationError { details: b },
            ) => *a == *b,
            (
                ProviderError::Http { status_code: c, response: a },
                ProviderError::Http { status_code: d, response: b },
            ) => *c == *d && same_bytes(a, b),
            (
                ProviderError::Invocation { message: a },
                ProviderError::Invocation { message: b },
            ) => *a == *b,
            (
                ProviderError::Deserialization { message: a },
                ProviderError::Deserialization { message: b },
            ) => *a == *b,
            (ProviderError::Config { message: a }, ProviderError::Config { message: b }) => {
                *a == *b
            },
            (ProviderError::Other { message: a }, ProviderError::Other { message: b }) => *a == *b,
            (ProviderError::NotChecked, ProviderError::NotChecked) => true,
            _ => false,
        }
    }
}

/// The most recent outcome of probing a data source.
#[derive(Debug, PartialEq, Eq)]
pub enum DataSourceStatus {
    Connected,
    Error(ProviderError),
}

/// View of a `DataSourceStatus`.
pub enum DataSourceStatusView {
    Connected,
    Error(ProviderErrorView),
}

impl View for DataSourceStatus {
    type V = DataSourceStatusView;

    open spec fn view(&self) -> DataSourceStatusView {
        match *self {
            DataSourceStatus::Connected => DataSourceStatusView::Connected,
            DataSourceStatus::Error(e) => DataSourceStatusView::Error(e@),
        }
    }
}

impl Clone for DataSourceStatus {
    fn clone(&self) -> (res: DataSourceStatus)
        ensures
            res@ == self@,
    {
        match self {
            DataSourceStatus::Connected => DataSourceStatus::Connected,
            DataSourceStatus::Error(e) => DataSourceStatus::Error(e.clone()),
        }
    }
}

impl DataSourceStatus {
    /// Whether two statuses are the same.
    pub fn same(&self, other: &DataSourceStatus) -> (res: bool)
        ensures
            res == (self@ == other@),
    {
        match (self, other) {
            (DataSourceStatus::Connected, DataSourceStatus::Connected) => true,
            (DataSourceStatus::Error(a), DataSourceStatus::Error(b)) => a.same(b),
            _ => false,
        }
    }
}

/// A named backend that a provider module can query.
#[derive(Debug, PartialEq, Eq)]
pub struct DataSource {
    pub name: Name,
    pub provider_type: String,
    pub description: Option<String>,
    /// Settings handed to the provider as they are; the engine never reads them.
    pub config: Vec<u8>,
    pub status: DataSourceStatus,
}

/// View of a `DataSource`.
pub struct DataSourceView {
    pub name: Seq<char>,
    pub provider_type: Seq<char>,
    pub description: Option<Seq<char>>,
    pub config: Seq<u8>,
    pub status: DataSourceStatusView,
}

impl View for DataSource {
    type V = DataSourceView;

    open spec fn view(&self) -> DataSourceView {
        DataSourceView {
            name: self.name@,
            provider_type: self.provider_type@,
            description: text_view(self.description),
            config: self.config@,
            status: self.status@,
        }
    }
}

impl Clone for DataSource {
    fn clone(&self) -> (res: DataSource)
        ensures
            res@ == self@,
    {
        DataSource {
            name: self.name.clone(),
            provider_type: self.provider_type.clone(),
            description: copy_text(&self.description),
            config: copy_bytes(&self.config),
            status: self.status.clone(),
        }
    }
}

impl DataSource {
    /// A data source that has not been probed yet.
    pub fn new(
        name: Name,
        provider_type: String,
        description: Option<String>,
        config: Vec<u8>,
    ) -> (res: DataSource)
        ensures
            res@ == (DataSourceView {
                name: name@,
                provider_type: provider_type@,
                description: text_view(description),
                config: config@,
                status: DataSourceStatusView::Error(ProviderErrorView::NotChecked),
            }),
    {
        DataSource {
            name,
            provider_type,
            description,
            config,
            status: DataSourceStatus::Error(ProviderError::NotChecked),
        }
    }

    /// The same data source with another status.
    pub fn with_status(&self, status: DataSourceStatus) -> (res: DataSource)
        ensures
            res@ == (DataSourceView { status: status@, ..self@ }),
    {
        DataSource {
            name: self.name.clone(),
            provider_type: self.provider_type.clone(),
            description: copy_text(&self.description),
            config: copy_bytes(&self.config),
            status,
        }
    }
}

/// Views of a list of data sources, in order.
pub open spec fn sources_view(sources: Seq<DataSource>) -> Seq<DataSourceView> {
    sources.map_values(|d: DataSource| d@)
}

/// Views of a list of statuses, in order.
pub open spec fn statuses_view(statuses: Seq<DataSourceStatus>) -> Seq<DataSourceStatusView> {
    statuses.map_values(|s: DataSourceStatus| s@)
}

/// Copies a list of data sources.
pub fn copy_sources(sources: &Vec<DataSource>) -> (res: Vec<DataSource>)
    ensures
        sources_view(res@) == sources_view(sources@),
{
    let mut out: Vec<DataSource> = Vec::new();
    let mut i: usize = 0;
    while i < sources.len()
        invariant
            0 <= i <= sources.len(),
            out.len() == i,
            sources_view(out@) == sources_view(sources@).subrange(0, i as int),
        decreases sources.len() - i,
    {
        out.push(sources[i].clone());
        i = i + 1;
    }
    out
}

/// What the control plane sends to the proxy.
#[derive(Debug, PartialEq, Eq)]
pub enum ServerMessage {
    /// Run a provider against a data source and send back what it returns.
    InvokeProxyRequest {
        op_id: OpId,
        data_source_name: String,
        payload: Vec<u8>,
        protocol_version: u8,
    },
    /// Reserved.
    Poll { op_id: OpId },
}

/// View of a `ServerMessage`.
pub enum ServerMessageView {
    InvokeProxyRequest {
        op_id: OpId,
        data_source_name: Seq<char>,
        payload: Seq<u8>,
        protocol_version: u8,
    },
    Poll { op_id: OpId },
}

impl View for ServerMessage {
    type V = ServerMessageView;

    open spec fn view(&self) -> ServerMessageView {
        match *self {
            ServerMessage::InvokeProxyRequest {
                op_id,
                data_source_name,
                payload,
                protocol_version,
            } => ServerMessageView::InvokeProxyRequest {
                op_id,
                data_source_name: data_source_name@,
                payload: payload@,
                protocol_version,
            },
            ServerMessage::Poll { op_id } => ServerMessageView::Poll { op_id },
        }
    }
}

impl ServerMessageView {
    /// The request that the message belongs to.
    pub open spec fn op_id(self) -> OpId {
        match self {
            ServerMessageView::InvokeProxyRequest { op_id, .. } => op_id,
            ServerMessageView::Poll { op_id } => op_id,
        }
    }
}

impl ServerMessage {
    /// The request that the message belongs to.
    pub fn op_id(&self) -> (res: OpId)
        ensures
            res == self@.op_id(),
    {
        match self {
            ServerMessage::InvokeProxyRequest { op_id, .. } => *op_id,
            ServerMessage::Poll { op_id } => *op_id,
        }
    }
}

/// What the proxy sends to the control plane.
#[derive(Debug, PartialEq, Eq)]
#[allow(inconsistent_fields)]
pub enum ProxyMessage {
    /// The full list of data sources with their current status.
    SetDataSources(Vec<DataSource>),
    /// What a provider returned for a request.
    InvokeProxyResponse { op_id: OpId, data: Vec<u8> },
    /// A request, or the proxy itself, failed.
    Error { op_id: Option<OpId>, error: ProviderError },
}

/// View of a `ProxyMessage`.
#[allow(inconsistent_fields)]
pub enum ProxyMessageView {
    SetDataSources(Seq<DataSourceView>),
    InvokeProxyResponse { op_id: OpId, data: Seq<u8> },
    Error { op_id: Option<OpId>, error: ProviderErrorView },
}

impl View for ProxyMessage {
    type V = ProxyMessageView;

    open spec fn view(&self) -> ProxyMessageView {
        match *self {
            ProxyMessage::SetDataSources(sources) => ProxyMessageView::SetDataSources(
                sources_view(sources@),
            ),
            ProxyMessage::InvokeProxyResponse { op_id, data } => {
                ProxyMessageView::InvokeProxyResponse { op_id, data: data@ }
            },
            ProxyMessage::Error { op_id, error } => ProxyMessageView::Error {
                op_id,
                error: error@,
            },
        }
    }
}

impl ProxyMessageView {
    /// The request that the message answers, if it answers one.
    pub open spec fn op_id(self) -> Option<OpId> {
        match self {
            ProxyMessageView::SetDataSources(_) => None,
            ProxyMessageView::InvokeProxyResponse { op_id, .. } => Some(op_id),
            ProxyMessageView::Error { op_id, .. } => op_id,
        }
    }

    /// Whether the message answers request `op`.
    pub open spec fn answers(self, op: OpId) -> bool {
        self.op_id() == Some(op)
    }
}

impl ProxyMessage {
    /// The request that the message answers, if it answers one.
    pub fn op_id(&self) -> (res: Option<OpId>)
        ensures
            res == self@.op_id(),
    {
        match self {
            ProxyMessage::SetDataSources(_) => None,
            ProxyMessage::InvokeProxyResponse { op_id, .. } => Some(*op_id),
            ProxyMessage::Error { op_id, .. } => *op_id,
        }
    }
}

/// Views of a list of outbound messages, in order.
pub open spec fn messages_view(messages: Seq<ProxyMessage>) -> Seq<ProxyMessageView> {
    messages.map_values(|m: ProxyMessage| m@)
}

} // verus!
