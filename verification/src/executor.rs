//! The invocation executor: what is handed to the sandbox for one call of a
//! provider, and what the answer of the sandbox means. The sandbox itself
//! is run by the caller.

use vstd::prelude::*;

use crate::dispatcher::{Invocation, InvocationView};
use crate::health::{ProbeOutcome, ProbeOutcomeView};
use crate::model::{copy_bytes, ProviderError, ProviderErrorView};
use crate::registry::{Registry, RegistryView};

verus! {

/// One run of a provider module in a fresh sandbox.
#[derive(Debug, PartialEq, Eq)]
pub struct SandboxCall {
    /// The bytes of the provider module.
    pub module: Vec<u8>,
    /// The settings of the data source, as they were configured.
    pub config: Vec<u8>,
    /// The request as the peer sent it.
    pub request: Vec<u8>,
    pub protocol_version: u8,
}

/// View of a `SandboxCall`.
pub struct SandboxCallView {
    pub module: Seq<u8>,
    pub config: Seq<u8>,
    pub request: Seq<u8>,
    pub protocol_version: u8,
}

impl View for SandboxCall {
    type V = SandboxCallView;

    open spec fn view(&self) -> SandboxCallView {
        SandboxCallView {
            module: self.module@,
            config: self.config@,
            request: self.request@,
            protocol_version: self.protocol_version,
        }
    }
}

/// What the result envelope of a provider holds.
#[derive(Debug, PartialEq, Eq)]
pub enum Envelope {
    /// The provider succeeded.
    Success,
    /// The provider reports this error.
    Failure(ProviderError),
    /// The bytes are no envelope that the runtime knows.
    Unknown { message: String },
}

/// View of an `Envelope`.
pub enum EnvelopeView {
    Success,
    Failure(ProviderErrorView),
    Unknown { message: Seq<char> },
}

impl View for Envelope {
    type V = EnvelopeView;

    open spec fn view(&self) -> EnvelopeView {
        match *self {
            Envelope::Success => EnvelopeView::Success,
            Envelope::Failure(e) => EnvelopeView::Failure(e@),
            Envelope::Unknown { message } => EnvelopeView::Unknown { message: message@ },
        }
    }
}

/// What the sandbox brought back.
#[derive(Debug, PartialEq, Eq)]
pub enum SandboxOutcome {
    /// The provider ran and returned `response`.
    Returned { response: Vec<u8>, envelope: Envelope },
    /// The module could not be compiled, instantiated or run.
    Failed { message: String },
}

/// View of a `SandboxOutcome`.
pub enum SandboxOutcomeView {
    Returned { response: Seq<u8>, envelope: EnvelopeView },
    Failed { message: Seq<char> },
}

impl View for SandboxOutcome {
    type V = SandboxOutcomeView;

    open spec fn view(&self) -> SandboxOutcomeView {
        match *self {
            SandboxOutcome::Returned { response, envelope } => SandboxOutcomeView::Returned {
                response: response@,
                envelope: envelope@,
            },
            SandboxOutcome::Failed { message } => SandboxOutcomeView::Failed { message: message@ },
        }
    }
}

/// The sandbox call for `invocation`: its provider module from the registry
/// with the settings and the request as they are, or `NotFound` where the
/// provider is not loaded.
pub open spec fn call_for(
    registry: RegistryView,
    invocation: InvocationView,
) -> Result<SandboxCallView, ProviderErrorView> {
    match registry.module_for(invocation.provider_type) {
        Some(module) => Ok(
            SandboxCallView {
                module,
                config: invocation.config,
                request: invocation.payload,
                protocol_version: invocation.protocol_version,
            },
        ),
        None => Err(ProviderErrorView::NotFound),
    }
}

/// What an invocation yields: the raw response where the provider
/// succeeded, the error of the provider where it reports one, a
/// deserialization error for an unknown envelope and an invocation error
/// where the sandbox failed.
pub open spec fn result_of(outcome: SandboxOutcomeView) -> Result<Seq<u8>, ProviderErrorView> {
    match outcome {
        SandboxOutcomeView::Returned { response, envelope } => match envelope {
            EnvelopeView::Success => Ok(response),
            EnvelopeView::Failure(e) => Err(e),
            EnvelopeView::Unknown { message } => Err(
                ProviderErrorView::Deserialization { message },
            ),
        },
        SandboxOutcomeView::Failed { message } => Err(ProviderErrorView::Invocation { message }),
    }
}

/// What a status request yields.
pub open spec fn probe_result_of(outcome: SandboxOutcomeView) -> ProbeOutcomeView {
    match outcome {
        SandboxOutcomeView::Returned { response, envelope } => match envelope {
            EnvelopeView::Success => ProbeOutcomeView::Healthy,
            EnvelopeView::Failure(e) => ProbeOutcomeView::Unhealthy(e),
            EnvelopeView::Unknown { message } => ProbeOutcomeView::Unhealthy(
                ProviderErrorView::Deserialization { message },
            ),
        },
        SandboxOutcomeView::Failed { message } => ProbeOutcomeView::SandboxFailed { message },
    }
}

/// Prepares the sandbox call for `invocation`.
pub fn prepare(
    registry: &Registry,
    invocation: &Invocation,
) -> (res: Result<SandboxCall, ProviderError>)
    ensures
        match res {
            Ok(call) => Ok(call@),
            Err(e) => Err(e@),
        } == call_for(registry@, invocation@),
{
    match registry.module_for(invocation.provider_type.as_str()) {
        Some(module) => Ok(
            SandboxCall {
                module: copy_bytes(module),
                config: copy_bytes(&invocation.config),
                request: copy_bytes(&invocation.payload),
                protocol_version: invocation.protocol_version,
            },
        ),
        None => Err(ProviderError::NotFound),
    }
}

/// Turns what the sandbox brought back into the result of the invocation.
pub fn conclude(outcome: SandboxOutcome) -> (res: Result<Vec<u8>, ProviderError>)
    ensures
        match res {
            Ok(data) => Ok(data@),
            Err(e) => Err(e@),
        } == result_of(outcome@),
{
    match outcome {
        SandboxOutcome::Returned { response, envelope } => match envelope {
            Envelope::Success => Ok(response),
            Envelope::Failure(e) => Err(e),
            Envelope::Unknown { message } => Err(ProviderError::Deserialization { message }),
        },
        SandboxOutcome::Failed { message } => Err(ProviderError::Invocation { message }),
    }
}

/// Turns what the sandbox brought back for a status request into the
/// outcome of the probe.
pub fn conclude_probe(outcome: SandboxOutcome) -> (res: ProbeOutcome)
    ensures
        res@ == probe_result_of(outcome@),
{
    match outcome {
        SandboxOutcome::Returned { response, envelope } => match envelope {
            Envelope::Success => ProbeOutcome::Healthy,
            Envelope::Failure(e) => ProbeOutcome::Unhealthy(e),
            Envelope::Unknown { message } => ProbeOutcome::Unhealthy(
                ProviderError::Deserialization { message },
            ),
        },
        SandboxOutcome::Failed { message } => ProbeOutcome::SandboxFailed { message },
    }
}

} // verus!
