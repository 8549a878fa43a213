//! Failures that are no answer of the domain.

use vstd::prelude::*;
use vstd::string::*;

verus! {

/// A failure of the runtime, or of a dependency, whose own failure is `F`.
#[derive(Clone, Debug, Eq, PartialEq)]
pub enum Fault<F> {
    /// The resolved plan cannot be run.
    InvalidResolvedPlan { detail: String },
    /// The plugin could not do its work.
    PluginFailure { detail: String },
    /// A value could not be put on the wire.
    Internal { detail: String },
    /// A result would exceed a limit.
    ResourceExhausted { capability: &'static str, operation: &'static str },
    /// A dependency failed, and its failure is passed on.
    Dependency(F),
}

/// The view of a failure.
#[verifier::ext_equal]
pub enum FaultView<F> {
    InvalidResolvedPlan(Seq<char>),
    PluginFailure(Seq<char>),
    Internal(Seq<char>),
    ResourceExhausted(Seq<char>, Seq<char>),
    Dependency(F),
}

impl<F> View for Fault<F> {
    type V = FaultView<F>;

    open spec fn view(&self) -> FaultView<F> {
        match self {
            Fault::InvalidResolvedPlan { detail } => FaultView::InvalidResolvedPlan(detail@),
            Fault::PluginFailure { detail } => FaultView::PluginFailure(detail@),
            Fault::Internal { detail } => FaultView::Internal(detail@),
            Fault::ResourceExhausted { capability, operation } => FaultView::ResourceExhausted(
                capability@,
                operation@,
            ),
            Fault::Dependency(failure) => FaultView::Dependency(*failure),
        }
    }
}

/// Why a call gave no response: the domain refused it, or something failed.
#[derive(Debug, Eq, PartialEq)]
pub enum CallError<E, F> {
    Domain(E),
    Runtime(Fault<F>),
}

/// The view of a call's error.
#[verifier::ext_equal]
pub enum CallErrorView<E, F> {
    Domain(E),
    Runtime(FaultView<F>),
}

impl<E, F> View for CallError<E, F> {
    type V = CallErrorView<E, F>;

    open spec fn view(&self) -> CallErrorView<E, F> {
        match self {
            CallError::Domain(error) => CallErrorView::Domain(*error),
            CallError::Runtime(fault) => CallErrorView::Runtime(fault@),
        }
    }
}

/// A failure of the plugin with a given detail.
pub fn plugin_failure<F>(detail: &str) -> (fault: Fault<F>)
    ensures
        fault@ == FaultView::<F>::PluginFailure(detail@),
{
    Fault::PluginFailure { detail: detail.to_owned() }
}

} // verus!
