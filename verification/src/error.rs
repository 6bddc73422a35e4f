//! The ways in which a run fails.

use vstd::prelude::*;
use vstd::string::*;

verus! {

/// Why a workload could not be run.
#[derive(Debug, PartialEq, Eq)]
pub enum RunError {
    /// The workload's type could not be determined from its path.
    UnsupportedWorkloadKind,
    /// The workload file does not exist.
    WorkloadNotFound,
    /// The registry failed to install the interpreter's package; holds the
    /// registry's message.
    ArtifactInstallFailed(String),
    /// The named binary is neither in the cache nor provided by the registry.
    ArtifactResolutionFailed(String),
    /// The log or temporary directory could not be created; holds the file
    /// system's message.
    DirectorySetupFailed(String),
    /// The workload's absolute path has no final component to label the run.
    InvalidWorkloadPath,
    /// The clock stands before the Unix epoch, so no invocation name can be
    /// derived from it.
    ClockBeforeEpoch,
    /// The execution engine failed; holds its message, unchanged.
    Engine(String),
    /// An event was delivered that does not answer the pending action.
    UnexpectedEvent,
}

/// A `RunError` with its messages as sequences of characters.
pub enum RunErrorView {
    UnsupportedWorkloadKind,
    WorkloadNotFound,
    ArtifactInstallFailed(Seq<char>),
    ArtifactResolutionFailed(Seq<char>),
    DirectorySetupFailed(Seq<char>),
    InvalidWorkloadPath,
    ClockBeforeEpoch,
    Engine(Seq<char>),
    UnexpectedEvent,
}

impl View for RunError {
    type V = RunErrorView;

    open spec fn view(&self) -> RunErrorView {
        match self {
            RunError::UnsupportedWorkloadKind => RunErrorView::UnsupportedWorkloadKind,
            RunError::WorkloadNotFound => RunErrorView::WorkloadNotFound,
            RunError::ArtifactInstallFailed(m) => RunErrorView::ArtifactInstallFailed(m@),
            RunError::ArtifactResolutionFailed(m) => RunErrorView::ArtifactResolutionFailed(m@),
            RunError::DirectorySetupFailed(m) => RunErrorView::DirectorySetupFailed(m@),
            RunError::InvalidWorkloadPath => RunErrorView::InvalidWorkloadPath,
            RunError::ClockBeforeEpoch => RunErrorView::ClockBeforeEpoch,
            RunError::Engine(m) => RunErrorView::Engine(m@),
            RunError::UnexpectedEvent => RunErrorView::UnexpectedEvent,
        }
    }
}

/// The outcome of a run, with the error taken by its view.
pub open spec fn outcome_view(outcome: Result<(), RunError>) -> Result<(), RunErrorView> {
    match outcome {
        Ok(_) => Ok(()),
        Err(e) => Err(e@),
    }
}

impl Clone for RunError {
    /// A copy of this error.
    fn clone(&self) -> (r: RunError)
        ensures
            r@ == self@,
    {
        match self {
            RunError::UnsupportedWorkloadKind => RunError::UnsupportedWorkloadKind,
            RunError::WorkloadNotFound => RunError::WorkloadNotFound,
            RunError::ArtifactInstallFailed(m) => RunError::ArtifactInstallFailed(m.clone()),
            RunError::ArtifactResolutionFailed(m) => RunError::ArtifactResolutionFailed(m.clone()),
            RunError::DirectorySetupFailed(m) => RunError::DirectorySetupFailed(m.clone()),
            RunError::InvalidWorkloadPath => RunError::InvalidWorkloadPath,
            RunError::ClockBeforeEpoch => RunError::ClockBeforeEpoch,
            RunError::Engine(m) => RunError::Engine(m.clone()),
            RunError::UnexpectedEvent => RunError::UnexpectedEvent,
        }
    }
}

/// A copy of an outcome.
pub(crate) fn duplicate_outcome(outcome: &Result<(), RunError>) -> (r: Result<(), RunError>)
    ensures
        outcome_view(r) == outcome_view(*outcome),
{
    match outcome {
        Ok(_) => Ok(()),
        Err(e) => Err(e.clone()),
    }
}

} // verus!
