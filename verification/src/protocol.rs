//! What the orchestrator asks of its surroundings, and what they answer.
//!
//! The orchestrator touches neither the file system, nor the registry, nor
//! the execution engine. It issues one `Action` at a time; whoever drives it
//! carries the action out and hands back the `Event` that answers it.

use vstd::prelude::*;
use vstd::string::*;
use crate::config::{ExecutionConfig, ExecutionConfigView};
use crate::error::{outcome_view, RunError, RunErrorView};
use crate::text::opt_text;

verus! {

/// A request to the registry to install a package.
#[derive(Debug, PartialEq, Eq)]
pub struct InstallRequest {
    /// Machine type of the artifacts.
    pub machine: String,
    /// Deployment type of the artifacts.
    pub deployment: String,
    /// The package to install.
    pub package: String,
    /// Whether the package's dependencies are installed with it.
    pub include_dependencies: bool,
}

/// An `InstallRequest` with its names as sequences of characters.
pub struct InstallRequestView {
    pub machine: Seq<char>,
    pub deployment: Seq<char>,
    pub package: Seq<char>,
    pub include_dependencies: bool,
}

impl View for InstallRequest {
    type V = InstallRequestView;

    open spec fn view(&self) -> InstallRequestView {
        InstallRequestView {
            machine: self.machine@,
            deployment: self.deployment@,
            package: self.package@,
            include_dependencies: self.include_dependencies,
        }
    }
}

/// What the execution engine is called with.
#[derive(Debug, PartialEq, Eq)]
pub struct Invocation {
    /// Human-readable label of the script: the workload's file name.
    pub script_label: String,
    /// Name that tells this invocation from others in the same log directory.
    pub invocation_name: String,
    /// The binary that the engine executes.
    pub binary_path: String,
    /// The arguments of the binary, joined by spaces.
    pub args: String,
}

/// An `Invocation` with its fields as sequences of characters.
pub struct InvocationView {
    pub script_label: Seq<char>,
    pub invocation_name: Seq<char>,
    pub binary_path: Seq<char>,
    pub args: Seq<char>,
}

impl View for Invocation {
    type V = InvocationView;

    open spec fn view(&self) -> InvocationView {
        InvocationView {
            script_label: self.script_label@,
            invocation_name: self.invocation_name@,
            binary_path: self.binary_path@,
            args: self.args@,
        }
    }
}

/// One thing that the orchestrator asks to be done.
#[derive(Debug, PartialEq)]
pub enum Action<T> {
    /// Tell whether the path names a regular file. Answer: `Event::Flag`.
    ProbeRegularFile(String),
    /// Tell whether the path exists. Answer: `Event::Flag`.
    ProbeExists(String),
    /// Tell whether the named binary is in the local cache. Answer:
    /// `Event::Flag`.
    ProbeCached(String),
    /// Have the registry install a package. Answer: `Event::Completed`.
    Install(InstallRequest),
    /// Locate the named binary, in the cache or else through the registry.
    /// Answer: `Event::Located`.
    Resolve(String),
    /// Create the directory and its parents. Answer: `Event::Completed`.
    CreateDirectory(String),
    /// Make the path absolute and resolve its links. Answer:
    /// `Event::Located`, with `None` where that fails.
    Canonicalize(String),
    /// Tell the current working directory. Answer: `Event::Located`, with
    /// `None` where it cannot be told.
    CurrentDirectory,
    /// Change the working directory. Answer: `Event::Completed`.
    ChangeDirectory(String),
    /// Run the engine, set up as given, on the invocation. Answer:
    /// `Event::Completed`.
    Invoke(ExecutionConfig<T>, Invocation),
    /// Change the working directory back to where it was. Answer:
    /// `Event::Completed`.
    RestoreDirectory(String),
    /// Nothing is left to do: the run has ended with this outcome.
    Finish(Result<(), RunError>),
}

/// An `Action` with its texts as sequences of characters.
pub enum ActionView<T> {
    ProbeRegularFile(Seq<char>),
    ProbeExists(Seq<char>),
    ProbeCached(Seq<char>),
    Install(InstallRequestView),
    Resolve(Seq<char>),
    CreateDirectory(Seq<char>),
    Canonicalize(Seq<char>),
    CurrentDirectory,
    ChangeDirectory(Seq<char>),
    Invoke(ExecutionConfigView<T>, InvocationView),
    RestoreDirectory(Seq<char>),
    Finish(Result<(), RunErrorView>),
}

impl<T> View for Action<T> {
    type V = ActionView<T>;

    open spec fn view(&self) -> ActionView<T> {
        match self {
            Action::ProbeRegularFile(p) => ActionView::ProbeRegularFile(p@),
            Action::ProbeExists(p) => ActionView::ProbeExists(p@),
            Action::ProbeCached(n) => ActionView::ProbeCached(n@),
            Action::Install(r) => ActionView::Install(r@),
            Action::Resolve(n) => ActionView::Resolve(n@),
            Action::CreateDirectory(p) => ActionView::CreateDirectory(p@),
            Action::Canonicalize(p) => ActionView::Canonicalize(p@),
            Action::CurrentDirectory => ActionView::CurrentDirectory,
            Action::ChangeDirectory(p) => ActionView::ChangeDirectory(p@),
            Action::Invoke(c, i) => ActionView::Invoke(c@, i@),
            Action::RestoreDirectory(p) => ActionView::RestoreDirectory(p@),
            Action::Finish(o) => ActionView::Finish(outcome_view(*o)),
        }
    }
}

/// The answer to an action.
#[derive(Debug, PartialEq, Eq)]
pub enum Event {
    /// The answer to a probe.
    Flag(bool),
    /// A path, or `None` where there is none.
    Located(Option<String>),
    /// An operation has ended, well or with a message.
    Completed(Result<(), String>),
}

/// An `Event` with its texts as sequences of characters.
pub enum EventView {
    Flag(bool),
    Located(Option<Seq<char>>),
    Completed(Result<(), Seq<char>>),
}

impl View for Event {
    type V = EventView;

    open spec fn view(&self) -> EventView {
        match self {
            Event::Flag(b) => EventView::Flag(*b),
            Event::Located(p) => EventView::Located(opt_text(*p)),
            Event::Completed(r) => EventView::Completed(
                match r {
                    Ok(_) => Ok(()),
                    Err(m) => Err(m@),
                },
            ),
        }
    }
}

} // verus!
