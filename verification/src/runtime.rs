//! The runtime and the orchestrator that takes one workload through its run.
//!
//! A run is a fixed succession of stages: classify the workload, make sure its
//! interpreter and the kernel are at hand, create the directories, make the
//! workload's path absolute, enter the interpreter's installation root where
//! the workload type asks for it, invoke the engine, go back to the directory
//! the run started in. At each stage the orchestrator issues one action and
//! waits for the event that answers it; `transition` says which action
//! follows which event.

use vstd::prelude::*;
use vstd::string::*;
use crate::cache::{deployment_type, machine_type};
use crate::clock::unix_nanos;
use crate::config::{execution_config, ExecutionConfig, RuntimeConfig, RuntimeConfigView};
use crate::error::{duplicate_outcome, outcome_view, RunError, RunErrorView};
use crate::invocation::invocation;
use crate::paths::{file_name_of, join, parent_of, path_extension, path_file_name, path_join, path_parent};
use crate::protocol::{
    Action,
    ActionView,
    Event,
    EventView,
    InstallRequest,
    InstallRequestView,
    Invocation,
};
use crate::text::opt_text;
use crate::workload::{extension_verdict, ExtensionVerdict, WorkloadType};

verus! {

/// What the orchestrator is waiting for.
#[derive(Debug, Clone, Copy, PartialEq, Eq, Structural)]
pub enum Stage {
    /// Whether the workload, which has no extension, is a regular file.
    FileProbe,
    /// Whether the workload exists.
    ExistenceProbe,
    /// Whether the interpreter is in the local cache.
    CacheProbe,
    /// The installation of the interpreter's package.
    Install,
    /// The path of the interpreter.
    Interpreter,
    /// The path of the kernel.
    Kernel,
    /// The creation of the temporary directory.
    TmpDirectory,
    /// The creation of the log directory.
    LogDirectory,
    /// The canonical path of the workload.
    Canonical,
    /// The current directory, to make the workload's path absolute by hand.
    FallbackBase,
    /// The current directory, to come back to it after the run.
    SavedDirectory,
    /// The change into the interpreter's installation root.
    DirectoryChange,
    /// The end of the guest's execution.
    Engine,
    /// The change back into the saved directory.
    Restore,
    /// Nothing: the run has ended.
    Finished,
}

impl Stage {
    /// The place of the stage in the succession of a run.
    pub open spec fn rank(self) -> nat {
        match self {
            Stage::FileProbe => 0,
            Stage::ExistenceProbe => 1,
            Stage::CacheProbe => 2,
            Stage::Install => 3,
            Stage::Interpreter => 4,
            Stage::Kernel => 5,
            Stage::TmpDirectory => 6,
            Stage::LogDirectory => 7,
            Stage::Canonical => 8,
            Stage::FallbackBase => 9,
            Stage::SavedDirectory => 10,
            Stage::DirectoryChange => 11,
            Stage::Engine => 12,
            Stage::Restore => 13,
            Stage::Finished => 14,
        }
    }
}

/// The state of one run.
#[derive(Debug, PartialEq)]
pub struct Orchestrator<T> {
    /// The configuration of the runtime that started the run.
    pub config: RuntimeConfig<T>,
    /// The workload's path as it was given.
    pub workload_path: String,
    /// What the orchestrator is waiting for.
    pub stage: Stage,
    /// The workload's type.
    pub kind: WorkloadType,
    /// The path of the interpreter, empty until it is resolved and for a
    /// binary.
    pub interpreter_path: String,
    /// The path of the kernel, empty until it is resolved.
    pub kernel_path: String,
    /// The workload's absolute path, empty until it is known.
    pub absolute_path: String,
    /// The final component of the absolute path, if it has one.
    pub script_label: Option<String>,
    /// The working directory before the run changed it, if it could be told.
    pub saved_directory: Option<String>,
    /// Whether the run has changed the working directory.
    pub directory_changed: bool,
    /// The outcome of the run, once it is known.
    pub outcome: Result<(), RunError>,
}

/// An `Orchestrator` with its texts as sequences of characters.
pub struct OrchestratorView<T> {
    pub config: RuntimeConfigView<T>,
    pub workload_path: Seq<char>,
    pub stage: Stage,
    pub kind: WorkloadType,
    pub interpreter_path: Seq<char>,
    pub kernel_path: Seq<char>,
    pub absolute_path: Seq<char>,
    pub script_label: Option<Seq<char>>,
    pub saved_directory: Option<Seq<char>>,
    pub directory_changed: bool,
    pub outcome: Result<(), RunErrorView>,
}

impl<T> View for Orchestrator<T> {
    type V = OrchestratorView<T>;

    open spec fn view(&self) -> OrchestratorView<T> {
        OrchestratorView {
            config: self.config@,
            workload_path: self.workload_path@,
            stage: self.stage,
            kind: self.kind,
            interpreter_path: self.interpreter_path@,
            kernel_path: self.kernel_path@,
            absolute_path: self.absolute_path@,
            script_label: opt_text(self.script_label),
            saved_directory: opt_text(self.saved_directory),
            directory_changed: self.directory_changed,
            outcome: outcome_view(self.outcome),
        }
    }
}

/// The name of the kernel binary.
pub open spec fn kernel_name() -> Seq<char> {
    "kernel.elf"@
}

/// The request that installs the interpreter of a workload type, with its
/// dependencies.
pub open spec fn install_request(kind: WorkloadType) -> InstallRequestView {
    InstallRequestView {
        machine: machine_type(),
        deployment: deployment_type(),
        package: match kind.spec_package_name() {
            Some(package) => package,
            None => Seq::empty(),
        },
        include_dependencies: true,
    }
}

/// The directory two levels above the interpreter: the root of its
/// installation.
pub open spec fn installation_root(interpreter_path: Seq<char>) -> Option<Seq<char>> {
    match path_parent(interpreter_path) {
        Some(bin) => path_parent(bin),
        None => None,
    }
}

/// The absolute path that stands in for the canonical one where that could
/// not be had: the path joined to the current directory, or to nothing where
/// the current directory cannot be told either.
pub open spec fn fallback_absolute(base: Option<Seq<char>>, workload_path: Seq<char>) -> Seq<char> {
    match base {
        Some(dir) => path_join(dir, workload_path),
        None => path_join(Seq::empty(), workload_path),
    }
}

/// The state in which a run starts.
pub open spec fn initial<T>(config: RuntimeConfigView<T>, workload_path: Seq<char>)
    -> OrchestratorView<T> {
    OrchestratorView {
        config,
        workload_path,
        stage: Stage::FileProbe,
        kind: WorkloadType::Binary,
        interpreter_path: Seq::empty(),
        kernel_path: Seq::empty(),
        absolute_path: Seq::empty(),
        script_label: None,
        saved_directory: None,
        directory_changed: false,
        outcome: Ok(()),
    }
}

/// The first step of a run, given the verdict on the workload's extension. An
/// unknown extension ends the run before anything is asked of the file
/// system; a known one settles the type; without extension the file system
/// decides.
pub open spec fn begin<T>(
    config: RuntimeConfigView<T>,
    workload_path: Seq<char>,
    verdict: ExtensionVerdict,
) -> (OrchestratorView<T>, ActionView<T>) {
    let s = initial(config, workload_path);
    match verdict {
        ExtensionVerdict::Known(kind) => OrchestratorView { kind, ..s }.probe_existence(),
        ExtensionVerdict::Unknown => s.conclude(Err(RunErrorView::UnsupportedWorkloadKind)),
        ExtensionVerdict::Absent => (s, ActionView::ProbeRegularFile(workload_path)),
    }
}

/// The first step of a run of the given workload.
pub open spec fn start<T>(config: RuntimeConfigView<T>, workload_path: Seq<char>) -> (
    OrchestratorView<T>,
    ActionView<T>,
) {
    begin(config, workload_path, extension_verdict(path_extension(workload_path)))
}

impl<T> OrchestratorView<T> {
    /// The run ends with `outcome`.
    pub open spec fn finish(self, outcome: Result<(), RunErrorView>) -> (Self, ActionView<T>) {
        (OrchestratorView { stage: Stage::Finished, outcome, ..self }, ActionView::Finish(outcome))
    }

    /// The run is over but for the working directory: where the run has
    /// changed it and knows where it was, it is restored first.
    pub open spec fn conclude(self, outcome: Result<(), RunErrorView>) -> (Self, ActionView<T>) {
        match self.saved_directory {
            Some(dir) if self.directory_changed => (
                OrchestratorView { stage: Stage::Restore, outcome, ..self },
                ActionView::RestoreDirectory(dir),
            ),
            _ => self.finish(outcome),
        }
    }

    /// The workload's type is settled: check that the workload exists.
    pub open spec fn probe_existence(self) -> (Self, ActionView<T>) {
        (
            OrchestratorView { stage: Stage::ExistenceProbe, ..self },
            ActionView::ProbeExists(self.workload_path),
        )
    }

    /// The workload exists: a type with a package looks for its interpreter
    /// in the cache; a binary goes on to the kernel.
    pub open spec fn ensure_interpreter(self) -> (Self, ActionView<T>) {
        match self.kind.spec_package_name() {
            Some(_) => (
                OrchestratorView { stage: Stage::CacheProbe, ..self },
                ActionView::ProbeCached(self.kind.spec_binary_name()),
            ),
            None => self.resolve_kernel(),
        }
    }

    /// The interpreter's package is installed or was cached: locate the
    /// interpreter.
    pub open spec fn resolve_interpreter(self) -> (Self, ActionView<T>) {
        (
            OrchestratorView { stage: Stage::Interpreter, ..self },
            ActionView::Resolve(self.kind.spec_binary_name()),
        )
    }

    /// Locate the kernel, which every workload needs.
    pub open spec fn resolve_kernel(self) -> (Self, ActionView<T>) {
        (OrchestratorView { stage: Stage::Kernel, ..self }, ActionView::Resolve(kernel_name()))
    }

    /// The absolute path is known, and with it the label. Python saves the
    /// working directory next; the other types are launched.
    pub open spec fn with_absolute_path(
        self,
        absolute_path: Seq<char>,
        label: Option<Seq<char>>,
        clock: Option<u128>,
    ) -> (Self, ActionView<T>) {
        let s = OrchestratorView { absolute_path, script_label: label, ..self };
        match self.kind {
            WorkloadType::Python => (
                OrchestratorView { stage: Stage::SavedDirectory, ..s },
                ActionView::CurrentDirectory,
            ),
            _ => s.launch(clock),
        }
    }

    /// The working directory is saved, as far as it could be told. Where the
    /// interpreter has an installation root, the run changes into it; where
    /// it has none, the workload is launched where the run stands.
    pub open spec fn enter_installation_root(
        self,
        saved: Option<Seq<char>>,
        root: Option<Seq<char>>,
        clock: Option<u128>,
    ) -> (Self, ActionView<T>) {
        let s = OrchestratorView { saved_directory: saved, ..self };
        match root {
            Some(dir) => (
                OrchestratorView { stage: Stage::DirectoryChange, ..s },
                ActionView::ChangeDirectory(dir),
            ),
            None => s.launch(clock),
        }
    }

    /// All is prepared: invoke the engine. A path without final component
    /// has no label, and a clock before the epoch gives no invocation name:
    /// either ends the run.
    pub open spec fn launch(self, clock: Option<u128>) -> (Self, ActionView<T>) {
        match self.script_label {
            None => self.conclude(Err(RunErrorView::InvalidWorkloadPath)),
            Some(label) => match clock {
                None => self.conclude(Err(RunErrorView::ClockBeforeEpoch)),
                Some(nanos) => (
                    OrchestratorView { stage: Stage::Engine, ..self },
                    ActionView::Invoke(
                        execution_config(self.config, self.kernel_path),
                        invocation(
                            self.kind,
                            self.interpreter_path,
                            self.absolute_path,
                            label,
                            nanos,
                        ),
                    ),
                ),
            },
        }
    }

    /// The step that an event brings about. `clock` is the time of the step
    /// in nanoseconds since the Unix epoch, `None` where the clock stands
    /// before the epoch; only a step that launches the workload reads it.
    ///
    /// An event that does not answer the pending action ends the run with
    /// `UnexpectedEvent`. Once the run has ended, every step reports its
    /// outcome again.
    pub open spec fn transition(self, event: EventView, clock: Option<u128>) -> (
        Self,
        ActionView<T>,
    ) {
        let unexpected = self.conclude(Err(RunErrorView::UnexpectedEvent));
        match self.stage {
            Stage::FileProbe => match event {
                EventView::Flag(true) => self.probe_existence(),
                EventView::Flag(false) => self.conclude(
                    Err(RunErrorView::UnsupportedWorkloadKind),
                ),
                _ => unexpected,
            },
            Stage::ExistenceProbe => match event {
                EventView::Flag(true) => self.ensure_interpreter(),
                EventView::Flag(false) => self.conclude(Err(RunErrorView::WorkloadNotFound)),
                _ => unexpected,
            },
            Stage::CacheProbe => match event {
                EventView::Flag(true) => self.resolve_interpreter(),
                EventView::Flag(false) => (
                    OrchestratorView { stage: Stage::Install, ..self },
                    ActionView::Install(install_request(self.kind)),
                ),
                _ => unexpected,
            },
            Stage::Install => match event {
                EventView::Completed(Ok(_)) => self.resolve_interpreter(),
                EventView::Completed(Err(message)) => self.conclude(
                    Err(RunErrorView::ArtifactInstallFailed(message)),
                ),
                _ => unexpected,
            },
            Stage::Interpreter => match event {
                EventView::Located(Some(path)) => OrchestratorView {
                    interpreter_path: path,
                    ..self
                }.resolve_kernel(),
                EventView::Located(None) => self.conclude(
                    Err(RunErrorView::ArtifactResolutionFailed(self.kind.spec_binary_name())),
                ),
                _ => unexpected,
            },
            Stage::Kernel => match event {
                EventView::Located(Some(path)) => (
                    OrchestratorView { stage: Stage::TmpDirectory, kernel_path: path, ..self },
                    ActionView::CreateDirectory(self.config.tmp_directory),
                ),
                EventView::Located(None) => self.conclude(
                    Err(RunErrorView::ArtifactResolutionFailed(kernel_name())),
                ),
                _ => unexpected,
            },
            Stage::TmpDirectory => match event {
                EventView::Completed(Ok(_)) => (
                    OrchestratorView { stage: Stage::LogDirectory, ..self },
                    ActionView::CreateDirectory(self.config.log_directory),
                ),
                EventView::Completed(Err(message)) => self.conclude(
                    Err(RunErrorView::DirectorySetupFailed(message)),
                ),
                _ => unexpected,
            },
            Stage::LogDirectory => match event {
                EventView::Completed(Ok(_)) => (
                    OrchestratorView { stage: Stage::Canonical, ..self },
                    ActionView::Canonicalize(self.workload_path),
                ),
                EventView::Completed(Err(message)) => self.conclude(
                    Err(RunErrorView::DirectorySetupFailed(message)),
                ),
                _ => unexpected,
            },
            Stage::Canonical => match event {
                EventView::Located(Some(path)) => self.with_absolute_path(
                    path,
                    path_file_name(path),
                    clock,
                ),
                EventView::Located(None) => (
                    OrchestratorView { stage: Stage::FallbackBase, ..self },
                    ActionView::CurrentDirectory,
                ),
                _ => unexpected,
            },
            Stage::FallbackBase => match event {
                EventView::Located(base) => {
                    let path = fallback_absolute(base, self.workload_path);
                    self.with_absolute_path(path, path_file_name(path), clock)
                },
                _ => unexpected,
            },
            Stage::SavedDirectory => match event {
                EventView::Located(saved) => self.enter_installation_root(
                    saved,
                    installation_root(self.interpreter_path),
                    clock,
                ),
                _ => unexpected,
            },
            Stage::DirectoryChange => match event {
                EventView::Completed(result) => OrchestratorView {
                    directory_changed: result is Ok,
                    ..self
                }.launch(clock),
                _ => unexpected,
            },
            Stage::Engine => match event {
                EventView::Completed(Ok(_)) => self.conclude(Ok(())),
                EventView::Completed(Err(message)) => self.conclude(
                    Err(RunErrorView::Engine(message)),
                ),
                _ => unexpected,
            },
            Stage::Restore => match event {
                EventView::Completed(_) => self.finish(self.outcome),
                _ => self.finish(Err(RunErrorView::UnexpectedEvent)),
            },
            Stage::Finished => (self, ActionView::Finish(self.outcome)),
        }
    }
}

/// Every step takes a run further in the succession of its stages, whatever
/// the event: no stage is entered twice, so a run ends after fourteen steps at
/// most. A run that has ended stays as it is, and the action of a step is
/// `Finish` exactly where the step ends the run or finds it ended.
pub proof fn lemma_step_advances<T>(state: OrchestratorView<T>, event: EventView, clock: Option<u128>)
    ensures
        state.stage != Stage::Finished ==> state.transition(event, clock).0.stage.rank()
            > state.stage.rank(),
        state.stage == Stage::Finished ==> state.transition(event, clock).0 == state,
        state.transition(event, clock).1 is Finish <==> state.transition(event, clock).0.stage
            == Stage::Finished,
{
}

/// A workload whose extension belongs to no workload type is turned down by
/// the first step of its run, before anything is asked of the file system,
/// the registry or the engine.
pub proof fn lemma_unknown_extension_ends_run<T>(
    config: RuntimeConfigView<T>,
    workload_path: Seq<char>,
)
    requires
        extension_verdict(path_extension(workload_path)) is Unknown,
    ensures
        start(config, workload_path).1 == ActionView::<T>::Finish(
            Err(RunErrorView::UnsupportedWorkloadKind),
        ),
        start(config, workload_path).0.stage == Stage::Finished,
{
}

/// Runtime for executing workloads in sandboxes.
pub struct Runtime<T> {
    config: RuntimeConfig<T>,
}

impl<T> Runtime<T> {
    /// The configuration that the runtime was made with.
    pub closed spec fn configuration(&self) -> RuntimeConfigView<T> {
        self.config@
    }

    /// A runtime with the given configuration.
    pub fn new(config: RuntimeConfig<T>) -> (r: Result<Self, RunError>)
        ensures
            r matches Ok(runtime) && runtime.configuration() == config@,
    {
        Ok(Runtime { config })
    }

    /// The configuration that the runtime was made with.
    pub fn config(&self) -> (r: &RuntimeConfig<T>)
        ensures
            r@ == self.configuration(),
    {
        &self.config
    }

    /// Starts a run of the workload at `workload_path`, given the verdict on
    /// the path's extension: the state of the run and its first action.
    pub fn begin(&self, workload_path: &str, verdict: ExtensionVerdict) -> (r: (
        Orchestrator<T>,
        Action<T>,
    ))
        ensures
            (r.0@, r.1@) == begin(self.configuration(), workload_path@, verdict),
    {
        let run = Orchestrator {
            config: self.config.clone(),
            workload_path: workload_path.to_owned(),
            stage: Stage::FileProbe,
            kind: WorkloadType::Binary,
            interpreter_path: String::new(),
            kernel_path: String::new(),
            absolute_path: String::new(),
            script_label: None,
            saved_directory: None,
            directory_changed: false,
            outcome: Ok(()),
        };
        match verdict {
            ExtensionVerdict::Known(kind) => Orchestrator { kind, ..run }.probe_existence(),
            ExtensionVerdict::Unknown => run.conclude(Err(RunError::UnsupportedWorkloadKind)),
            ExtensionVerdict::Absent => {
                let action = Action::ProbeRegularFile(run.workload_path.clone());
                (run, action)
            },
        }
    }

    /// Run a workload: the state of the run and its first action. Whoever
    /// drives the run carries each action out and hands the answer to `step`,
    /// until the action is `Finish`.
    pub fn run(&self, workload_path: &str) -> (r: (Orchestrator<T>, Action<T>))
        ensures
            (r.0@, r.1@) == start(self.configuration(), workload_path@),
    {
        self.begin(workload_path, ExtensionVerdict::of_path(workload_path))
    }
}

impl<T> Orchestrator<T> {
    /// Ends the run with `outcome`.
    fn finish(self, outcome: Result<(), RunError>) -> (r: (Self, Action<T>))
        ensures
            (r.0@, r.1@) == self@.finish(outcome_view(outcome)),
    {
        let reported = duplicate_outcome(&outcome);
        (Orchestrator { stage: Stage::Finished, outcome, ..self }, Action::Finish(reported))
    }

    /// Ends the run with `outcome`, once the working directory is back where
    /// it was if the run has changed it.
    fn conclude(self, outcome: Result<(), RunError>) -> (r: (Self, Action<T>))
        ensures
            (r.0@, r.1@) == self@.conclude(outcome_view(outcome)),
    {
        if self.directory_changed {
            match &self.saved_directory {
                Some(dir) => {
                    let action = Action::RestoreDirectory(dir.clone());
                    return (Orchestrator { stage: Stage::Restore, outcome, ..self }, action);
                },
                None => {},
            }
        }
        self.finish(outcome)
    }

    /// Asks whether the workload exists.
    fn probe_existence(self) -> (r: (Self, Action<T>))
        ensures
            (r.0@, r.1@) == self@.probe_existence(),
    {
        let action = Action::ProbeExists(self.workload_path.clone());
        (Orchestrator { stage: Stage::ExistenceProbe, ..self }, action)
    }

    /// Looks for the interpreter in the cache; a binary goes on to the kernel.
    fn ensure_interpreter(self) -> (r: (Self, Action<T>))
        ensures
            (r.0@, r.1@) == self@.ensure_interpreter(),
    {
        match self.kind.package_name() {
            Some(_) => {
                let action = Action::ProbeCached(self.kind.binary_name().to_owned());
                (Orchestrator { stage: Stage::CacheProbe, ..self }, action)
            },
            None => self.resolve_kernel(),
        }
    }

    /// Asks the registry to install the interpreter's package.
    fn request_install(self) -> (r: (Self, Action<T>))
        ensures
            r.0@ == (OrchestratorView { stage: Stage::Install, ..self@ }),
            r.1@ == ActionView::<T>::Install(install_request(self.kind)),
    {
        let package = match self.kind.package_name() {
            Some(package) => package.to_owned(),
            None => String::new(),
        };
        let request = InstallRequest {
            machine: "hyperlight".to_owned(),
            deployment: "single-process".to_owned(),
            package,
            include_dependencies: true,
        };
        (Orchestrator { stage: Stage::Install, ..self }, Action::Install(request))
    }

    /// Asks for the path of the interpreter.
    fn resolve_interpreter(self) -> (r: (Self, Action<T>))
        ensures
            (r.0@, r.1@) == self@.resolve_interpreter(),
    {
        let action = Action::Resolve(self.kind.binary_name().to_owned());
        (Orchestrator { stage: Stage::Interpreter, ..self }, action)
    }

    /// Asks for the path of the kernel.
    fn resolve_kernel(self) -> (r: (Self, Action<T>))
        ensures
            (r.0@, r.1@) == self@.resolve_kernel(),
    {
        (Orchestrator { stage: Stage::Kernel, ..self }, Action::Resolve("kernel.elf".to_owned()))
    }

    /// Asks for `directory` to be created, and waits for it at `stage`.
    fn create_directory(self, stage: Stage, directory: String) -> (r: (Self, Action<T>))
        ensures
            r.0@ == (OrchestratorView { stage, ..self@ }),
            r.1@ == ActionView::<T>::CreateDirectory(directory@),
    {
        (Orchestrator { stage, ..self }, Action::CreateDirectory(directory))
    }

    /// The step that follows once the workload's absolute path is known,
    /// given the final component of that path as the path library found it.
    pub fn with_absolute_path(
        self,
        absolute_path: String,
        label: Option<String>,
        clock: Option<u128>,
    ) -> (r: (Self, Action<T>))
        ensures
            (r.0@, r.1@) == self@.with_absolute_path(absolute_path@, opt_text(label), clock),
    {
        let kind = self.kind;
        let run = Orchestrator { absolute_path, script_label: label, ..self };
        match kind {
            WorkloadType::Python => (
                Orchestrator { stage: Stage::SavedDirectory, ..run },
                Action::CurrentDirectory,
            ),
            _ => run.launch(clock),
        }
    }

    /// The step that follows once the working directory is saved, given the
    /// installation root of the interpreter as the path library found it.
    pub fn enter_installation_root(
        self,
        saved: Option<String>,
        root: Option<String>,
        clock: Option<u128>,
    ) -> (r: (Self, Action<T>))
        ensures
            (r.0@, r.1@) == self@.enter_installation_root(opt_text(saved), opt_text(root), clock),
    {
        let run = Orchestrator { saved_directory: saved, ..self };
        match root {
            Some(dir) => (
                Orchestrator { stage: Stage::DirectoryChange, ..run },
                Action::ChangeDirectory(dir),
            ),
            None => run.launch(clock),
        }
    }

    /// Invokes the engine on the workload, at the time `clock`.
    pub fn launch(self, clock: Option<u128>) -> (r: (Self, Action<T>))
        ensures
            (r.0@, r.1@) == self@.launch(clock),
    {
        let invocation = match &self.script_label {
            None => Err(RunError::InvalidWorkloadPath),
            Some(label) => match clock {
                None => Err(RunError::ClockBeforeEpoch),
                Some(nanos) => Ok(
                    Invocation::prepare(
                        self.kind,
                        self.interpreter_path.as_str(),
                        self.absolute_path.as_str(),
                        label.as_str(),
                        nanos,
                    ),
                ),
            },
        };
        match invocation {
            Err(e) => self.conclude(Err(e)),
            Ok(invocation) => {
                let engine = ExecutionConfig::build(&self.config, self.kernel_path.as_str());
                (Orchestrator { stage: Stage::Engine, ..self }, Action::Invoke(engine, invocation))
            },
        }
    }

    /// The directory two levels above the interpreter.
    fn installation_root(&self) -> (r: Option<String>)
        ensures
            opt_text(r) == installation_root(self.interpreter_path@),
    {
        match parent_of(self.interpreter_path.as_str()) {
            Some(bin) => parent_of(bin.as_str()),
            None => None,
        }
    }

    /// Takes the run one step further: `event` answers the action that the
    /// previous step issued, and the result holds the next action. `clock` is
    /// the time of the step in nanoseconds since the Unix epoch, `None` where
    /// the clock stands before the epoch.
    pub fn step_at(self, event: Event, clock: Option<u128>) -> (r: (Self, Action<T>))
        ensures
            (r.0@, r.1@) == self@.transition(event@, clock),
    {
        match self.stage {
            Stage::FileProbe => match event {
                Event::Flag(is_file) => if is_file {
                    self.probe_existence()
                } else {
                    self.conclude(Err(RunError::UnsupportedWorkloadKind))
                },
                _ => self.conclude(Err(RunError::UnexpectedEvent)),
            },
            Stage::ExistenceProbe => match event {
                Event::Flag(exists) => if exists {
                    self.ensure_interpreter()
                } else {
                    self.conclude(Err(RunError::WorkloadNotFound))
                },
                _ => self.conclude(Err(RunError::UnexpectedEvent)),
            },
            Stage::CacheProbe => match event {
                Event::Flag(cached) => if cached {
                    self.resolve_interpreter()
                } else {
                    self.request_install()
                },
                _ => self.conclude(Err(RunError::UnexpectedEvent)),
            },
            Stage::Install => match event {
                Event::Completed(Ok(_)) => self.resolve_interpreter(),
                Event::Completed(Err(message)) => self.conclude(
                    Err(RunError::ArtifactInstallFailed(message)),
                ),
                _ => self.conclude(Err(RunError::UnexpectedEvent)),
            },
            Stage::Interpreter => match event {
                Event::Located(Some(path)) => Orchestrator {
                    interpreter_path: path,
                    ..self
                }.resolve_kernel(),
                Event::Located(None) => {
                    let name = self.kind.binary_name().to_owned();
                    self.conclude(Err(RunError::ArtifactResolutionFailed(name)))
                },
                _ => self.conclude(Err(RunError::UnexpectedEvent)),
            },
            Stage::Kernel => match event {
                Event::Located(Some(path)) => {
                    let directory = self.config.tmp_directory.clone();
                    Orchestrator { kernel_path: path, ..self }.create_directory(
                        Stage::TmpDirectory,
                        directory,
                    )
                },
                Event::Located(None) => self.conclude(
                    Err(RunError::ArtifactResolutionFailed("kernel.elf".to_owned())),
                ),
                _ => self.conclude(Err(RunError::UnexpectedEvent)),
            },
            Stage::TmpDirectory => match event {
                Event::Completed(Ok(_)) => {
                    let directory = self.config.log_directory.clone();
                    self.create_directory(Stage::LogDirectory, directory)
                },
                Event::Completed(Err(message)) => self.conclude(
                    Err(RunError::DirectorySetupFailed(message)),
                ),
                _ => self.conclude(Err(RunError::UnexpectedEvent)),
            },
            Stage::LogDirectory => match event {
                Event::Completed(Ok(_)) => {
                    let action = Action::Canonicalize(self.workload_path.clone());
                    (Orchestrator { stage: Stage::Canonical, ..self }, action)
                },
                Event::Completed(Err(message)) => self.conclude(
                    Err(RunError::DirectorySetupFailed(message)),
                ),
                _ => self.conclude(Err(RunError::UnexpectedEvent)),
            },
            Stage::Canonical => match event {
                Event::Located(Some(path)) => {
                    let label = file_name_of(path.as_str());
                    self.with_absolute_path(path, label, clock)
                },
                Event::Located(None) => (
                    Orchestrator { stage: Stage::FallbackBase, ..self },
                    Action::CurrentDirectory,
                ),
                _ => self.conclude(Err(RunError::UnexpectedEvent)),
            },
            Stage::FallbackBase => match event {
                Event::Located(base) => {
                    let path = match base {
                        Some(dir) => join(dir.as_str(), self.workload_path.as_str()),
                        None => {
                            proof {
                                reveal_strlit("");
                                assert(""@ =~= Seq::<char>::empty());
                            }
                            join("", self.workload_path.as_str())
                        },
                    };
                    let label = file_name_of(path.as_str());
                    self.with_absolute_path(path, label, clock)
                },
                _ => self.conclude(Err(RunError::UnexpectedEvent)),
            },
            Stage::SavedDirectory => match event {
                Event::Located(saved) => {
                    let root = self.installation_root();
                    self.enter_installation_root(saved, root, clock)
                },
                _ => self.conclude(Err(RunError::UnexpectedEvent)),
            },
            Stage::DirectoryChange => match event {
                Event::Completed(result) => Orchestrator {
                    directory_changed: result.is_ok(),
                    ..self
                }.launch(clock),
                _ => self.conclude(Err(RunError::UnexpectedEvent)),
            },
            Stage::Engine => match event {
                Event::Completed(Ok(_)) => self.conclude(Ok(())),
                Event::Completed(Err(message)) => self.conclude(Err(RunError::Engine(message))),
                _ => self.conclude(Err(RunError::UnexpectedEvent)),
            },
            Stage::Restore => match event {
                Event::Completed(_) => {
                    let outcome = duplicate_outcome(&self.outcome);
                    self.finish(outcome)
                },
                _ => self.finish(Err(RunError::UnexpectedEvent)),
            },
            Stage::Finished => {
                let outcome = duplicate_outcome(&self.outcome);
                (self, Action::Finish(outcome))
            },
        }
    }

    /// Takes the run one step further, at the time of the call: `event`
    /// answers the action that the previous step issued, and the result holds
    /// the next action.
    pub fn step(self, event: Event) -> (r: (Self, Action<T>))
        ensures
            exists|clock: Option<u128>| (r.0@, r.1@) == #[trigger] self@.transition(event@, clock),
    {
        let clock = unix_nanos();
        self.step_at(event, clock)
    }
}

} // verus!
