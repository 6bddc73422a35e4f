//! The surroundings of a run: the working directory of the process and the
//! directories on its disk.
//!
//! The orchestrator changes both, through the actions it issues: the working
//! directory for one workload type, and the disk by the directories it has
//! created before the engine starts. This module follows the surroundings
//! through a run, action by action, and states what holds of them when the
//! engine is invoked and when the run ends.

use vstd::prelude::*;
use crate::config::RuntimeConfigView;
use crate::protocol::{ActionView, EventView};
use crate::runtime::{start, OrchestratorView, Stage};

verus! {

/// What a run can change around it.
pub struct Surroundings {
    /// The working directory of the process.
    pub cwd: Seq<char>,
    /// The directories that exist.
    pub directories: Set<Seq<char>>,
}

/// The answer to one action, and the time at which it is handed to the
/// orchestrator.
pub struct Response {
    pub event: EventView,
    pub clock: Option<u128>,
}

/// Whether the event is of the kind that answers the action.
pub open spec fn answers<T>(action: ActionView<T>, event: EventView) -> bool {
    match action {
        ActionView::ProbeRegularFile(_) | ActionView::ProbeExists(_) | ActionView::ProbeCached(
            _,
        ) => event is Flag,
        ActionView::Resolve(_) | ActionView::Canonicalize(_) | ActionView::CurrentDirectory => event is Located,
        ActionView::Install(_) | ActionView::CreateDirectory(_) | ActionView::ChangeDirectory(_)
        | ActionView::Invoke(_, _) | ActionView::RestoreDirectory(_) => event is Completed,
        ActionView::Finish(_) => false,
    }
}

/// Whether the event reports that an operation has ended well.
pub open spec fn succeeded(event: EventView) -> bool {
    event matches EventView::Completed(Ok(_))
}

/// Whether the event tells the truth about the working directory: a current
/// directory, where one is reported, is the working directory.
pub open spec fn truthful<T>(around: Surroundings, action: ActionView<T>, event: EventView) -> bool {
    action is CurrentDirectory ==> (event matches EventView::Located(Some(dir)) ==> dir
        == around.cwd)
}

/// The surroundings after the action has been carried out and answered by
/// `event`: a change of directory that succeeded has moved the working
/// directory, and a directory whose creation succeeded exists.
pub open spec fn after<T>(around: Surroundings, action: ActionView<T>, event: EventView)
    -> Surroundings {
    match action {
        ActionView::ChangeDirectory(dir) | ActionView::RestoreDirectory(dir) => if succeeded(
            event,
        ) {
            Surroundings { cwd: dir, ..around }
        } else {
            around
        },
        ActionView::CreateDirectory(dir) => if succeeded(event) {
            Surroundings { directories: around.directories.insert(dir), ..around }
        } else {
            around
        },
        _ => around,
    }
}

/// Whether the working directory can still be brought back after this
/// answer. It cannot where the run has changed the directory without having
/// been able to tell where it was, nor where the change back has failed.
pub open spec fn restorable<T>(state: OrchestratorView<T>, event: EventView) -> bool {
    match state.stage {
        Stage::DirectoryChange => succeeded(event) ==> state.saved_directory is Some,
        Stage::Restore => succeeded(event),
        _ => true,
    }
}

/// Whether the responses take the run that stands at `state`, with `action`
/// pending, to its end: each answers the pending action, tells the truth
/// about the working directory and leaves the directory restorable, and the
/// run finishes within them.
pub open spec fn completes<T>(
    state: OrchestratorView<T>,
    action: ActionView<T>,
    around: Surroundings,
    responses: Seq<Response>,
) -> bool
    decreases responses.len(),
{
    if action is Finish {
        true
    } else if responses.len() == 0 {
        false
    } else {
        let first = responses[0];
        let next = state.transition(first.event, first.clock);
        &&& answers(action, first.event)
        &&& truthful(around, action, first.event)
        &&& restorable(state, first.event)
        &&& completes(next.0, next.1, after(around, action, first.event), responses.drop_first())
    }
}

/// The surroundings when the run that stands at `state`, with `action`
/// pending, has been taken through the responses, or has finished before.
pub open spec fn at_end<T>(
    state: OrchestratorView<T>,
    action: ActionView<T>,
    around: Surroundings,
    responses: Seq<Response>,
) -> Surroundings
    decreases responses.len(),
{
    if action is Finish || responses.len() == 0 {
        around
    } else {
        let first = responses[0];
        let next = state.transition(first.event, first.clock);
        at_end(next.0, next.1, after(around, action, first.event), responses.drop_first())
    }
}

/// Whether the engine, if `action` invokes it, finds the log directory and
/// the temporary directory that it is configured with.
pub open spec fn engine_is_served<T>(action: ActionView<T>, around: Surroundings) -> bool {
    action matches ActionView::Invoke(engine, _) ==> around.directories.contains(
        engine.log_directory,
    ) && around.directories.contains(engine.tmp_directory)
}

/// Whether the engine finds its directories at every invocation of the run
/// that stands at `state`, with `action` pending, and is taken through the
/// responses.
pub open spec fn engine_is_always_served<T>(
    state: OrchestratorView<T>,
    action: ActionView<T>,
    around: Surroundings,
    responses: Seq<Response>,
) -> bool
    decreases responses.len(),
{
    &&& engine_is_served(action, around)
    &&& responses.len() > 0 ==> {
        let first = responses[0];
        let next = state.transition(first.event, first.clock);
        engine_is_always_served(
            next.0,
            next.1,
            after(around, action, first.event),
            responses.drop_first(),
        )
    }
}

/// What holds between a run and the working directory, at every stage of a
/// run that began in `origin`: until the run changes the directory it stands
/// at `origin`; once it has, the run knows `origin` and is bound to go back
/// there before it finishes.
pub open spec fn on_course<T>(
    state: OrchestratorView<T>,
    action: ActionView<T>,
    cwd: Seq<char>,
    origin: Seq<char>,
) -> bool {
    match state.stage {
        Stage::FileProbe => action is ProbeRegularFile && !state.directory_changed && cwd
            == origin,
        Stage::ExistenceProbe => action is ProbeExists && !state.directory_changed && cwd
            == origin,
        Stage::CacheProbe => action is ProbeCached && !state.directory_changed && cwd == origin,
        Stage::Install => action is Install && !state.directory_changed && cwd == origin,
        Stage::Interpreter | Stage::Kernel => action is Resolve && !state.directory_changed && cwd
            == origin,
        Stage::TmpDirectory | Stage::LogDirectory => action is CreateDirectory
            && !state.directory_changed && cwd == origin,
        Stage::Canonical => action is Canonicalize && !state.directory_changed && cwd == origin,
        Stage::FallbackBase | Stage::SavedDirectory => action is CurrentDirectory
            && !state.directory_changed && cwd == origin,
        Stage::DirectoryChange => action is ChangeDirectory && !state.directory_changed && cwd
            == origin && (state.saved_directory matches Some(dir) ==> dir == origin),
        Stage::Engine => action is Invoke && if state.directory_changed {
            state.saved_directory == Some(origin)
        } else {
            cwd == origin
        },
        Stage::Restore => action == ActionView::<T>::RestoreDirectory(origin),
        Stage::Finished => action is Finish && cwd == origin,
    }
}

/// What holds between a run and the directories on disk, at every stage:
/// past the creation of a directory, the directory exists; and the engine is
/// invoked past both, with the directories of the run's configuration.
pub open spec fn prepared<T>(
    state: OrchestratorView<T>,
    action: ActionView<T>,
    directories: Set<Seq<char>>,
) -> bool {
    let tmp_exists = directories.contains(state.config.tmp_directory);
    let log_exists = directories.contains(state.config.log_directory);
    match state.stage {
        Stage::TmpDirectory => action == ActionView::<T>::CreateDirectory(
            state.config.tmp_directory,
        ),
        Stage::LogDirectory => tmp_exists && action == ActionView::<T>::CreateDirectory(
            state.config.log_directory,
        ),
        Stage::Canonical | Stage::FallbackBase | Stage::SavedDirectory | Stage::DirectoryChange => 
            tmp_exists && log_exists && !(action is Invoke),
        Stage::Engine => tmp_exists && log_exists && (action matches ActionView::Invoke(engine, _)
            ==> engine.tmp_directory == state.config.tmp_directory && engine.log_directory
            == state.config.log_directory),
        _ => !(action is Invoke),
    }
}

/// The first step of a run leaves the surroundings as they were.
pub proof fn lemma_start_on_course<T>(
    config: RuntimeConfigView<T>,
    workload_path: Seq<char>,
    around: Surroundings,
)
    ensures
        on_course(
            start(config, workload_path).0,
            start(config, workload_path).1,
            around.cwd,
            around.cwd,
        ),
        prepared(start(config, workload_path).0, start(config, workload_path).1, around.directories),
{
}

/// Every step of a run whose working directory is on course keeps it on
/// course.
pub proof fn lemma_step_on_course<T>(
    state: OrchestratorView<T>,
    action: ActionView<T>,
    around: Surroundings,
    origin: Seq<char>,
    response: Response,
)
    requires
        on_course(state, action, around.cwd, origin),
        answers(action, response.event),
        truthful(around, action, response.event),
        restorable(state, response.event),
    ensures
        on_course(
            state.transition(response.event, response.clock).0,
            state.transition(response.event, response.clock).1,
            after(around, action, response.event).cwd,
            origin,
        ),
{
}

/// Every step of a run keeps its directories prepared, whatever the answer.
pub proof fn lemma_step_prepared<T>(
    state: OrchestratorView<T>,
    action: ActionView<T>,
    around: Surroundings,
    response: Response,
)
    requires
        prepared(state, action, around.directories),
    ensures
        prepared(
            state.transition(response.event, response.clock).0,
            state.transition(response.event, response.clock).1,
            after(around, action, response.event).directories,
        ),
{
}

/// A run that is on course ends in the directory in which it began.
pub proof fn lemma_on_course_ends_at_origin<T>(
    state: OrchestratorView<T>,
    action: ActionView<T>,
    around: Surroundings,
    origin: Seq<char>,
    responses: Seq<Response>,
)
    requires
        on_course(state, action, around.cwd, origin),
        completes(state, action, around, responses),
    ensures
        at_end(state, action, around, responses).cwd == origin,
    decreases responses.len(),
{
    if action is Finish {
    } else {
        let first = responses[0];
        let next = state.transition(first.event, first.clock);
        lemma_step_on_course(state, action, around, origin, first);
        lemma_on_course_ends_at_origin(
            next.0,
            next.1,
            after(around, action, first.event),
            origin,
            responses.drop_first(),
        );
    }
}

/// A run whose directories are prepared serves the engine at every
/// invocation.
pub proof fn lemma_prepared_serves_engine<T>(
    state: OrchestratorView<T>,
    action: ActionView<T>,
    around: Surroundings,
    responses: Seq<Response>,
)
    requires
        prepared(state, action, around.directories),
    ensures
        engine_is_always_served(state, action, around, responses),
    decreases responses.len(),
{
    if responses.len() > 0 {
        let first = responses[0];
        let next = state.transition(first.event, first.clock);
        lemma_step_prepared(state, action, around, first);
        lemma_prepared_serves_engine(
            next.0,
            next.1,
            after(around, action, first.event),
            responses.drop_first(),
        );
    }
}

/// The working directory after a run is the working directory before it,
/// whether the run succeeds or fails and at whichever stage: for every
/// configuration, every workload and every succession of answers that takes
/// the run to its end.
pub proof fn lemma_run_restores_working_directory<T>(
    config: RuntimeConfigView<T>,
    workload_path: Seq<char>,
    around: Surroundings,
    responses: Seq<Response>,
)
    requires
        completes(
            start(config, workload_path).0,
            start(config, workload_path).1,
            around,
            responses,
        ),
    ensures
        at_end(start(config, workload_path).0, start(config, workload_path).1, around, responses).cwd
            == around.cwd,
{
    lemma_start_on_course(config, workload_path, around);
    lemma_on_course_ends_at_origin(
        start(config, workload_path).0,
        start(config, workload_path).1,
        around,
        around.cwd,
        responses,
    );
}

/// Whenever a run invokes the engine, the log directory and the temporary
/// directory that the engine is configured with exist: the run has created
/// them. This holds for every configuration, every workload and every
/// succession of answers, however far it takes the run.
pub proof fn lemma_engine_finds_its_directories<T>(
    config: RuntimeConfigView<T>,
    workload_path: Seq<char>,
    around: Surroundings,
    responses: Seq<Response>,
)
    ensures
        engine_is_always_served(
            start(config, workload_path).0,
            start(config, workload_path).1,
            around,
            responses,
        ),
{
    lemma_start_on_course(config, workload_path, around);
    lemma_prepared_serves_engine(
        start(config, workload_path).0,
        start(config, workload_path).1,
        around,
        responses,
    );
}

} // verus!
