//! The execution engine: a runtime artifact is confirmed, loaded,
//! instantiated in a fresh store with its system interface, and entered
//! through its entry point.
//!
//! The engine installs nothing and never looks into the script: the guest
//! reads the script's path from its one argument.

use crate::outcome::{LaunchError, LaunchErrorView, Outcome, OutcomeView};
use crate::paths::{artifact_path, artifact_path_of};
use crate::protocol::{
    fail, stop, Action, ActionView, EngineStep, Event, EventView, ExecutionContext,
    ExecutionContextView, RunRequest, RunRequestView, Stage, StageView, Transition, TransitionView,
};
use vstd::prelude::*;
use vstd::string::*;

verus! {

/// Name of the exported function through which a runtime is entered.
pub const ENTRY_POINT: &'static str = "_start";

/// The system interface given to the guest that runs `script`: the host's
/// standard streams, and the script's path as the one argument.
pub open spec fn execution_context_of(script: Seq<char>) -> ExecutionContextView {
    ExecutionContextView { arguments: seq![script], inherit_stdio: true }
}

/// The engine's first move: to confirm that the artifact exists.
pub open spec fn execution_begin(request: RunRequestView) -> TransitionView {
    TransitionView {
        stage: StageView::Ready(EngineStep::ConfirmingArtifact),
        notice: None,
        action: ActionView::CheckArtifact(artifact_path_of(request.root, request.language)),
    }
}

/// The engine at `step`, with `action` to perform.
pub open spec fn engine_at(step: EngineStep, action: ActionView) -> TransitionView {
    TransitionView { stage: StageView::Ready(step), notice: None, action }
}

/// The engine's move at `step` when `event` answers its last action.
pub open spec fn execution_next(
    request: RunRequestView,
    step: EngineStep,
    event: EventView,
) -> TransitionView {
    match (step, event) {
        (EngineStep::ConfirmingArtifact, EventView::Found(true)) => engine_at(
            EngineStep::LoadingModule,
            ActionView::LoadModule(artifact_path_of(request.root, request.language)),
        ),
        (EngineStep::ConfirmingArtifact, EventView::Found(false)) => fail(
            LaunchErrorView::ModuleNotFound,
        ),
        (EngineStep::LoadingModule, EventView::Completed) => engine_at(
            EngineStep::Instantiating,
            ActionView::Instantiate(execution_context_of(request.script)),
        ),
        (EngineStep::LoadingModule, EventView::Failed(cause)) => fail(
            LaunchErrorView::ModuleLoadError(cause),
        ),
        (EngineStep::Instantiating, EventView::Completed) => engine_at(
            EngineStep::LocatingEntry,
            ActionView::LocateEntry(ENTRY_POINT@),
        ),
        (EngineStep::Instantiating, EventView::Failed(cause)) => fail(
            LaunchErrorView::InstantiationFailed(cause),
        ),
        (EngineStep::LocatingEntry, EventView::Found(true)) => engine_at(
            EngineStep::Invoking,
            ActionView::Invoke(ENTRY_POINT@),
        ),
        (EngineStep::LocatingEntry, EventView::Found(false)) => fail(
            LaunchErrorView::EntryPointMissing,
        ),
        (EngineStep::Invoking, EventView::Completed) => stop(OutcomeView::Completed),
        (EngineStep::Invoking, EventView::Failed(cause)) => fail(
            LaunchErrorView::ExecutionTrap(cause),
        ),
        _ => fail(LaunchErrorView::UnexpectedEvent),
    }
}

/// The system interface for a guest that runs `script`.
pub fn execution_context(script: &str) -> (context: ExecutionContext)
    ensures
        context@ == execution_context_of(script@),
{
    let mut arguments: Vec<String> = Vec::new();
    arguments.push(String::from_str(script));
    let context = ExecutionContext { arguments, inherit_stdio: true };
    assert(context@.arguments =~= seq![script@]);
    context
}

/// Starts the engine on the request's language: the first thing asked is
/// whether the artifact exists at its path.
pub fn run_sdk(request: &RunRequest) -> (transition: Transition)
    ensures
        transition@ == execution_begin(request@),
{
    Transition {
        stage: Stage::Ready(EngineStep::ConfirmingArtifact),
        notice: None,
        action: Action::CheckArtifact(artifact_path(&request.root, request.language.as_str())),
    }
}

/// Moves the engine on from `step` once `event` has answered its last action.
///
/// An absent artifact ends the run with `ModuleNotFound`, an invalid module
/// with `ModuleLoadError`, a failed instantiation with `InstantiationFailed`,
/// a missing entry point with `EntryPointMissing`, and a fault in the guest
/// with `ExecutionTrap`; nothing is retried. The run is completed when the
/// entry point returns.
pub fn engine_step(request: &RunRequest, step: EngineStep, event: Event) -> (transition: Transition)
    ensures
        transition@ == execution_next(request@, step, event@),
{
    match step {
        EngineStep::ConfirmingArtifact => match event {
            Event::Found(true) => Transition {
                stage: Stage::Ready(EngineStep::LoadingModule),
                notice: None,
                action: Action::LoadModule(
                    artifact_path(&request.root, request.language.as_str()),
                ),
            },
            Event::Found(false) => Transition::fail(LaunchError::ModuleNotFound),
            _ => Transition::fail(LaunchError::UnexpectedEvent),
        },
        EngineStep::LoadingModule => match event {
            Event::Completed => Transition {
                stage: Stage::Ready(EngineStep::Instantiating),
                notice: None,
                action: Action::Instantiate(execution_context(request.script.as_str())),
            },
            Event::Failed(cause) => Transition::fail(LaunchError::ModuleLoadError(cause)),
            _ => Transition::fail(LaunchError::UnexpectedEvent),
        },
        EngineStep::Instantiating => match event {
            Event::Completed => Transition {
                stage: Stage::Ready(EngineStep::LocatingEntry),
                notice: None,
                action: Action::LocateEntry(String::from_str(ENTRY_POINT)),
            },
            Event::Failed(cause) => Transition::fail(LaunchError::InstantiationFailed(cause)),
            _ => Transition::fail(LaunchError::UnexpectedEvent),
        },
        EngineStep::LocatingEntry => match event {
            Event::Found(true) => Transition {
                stage: Stage::Ready(EngineStep::Invoking),
                notice: None,
                action: Action::Invoke(String::from_str(ENTRY_POINT)),
            },
            Event::Found(false) => Transition::fail(LaunchError::EntryPointMissing),
            _ => Transition::fail(LaunchError::UnexpectedEvent),
        },
        EngineStep::Invoking => match event {
            Event::Completed => Transition::stop(Outcome::Completed),
            Event::Failed(cause) => Transition::fail(LaunchError::ExecutionTrap(cause)),
            _ => Transition::fail(LaunchError::UnexpectedEvent),
        },
    }
}

} // verus!
