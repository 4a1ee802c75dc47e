//! The resolution flow: the state machine that takes a run request from the
//! first look at the cache, through an install where one is needed and
//! agreed to, to the execution engine.
//!
//! The caller holds the stage, performs each action and reports the event;
//! every decision is taken here.

use crate::engine::{engine_step, execution_begin, execution_next, run_sdk};
use crate::install::{
    install, install_begin, registry_install_next, registry_install_step, url_install_next,
    url_install_step,
};
use crate::outcome::{LaunchError, LaunchErrorView, Outcome, OutcomeView};
use crate::paths::{artifact_path, artifact_path_of};
use crate::prompt::{
    affirmative, enclose, is_affirmative, missing_runtime_notice, trim_line, trimmed,
    INSTALL_PROMPT, URL_PROMPT,
};
use crate::protocol::{
    fail, stop, Action, ActionView, Event, EventView, InstallRequest, InstallRequestView,
    RunRequest, RunRequestView, Stage, StageView, Transition, TransitionView,
};
use crate::registry::{is_supported_language, supported};
use vstd::prelude::*;
use vstd::string::*;

verus! {

/// The first move of every run: to look for the artifact.
pub open spec fn resolution_begin(request: RunRequestView) -> TransitionView {
    TransitionView {
        stage: StageView::CacheCheck,
        notice: None,
        action: ActionView::CheckArtifact(artifact_path_of(request.root, request.language)),
    }
}

/// The move when no artifact was found: the user is told, and asked to agree
/// to a registry install where the language is supported, for a download
/// location where it is not.
pub open spec fn needs_install(request: RunRequestView) -> TransitionView {
    if supported(request.language) {
        TransitionView {
            stage: StageView::PromptUser,
            notice: Some(missing_runtime_notice(request.language)),
            action: ActionView::Ask(INSTALL_PROMPT@),
        }
    } else {
        TransitionView {
            stage: StageView::RequestUrl,
            notice: Some(missing_runtime_notice(request.language)),
            action: ActionView::Ask(URL_PROMPT@),
        }
    }
}

/// The move after the user's reply to the install question.
pub open spec fn after_prompt(request: RunRequestView, event: EventView) -> TransitionView {
    match event {
        EventView::Line(line) => if affirmative(trimmed(line)) {
            install_begin(request.root, InstallRequestView::FromRegistry(request.language))
        } else {
            stop(OutcomeView::Aborted)
        },
        EventView::Failed(cause) => fail(LaunchErrorView::PromptFailed(cause)),
        _ => fail(LaunchErrorView::UnexpectedEvent),
    }
}

/// The move after the user's reply to the request for a location.
pub open spec fn after_url_request(request: RunRequestView, event: EventView) -> TransitionView {
    match event {
        EventView::Line(line) => install_begin(
            request.root,
            InstallRequestView::FromUrl(request.language, trimmed(line)),
        ),
        EventView::Failed(cause) => fail(LaunchErrorView::PromptFailed(cause)),
        _ => fail(LaunchErrorView::UnexpectedEvent),
    }
}

/// The move at `stage` when `event` answers its action. An event that the
/// action cannot produce ends the run with `UnexpectedEvent`; a finished run
/// stays finished.
pub open spec fn next(request: RunRequestView, stage: StageView, event: EventView) -> TransitionView {
    match stage {
        StageView::CacheCheck => match event {
            EventView::Found(true) => execution_begin(request),
            EventView::Found(false) => needs_install(request),
            _ => fail(LaunchErrorView::UnexpectedEvent),
        },
        StageView::PromptUser => after_prompt(request, event),
        StageView::RequestUrl => after_url_request(request, event),
        StageView::InstallViaRegistry(step) => registry_install_next(request, step, event),
        StageView::InstallViaUrl(step) => url_install_next(request, step, event),
        StageView::Ready(step) => execution_next(request, step, event),
        StageView::Finished(outcome) => stop(outcome),
    }
}

/// Starts a run: the first thing asked is whether the artifact of the
/// request's language exists.
pub fn run_language(request: &RunRequest) -> (transition: Transition)
    ensures
        transition@ == resolution_begin(request@),
{
    Transition {
        stage: Stage::CacheCheck,
        notice: None,
        action: Action::CheckArtifact(artifact_path(&request.root, request.language.as_str())),
    }
}

/// Chooses how a missing runtime is to be acquired: by asking the user to
/// agree to a registry install where the language is supported, by asking
/// for a download location where it is not.
pub fn choose_install(request: &RunRequest) -> (transition: Transition)
    ensures
        transition@ == needs_install(request@),
{
    let notice = enclose("No runtime found for '", request.language.as_str(), "'.");
    if is_supported_language(request.language.as_str()) {
        Transition {
            stage: Stage::PromptUser,
            notice: Some(notice),
            action: Action::Ask(String::from_str(INSTALL_PROMPT)),
        }
    } else {
        Transition {
            stage: Stage::RequestUrl,
            notice: Some(notice),
            action: Action::Ask(String::from_str(URL_PROMPT)),
        }
    }
}

/// Acts on the user's reply to the install question: the trimmed reply `y`,
/// in either case, starts the registry install; any other reply ends the run
/// as aborted, with nothing written.
pub fn confirm_install(request: &RunRequest, event: Event) -> (transition: Transition)
    ensures
        transition@ == after_prompt(request@, event@),
{
    match event {
        Event::Line(line) => {
            let choice = trim_line(line.as_str());
            if is_affirmative(choice.as_str()) {
                install(&request.root, InstallRequest::FromRegistry(request.language.clone()))
            } else {
                Transition::stop(Outcome::Aborted)
            }
        },
        Event::Failed(cause) => Transition::fail(LaunchError::PromptFailed(cause)),
        _ => Transition::fail(LaunchError::UnexpectedEvent),
    }
}

/// Acts on the user's reply to the request for a location: the trimmed reply
/// is the location to download from, whatever it holds.
pub fn accept_url(request: &RunRequest, event: Event) -> (transition: Transition)
    ensures
        transition@ == after_url_request(request@, event@),
{
    match event {
        Event::Line(line) => {
            let url = trim_line(line.as_str());
            install(&request.root, InstallRequest::FromUrl(request.language.clone(), url))
        },
        Event::Failed(cause) => Transition::fail(LaunchError::PromptFailed(cause)),
        _ => Transition::fail(LaunchError::UnexpectedEvent),
    }
}

/// Moves a run on from `stage` once `event` has answered its action.
///
/// A cache hit starts the engine at once. A miss leads to the install
/// question or to the request for a location, then through the install to
/// the engine. Every failure ends the run with its error, and a finished run
/// stays as it is.
pub fn advance(request: &RunRequest, stage: Stage, event: Event) -> (transition: Transition)
    ensures
        transition@ == next(request@, stage@, event@),
{
    match stage {
        Stage::CacheCheck => match event {
            Event::Found(true) => run_sdk(request),
            Event::Found(false) => choose_install(request),
            _ => Transition::fail(LaunchError::UnexpectedEvent),
        },
        Stage::PromptUser => confirm_install(request, event),
        Stage::RequestUrl => accept_url(request, event),
        Stage::InstallViaRegistry(step) => registry_install_step(request, step, event),
        Stage::InstallViaUrl(step) => url_install_step(request, step, event),
        Stage::Ready(step) => engine_step(request, step, event),
        Stage::Finished(outcome) => Transition::stop(outcome),
    }
}

} // verus!
