//! The installer: a runtime artifact is acquired through the package manager
//! or by download.
//!
//! Both ways begin by creating the language's directory and both overwrite
//! what an earlier install left; a download touches the artifact only once
//! the response body has begun to arrive. Nothing checks what was acquired:
//! the bytes are taken as they come.

use crate::engine::{execution_begin, run_sdk};
use crate::outcome::{LaunchError, LaunchErrorView};
use crate::paths::{artifact_path, artifact_path_of, language_dir, language_dir_of, SdkPath};
use crate::prompt::{enclose, registry_install_notice, url_install_notice};
use crate::protocol::{
    announced, fail, Action, ActionView, CommandArgument, CommandArgumentView, Event, EventView,
    InstallRequest, InstallRequestView, ManagerCommand, ManagerCommandView, RegistryStep,
    RegistryStepView, RunRequest, RunRequestView, Stage, StageView, Transition, TransitionView,
    UrlStep, UrlStepView,
};
use crate::registry::{get_wasmer_package, package_of};
use vstd::prelude::*;
use vstd::string::*;

verus! {

/// Program name of the package manager.
pub const PACKAGE_MANAGER: &'static str = "wasmer";

/// The subprocess that installs `package` into the directory `target`.
pub open spec fn manager_command_of(
    package: Seq<char>,
    target: Seq<Seq<char>>,
) -> ManagerCommandView {
    ManagerCommandView {
        program: PACKAGE_MANAGER@,
        arguments: seq![
            CommandArgumentView::Text("install"@),
            CommandArgumentView::Text(package),
            CommandArgumentView::Text("--to"@),
            CommandArgumentView::Location(target),
        ],
    }
}

/// A registry install at `step`, with `action` to perform.
pub open spec fn registry_install_at(step: RegistryStepView, action: ActionView) -> TransitionView {
    TransitionView { stage: StageView::InstallViaRegistry(step), notice: None, action }
}

/// A URL install at `step`, with `action` to perform.
pub open spec fn url_install_at(step: UrlStepView, action: ActionView) -> TransitionView {
    TransitionView { stage: StageView::InstallViaUrl(step), notice: None, action }
}

/// The installer's first move for a request under `root`.
pub open spec fn install_begin(root: Seq<Seq<char>>, how: InstallRequestView) -> TransitionView {
    match how {
        InstallRequestView::FromRegistry(language) => match package_of(language) {
            Some(package) => registry_install_at(
                RegistryStepView::CreatingDirectory(package),
                ActionView::CreateDirectory(language_dir_of(root, language)),
            ),
            None => fail(LaunchErrorView::UnsupportedLanguage),
        },
        InstallRequestView::FromUrl(language, url) => url_install_at(
            UrlStepView::CreatingDirectory(url),
            ActionView::CreateDirectory(language_dir_of(root, language)),
        ),
    }
}

/// A registry install's move at `step` when `event` answers its last action.
pub open spec fn registry_install_next(
    request: RunRequestView,
    step: RegistryStepView,
    event: EventView,
) -> TransitionView {
    match (step, event) {
        (RegistryStepView::CreatingDirectory(package), EventView::Completed) => registry_install_at(
            RegistryStepView::RunningManager,
            ActionView::RunPackageManager(
                manager_command_of(package, language_dir_of(request.root, request.language)),
            ),
        ),
        (RegistryStepView::CreatingDirectory(_), EventView::Failed(cause)) => fail(
            LaunchErrorView::FilesystemError(cause),
        ),
        (RegistryStepView::RunningManager, EventView::Exited(true)) => announced(
            execution_begin(request),
            registry_install_notice(request.language),
        ),
        (RegistryStepView::RunningManager, EventView::Exited(false)) => fail(
            LaunchErrorView::InstallFailed,
        ),
        (RegistryStepView::RunningManager, EventView::Failed(cause)) => fail(
            LaunchErrorView::PackageManagerUnavailable(cause),
        ),
        _ => fail(LaunchErrorView::UnexpectedEvent),
    }
}

/// A URL install's move at `step` when `event` answers its last action.
pub open spec fn url_install_next(
    request: RunRequestView,
    step: UrlStepView,
    event: EventView,
) -> TransitionView {
    let artifact = artifact_path_of(request.root, request.language);
    match (step, event) {
        (UrlStepView::CreatingDirectory(url), EventView::Completed) => url_install_at(
            UrlStepView::Connecting,
            ActionView::Fetch(url),
        ),
        (UrlStepView::CreatingDirectory(_), EventView::Failed(cause)) => fail(
            LaunchErrorView::FilesystemError(cause),
        ),
        (UrlStepView::Connecting, EventView::Completed) => url_install_at(
            UrlStepView::AwaitingBody,
            ActionView::ReadBody,
        ),
        (UrlStepView::Connecting, EventView::Failed(cause)) => fail(
            LaunchErrorView::DownloadFailed(cause),
        ),
        (UrlStepView::AwaitingBody, EventView::Chunk(bytes)) => url_install_at(
            UrlStepView::CreatingFile(Some(bytes)),
            ActionView::CreateFile(artifact),
        ),
        (UrlStepView::AwaitingBody, EventView::EndOfBody) => url_install_at(
            UrlStepView::CreatingFile(None),
            ActionView::CreateFile(artifact),
        ),
        (UrlStepView::AwaitingBody, EventView::Failed(cause)) => fail(
            LaunchErrorView::DownloadFailed(cause),
        ),
        (UrlStepView::CreatingFile(Some(bytes)), EventView::Completed) => url_install_at(
            UrlStepView::WritingBody,
            ActionView::WriteBody(artifact, bytes),
        ),
        (UrlStepView::CreatingFile(None), EventView::Completed) => announced(
            execution_begin(request),
            url_install_notice(request.language),
        ),
        (UrlStepView::CreatingFile(_), EventView::Failed(cause)) => fail(
            LaunchErrorView::FilesystemError(cause),
        ),
        (UrlStepView::WritingBody, EventView::Completed) => url_install_at(
            UrlStepView::ReadingBody,
            ActionView::ReadBody,
        ),
        (UrlStepView::WritingBody, EventView::Failed(cause)) => fail(
            LaunchErrorView::FilesystemError(cause),
        ),
        (UrlStepView::ReadingBody, EventView::Chunk(bytes)) => url_install_at(
            UrlStepView::WritingBody,
            ActionView::WriteBody(artifact, bytes),
        ),
        (UrlStepView::ReadingBody, EventView::EndOfBody) => announced(
            execution_begin(request),
            url_install_notice(request.language),
        ),
        (UrlStepView::ReadingBody, EventView::Failed(cause)) => fail(
            LaunchErrorView::DownloadFailed(cause),
        ),
        _ => fail(LaunchErrorView::UnexpectedEvent),
    }
}

/// The subprocess that installs `package` into the directory `target`.
pub fn manager_command(package: String, target: SdkPath) -> (command: ManagerCommand)
    ensures
        command@ == manager_command_of(package@, target@),
{
    let mut arguments: Vec<CommandArgument> = Vec::new();
    arguments.push(CommandArgument::Text(String::from_str("install")));
    arguments.push(CommandArgument::Text(package));
    arguments.push(CommandArgument::Text(String::from_str("--to")));
    arguments.push(CommandArgument::Location(target));
    let command = ManagerCommand { program: String::from_str(PACKAGE_MANAGER), arguments };
    assert(command@.arguments =~= manager_command_of(package@, target@).arguments);
    command
}

/// Starts a registry install of `language` under `root`: the language's
/// directory is created first. A language without a registered package ends
/// the run with `UnsupportedLanguage` before anything is written.
pub fn install_via_wasmer(root: &SdkPath, language: &str) -> (transition: Transition)
    ensures
        transition@ == install_begin(root@, InstallRequestView::FromRegistry(language@)),
{
    match get_wasmer_package(language) {
        Some(package) => Transition {
            stage: Stage::InstallViaRegistry(RegistryStep::CreatingDirectory(package)),
            notice: None,
            action: Action::CreateDirectory(language_dir(root, language)),
        },
        None => Transition::fail(LaunchError::UnsupportedLanguage),
    }
}

/// Starts a download of the runtime of `language` from `url`: the language's
/// directory is created first. Any language and any location are accepted.
pub fn install_via_url(root: &SdkPath, language: &str, url: String) -> (transition: Transition)
    ensures
        transition@ == install_begin(root@, InstallRequestView::FromUrl(language@, url@)),
{
    Transition {
        stage: Stage::InstallViaUrl(UrlStep::CreatingDirectory(url)),
        notice: None,
        action: Action::CreateDirectory(language_dir(root, language)),
    }
}

/// Starts the install that `how` asks for, under `root`.
pub fn install(root: &SdkPath, how: InstallRequest) -> (transition: Transition)
    ensures
        transition@ == install_begin(root@, how@),
{
    match how {
        InstallRequest::FromRegistry(language) => install_via_wasmer(root, language.as_str()),
        InstallRequest::FromUrl(language, url) => install_via_url(root, language.as_str(), url),
    }
}

/// Moves a registry install on from `step` once `event` has answered its
/// last action.
///
/// A directory that cannot be created ends the run with `FilesystemError`, a
/// package manager that cannot be launched with `PackageManagerUnavailable`,
/// one that exits with failure with `InstallFailed`. Success is the exit
/// status alone; the engine is started next.
pub fn registry_install_step(request: &RunRequest, step: RegistryStep, event: Event) -> (transition:
    Transition)
    ensures
        transition@ == registry_install_next(request@, step@, event@),
{
    match step {
        RegistryStep::CreatingDirectory(package) => match event {
            Event::Completed => Transition {
                stage: Stage::InstallViaRegistry(RegistryStep::RunningManager),
                notice: None,
                action: Action::RunPackageManager(
                    manager_command(
                        package,
                        language_dir(&request.root, request.language.as_str()),
                    ),
                ),
            },
            Event::Failed(cause) => Transition::fail(LaunchError::FilesystemError(cause)),
            _ => Transition::fail(LaunchError::UnexpectedEvent),
        },
        RegistryStep::RunningManager => match event {
            Event::Exited(true) => run_sdk(request).announced(
                enclose("Installed '", request.language.as_str(), "' via Wasmer"),
            ),
            Event::Exited(false) => Transition::fail(LaunchError::InstallFailed),
            Event::Failed(cause) => Transition::fail(LaunchError::PackageManagerUnavailable(cause)),
            _ => Transition::fail(LaunchError::UnexpectedEvent),
        },
    }
}

/// Moves a URL install on from `step` once `event` has answered its last
/// action.
///
/// The request is sent once the directory exists. The artifact file is
/// created only when the first piece of the body, or the end of an empty
/// body, has arrived: a request or a first read that fails leaves an earlier
/// artifact as it was. Each piece is then written as it was read. A
/// directory or file that cannot be created or written ends the run with
/// `FilesystemError`, a request or a read that fails with `DownloadFailed`.
/// At the end of the body the engine is started.
pub fn url_install_step(request: &RunRequest, step: UrlStep, event: Event) -> (transition:
    Transition)
    ensures
        transition@ == url_install_next(request@, step@, event@),
{
    match step {
        UrlStep::CreatingDirectory(url) => match event {
            Event::Completed => Transition {
                stage: Stage::InstallViaUrl(UrlStep::Connecting),
                notice: None,
                action: Action::Fetch(url),
            },
            Event::Failed(cause) => Transition::fail(LaunchError::FilesystemError(cause)),
            _ => Transition::fail(LaunchError::UnexpectedEvent),
        },
        UrlStep::Connecting => match event {
            Event::Completed => Transition {
                stage: Stage::InstallViaUrl(UrlStep::AwaitingBody),
                notice: None,
                action: Action::ReadBody,
            },
            Event::Failed(cause) => Transition::fail(LaunchError::DownloadFailed(cause)),
            _ => Transition::fail(LaunchError::UnexpectedEvent),
        },
        UrlStep::AwaitingBody => match event {
            Event::Chunk(bytes) => Transition {
                stage: Stage::InstallViaUrl(UrlStep::CreatingFile(Some(bytes))),
                notice: None,
                action: Action::CreateFile(
                    artifact_path(&request.root, request.language.as_str()),
                ),
            },
            Event::EndOfBody => Transition {
                stage: Stage::InstallViaUrl(UrlStep::CreatingFile(None)),
                notice: None,
                action: Action::CreateFile(
                    artifact_path(&request.root, request.language.as_str()),
                ),
            },
            Event::Failed(cause) => Transition::fail(LaunchError::DownloadFailed(cause)),
            _ => Transition::fail(LaunchError::UnexpectedEvent),
        },
        UrlStep::CreatingFile(piece) => match event {
            Event::Completed => match piece {
                Some(bytes) => Transition {
                    stage: Stage::InstallViaUrl(UrlStep::WritingBody),
                    notice: None,
                    action: Action::WriteBody(
                        artifact_path(&request.root, request.language.as_str()),
                        bytes,
                    ),
                },
                None => run_sdk(request).announced(
                    enclose("Installed '", request.language.as_str(), "' from URL"),
                ),
            },
            Event::Failed(cause) => Transition::fail(LaunchError::FilesystemError(cause)),
            _ => Transition::fail(LaunchError::UnexpectedEvent),
        },
        UrlStep::WritingBody => match event {
            Event::Completed => Transition {
                stage: Stage::InstallViaUrl(UrlStep::ReadingBody),
                notice: None,
                action: Action::ReadBody,
            },
            Event::Failed(cause) => Transition::fail(LaunchError::FilesystemError(cause)),
            _ => Transition::fail(LaunchError::UnexpectedEvent),
        },
        UrlStep::ReadingBody => match event {
            Event::Chunk(bytes) => Transition {
                stage: Stage::InstallViaUrl(UrlStep::WritingBody),
                notice: None,
                action: Action::WriteBody(
                    artifact_path(&request.root, request.language.as_str()),
                    bytes,
                ),
            },
            Event::EndOfBody => run_sdk(request).announced(
                enclose("Installed '", request.language.as_str(), "' from URL"),
            ),
            Event::Failed(cause) => Transition::fail(LaunchError::DownloadFailed(cause)),
            _ => Transition::fail(LaunchError::UnexpectedEvent),
        },
    }
}

} // verus!
