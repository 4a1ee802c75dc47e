use rchidrun::install::{
    install, install_via_url, install_via_wasmer, manager_command, registry_install_step,
    url_install_step, PACKAGE_MANAGER,
};
use rchidrun::outcome::{LaunchError, Outcome};
use rchidrun::paths::{artifact_path, language_dir, sdk_dir, SdkPath};
use rchidrun::protocol::{
    Action, CommandArgument, EngineStep, Event, InstallRequest, ManagerCommand, RegistryStep,
    RunRequest, Stage, Transition, UrlStep,
};

fn root() -> SdkPath {
    sdk_dir(Some("/home/ada".to_string())).unwrap()
}

fn request(language: &str) -> RunRequest {
    RunRequest { root: root(), language: language.to_string(), script: "main.src".to_string() }
}

fn failure(error: LaunchError) -> Transition {
    Transition {
        stage: Stage::Finished(Outcome::Failed(error.clone())),
        notice: None,
        action: Action::Finish(Outcome::Failed(error)),
    }
}

fn url() -> String {
    "https://example.org/cobol.wasm".to_string()
}

#[test]
fn package_manager_is_wasmer() {
    assert_eq!(PACKAGE_MANAGER, "wasmer");
}

#[test]
fn manager_is_told_package_and_target() {
    let target = language_dir(&root(), "python");
    assert_eq!(
        manager_command("wasmer/python".to_string(), target.clone()),
        ManagerCommand {
            program: "wasmer".to_string(),
            arguments: vec![
                CommandArgument::Text("install".to_string()),
                CommandArgument::Text("wasmer/python".to_string()),
                CommandArgument::Text("--to".to_string()),
                CommandArgument::Location(target),
            ],
        }
    );
}

#[test]
fn registry_install_begins_with_the_directory() {
    assert_eq!(
        install_via_wasmer(&root(), "ruby"),
        Transition {
            stage: Stage::InstallViaRegistry(RegistryStep::CreatingDirectory(
                "wasmer/ruby".to_string()
            )),
            notice: None,
            action: Action::CreateDirectory(language_dir(&root(), "ruby")),
        }
    );
}

#[test]
fn registry_install_of_unknown_language_is_refused() {
    assert_eq!(install_via_wasmer(&root(), "cobol"), failure(LaunchError::UnsupportedLanguage));
    assert_eq!(install_via_wasmer(&root(), "Ruby"), failure(LaunchError::UnsupportedLanguage));
}

#[test]
fn url_install_begins_with_the_directory() {
    assert_eq!(
        install_via_url(&root(), "cobol", url()),
        Transition {
            stage: Stage::InstallViaUrl(UrlStep::CreatingDirectory(url())),
            notice: None,
            action: Action::CreateDirectory(language_dir(&root(), "cobol")),
        }
    );
}

#[test]
fn url_install_accepts_supported_languages_and_any_location() {
    assert_eq!(
        install_via_url(&root(), "python", String::new()).stage,
        Stage::InstallViaUrl(UrlStep::CreatingDirectory(String::new()))
    );
}

#[test]
fn install_dispatches_on_the_request() {
    assert_eq!(
        install(&root(), InstallRequest::FromRegistry("python".to_string())),
        install_via_wasmer(&root(), "python")
    );
    assert_eq!(
        install(&root(), InstallRequest::FromRegistry("cobol".to_string())),
        failure(LaunchError::UnsupportedLanguage)
    );
    assert_eq!(
        install(&root(), InstallRequest::FromUrl("cobol".to_string(), url())),
        install_via_url(&root(), "cobol", url())
    );
}

#[test]
fn directory_failure_is_a_filesystem_error() {
    assert_eq!(
        registry_install_step(
            &request("python"),
            RegistryStep::CreatingDirectory("wasmer/python".to_string()),
            Event::Failed("Permission denied".to_string())
        ),
        failure(LaunchError::FilesystemError("Permission denied".to_string()))
    );
    assert_eq!(
        url_install_step(
            &request("cobol"),
            UrlStep::CreatingDirectory(url()),
            Event::Failed("Read-only file system".to_string())
        ),
        failure(LaunchError::FilesystemError("Read-only file system".to_string()))
    );
}

#[test]
fn manager_runs_once_the_directory_exists() {
    assert_eq!(
        registry_install_step(
            &request("python"),
            RegistryStep::CreatingDirectory("wasmer/python".to_string()),
            Event::Completed
        ),
        Transition {
            stage: Stage::InstallViaRegistry(RegistryStep::RunningManager),
            notice: None,
            action: Action::RunPackageManager(manager_command(
                "wasmer/python".to_string(),
                language_dir(&root(), "python")
            )),
        }
    );
}

#[test]
fn manager_that_cannot_be_launched_is_unavailable() {
    assert_eq!(
        registry_install_step(
            &request("python"),
            RegistryStep::RunningManager,
            Event::Failed("No such file or directory (os error 2)".to_string())
        ),
        failure(LaunchError::PackageManagerUnavailable(
            "No such file or directory (os error 2)".to_string()
        ))
    );
}

#[test]
fn manager_that_exits_with_failure_fails_the_install() {
    assert_eq!(
        registry_install_step(&request("python"), RegistryStep::RunningManager, Event::Exited(false)),
        failure(LaunchError::InstallFailed)
    );
}

#[test]
fn successful_registry_install_starts_the_engine() {
    assert_eq!(
        registry_install_step(&request("python"), RegistryStep::RunningManager, Event::Exited(true)),
        Transition {
            stage: Stage::Ready(EngineStep::ConfirmingArtifact),
            notice: Some("Installed 'python' via Wasmer".to_string()),
            action: Action::CheckArtifact(artifact_path(&root(), "python")),
        }
    );
}

#[test]
fn request_is_sent_once_the_directory_exists() {
    assert_eq!(
        url_install_step(&request("cobol"), UrlStep::CreatingDirectory(url()), Event::Completed),
        Transition {
            stage: Stage::InstallViaUrl(UrlStep::Connecting),
            notice: None,
            action: Action::Fetch(url()),
        }
    );
}

#[test]
fn body_is_read_after_the_response_arrives() {
    assert_eq!(
        url_install_step(&request("cobol"), UrlStep::Connecting, Event::Completed),
        Transition {
            stage: Stage::InstallViaUrl(UrlStep::AwaitingBody),
            notice: None,
            action: Action::ReadBody,
        }
    );
}

#[test]
fn artifact_file_is_created_when_the_first_piece_arrives() {
    let bytes: Vec<u8> = vec![0, 97, 115, 109];
    assert_eq!(
        url_install_step(&request("cobol"), UrlStep::AwaitingBody, Event::Chunk(bytes.clone())),
        Transition {
            stage: Stage::InstallViaUrl(UrlStep::CreatingFile(Some(bytes.clone()))),
            notice: None,
            action: Action::CreateFile(artifact_path(&root(), "cobol")),
        }
    );
    assert_eq!(
        url_install_step(
            &request("cobol"),
            UrlStep::CreatingFile(Some(bytes.clone())),
            Event::Completed
        ),
        Transition {
            stage: Stage::InstallViaUrl(UrlStep::WritingBody),
            notice: None,
            action: Action::WriteBody(artifact_path(&root(), "cobol"), bytes),
        }
    );
}

#[test]
fn empty_body_gives_an_empty_artifact() {
    assert_eq!(
        url_install_step(&request("cobol"), UrlStep::AwaitingBody, Event::EndOfBody),
        Transition {
            stage: Stage::InstallViaUrl(UrlStep::CreatingFile(None)),
            notice: None,
            action: Action::CreateFile(artifact_path(&root(), "cobol")),
        }
    );
    assert_eq!(
        url_install_step(&request("cobol"), UrlStep::CreatingFile(None), Event::Completed),
        Transition {
            stage: Stage::Ready(EngineStep::ConfirmingArtifact),
            notice: Some("Installed 'cobol' from URL".to_string()),
            action: Action::CheckArtifact(artifact_path(&root(), "cobol")),
        }
    );
}

#[test]
fn failed_request_leaves_the_artifact_alone() {
    let request = request("cobol");
    let first = install_via_url(&root(), "cobol", url());
    let second = url_install_step(&request, UrlStep::CreatingDirectory(url()), Event::Completed);
    let third = url_install_step(&request, UrlStep::Connecting, Event::Failed("refused".to_string()));
    assert_eq!(third, failure(LaunchError::DownloadFailed("refused".to_string())));
    for action in [first.action, second.action, third.action] {
        assert!(!matches!(action, Action::CreateFile(_) | Action::WriteBody(_, _)));
    }
}

#[test]
fn failed_first_read_leaves_the_artifact_alone() {
    let request = request("cobol");
    let read = url_install_step(&request, UrlStep::Connecting, Event::Completed);
    assert_eq!(read.action, Action::ReadBody);
    let failed =
        url_install_step(&request, UrlStep::AwaitingBody, Event::Failed("reset".to_string()));
    assert_eq!(failed, failure(LaunchError::DownloadFailed("reset".to_string())));
}

#[test]
fn file_failure_is_a_filesystem_error() {
    for piece in [None, Some(vec![1u8, 2])] {
        assert_eq!(
            url_install_step(
                &request("cobol"),
                UrlStep::CreatingFile(piece),
                Event::Failed("Is a directory".to_string())
            ),
            failure(LaunchError::FilesystemError("Is a directory".to_string()))
        );
    }
    assert_eq!(
        url_install_step(
            &request("cobol"),
            UrlStep::WritingBody,
            Event::Failed("No space left on device".to_string())
        ),
        failure(LaunchError::FilesystemError("No space left on device".to_string()))
    );
}

#[test]
fn transport_failure_is_a_download_error() {
    assert_eq!(
        url_install_step(
            &request("cobol"),
            UrlStep::Connecting,
            Event::Failed("dns error".to_string())
        ),
        failure(LaunchError::DownloadFailed("dns error".to_string()))
    );
    assert_eq!(
        url_install_step(
            &request("cobol"),
            UrlStep::ReadingBody,
            Event::Failed("connection reset".to_string())
        ),
        failure(LaunchError::DownloadFailed("connection reset".to_string()))
    );
}

#[test]
fn each_piece_is_written_as_received() {
    let bytes: Vec<u8> = vec![0, 97, 115, 109, 1, 0, 0, 0, 255, 254];
    assert_eq!(
        url_install_step(&request("cobol"), UrlStep::ReadingBody, Event::Chunk(bytes.clone())),
        Transition {
            stage: Stage::InstallViaUrl(UrlStep::WritingBody),
            notice: None,
            action: Action::WriteBody(artifact_path(&root(), "cobol"), bytes),
        }
    );
    assert_eq!(
        url_install_step(&request("cobol"), UrlStep::ReadingBody, Event::Chunk(Vec::new())).action,
        Action::WriteBody(artifact_path(&root(), "cobol"), Vec::new())
    );
    assert_eq!(
        url_install_step(&request("cobol"), UrlStep::CreatingFile(Some(Vec::new())), Event::Completed)
            .action,
        Action::WriteBody(artifact_path(&root(), "cobol"), Vec::new())
    );
}

#[test]
fn reading_resumes_after_each_write() {
    assert_eq!(
        url_install_step(&request("cobol"), UrlStep::WritingBody, Event::Completed),
        Transition {
            stage: Stage::InstallViaUrl(UrlStep::ReadingBody),
            notice: None,
            action: Action::ReadBody,
        }
    );
}

#[test]
fn successful_url_install_starts_the_engine() {
    assert_eq!(
        url_install_step(&request("cobol"), UrlStep::ReadingBody, Event::EndOfBody),
        Transition {
            stage: Stage::Ready(EngineStep::ConfirmingArtifact),
            notice: Some("Installed 'cobol' from URL".to_string()),
            action: Action::CheckArtifact(artifact_path(&root(), "cobol")),
        }
    );
}

#[test]
fn installers_reject_events_that_answer_nothing() {
    let unexpected = failure(LaunchError::UnexpectedEvent);
    let python = request("python");
    let cobol = request("cobol");
    let package = || RegistryStep::CreatingDirectory("wasmer/python".to_string());
    assert_eq!(registry_install_step(&python, package(), Event::Exited(true)), unexpected);
    assert_eq!(registry_install_step(&python, package(), Event::Found(true)), unexpected);
    assert_eq!(registry_install_step(&python, RegistryStep::RunningManager, Event::Completed), unexpected);
    assert_eq!(registry_install_step(&python, RegistryStep::RunningManager, Event::EndOfBody), unexpected);
    assert_eq!(url_install_step(&cobol, UrlStep::CreatingDirectory(url()), Event::EndOfBody), unexpected);
    assert_eq!(url_install_step(&cobol, UrlStep::Connecting, Event::Chunk(vec![1])), unexpected);
    assert_eq!(url_install_step(&cobol, UrlStep::Connecting, Event::EndOfBody), unexpected);
    assert_eq!(url_install_step(&cobol, UrlStep::AwaitingBody, Event::Completed), unexpected);
    assert_eq!(url_install_step(&cobol, UrlStep::AwaitingBody, Event::Found(true)), unexpected);
    assert_eq!(url_install_step(&cobol, UrlStep::CreatingFile(None), Event::Chunk(vec![1])), unexpected);
    assert_eq!(url_install_step(&cobol, UrlStep::CreatingFile(Some(vec![1])), Event::EndOfBody), unexpected);
    assert_eq!(url_install_step(&cobol, UrlStep::ReadingBody, Event::Completed), unexpected);
    assert_eq!(url_install_step(&cobol, UrlStep::WritingBody, Event::Chunk(vec![1])), unexpected);
    assert_eq!(url_install_step(&cobol, UrlStep::WritingBody, Event::EndOfBody), unexpected);
    assert_eq!(url_install_step(&cobol, UrlStep::ReadingBody, Event::Line("x".to_string())), unexpected);
}
