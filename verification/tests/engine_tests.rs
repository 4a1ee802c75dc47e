use rchidrun::engine::{engine_step, execution_context, run_sdk, ENTRY_POINT};
use rchidrun::outcome::{LaunchError, Outcome};
use rchidrun::paths::{artifact_path, sdk_dir};
use rchidrun::protocol::{
    Action, EngineStep, Event, ExecutionContext, RunRequest, Stage, Transition,
};

fn request() -> RunRequest {
    RunRequest {
        root: sdk_dir(Some("/home/ada".to_string())).unwrap(),
        language: "python".to_string(),
        script: "script.py".to_string(),
    }
}

fn failure(error: LaunchError) -> Transition {
    Transition {
        stage: Stage::Finished(Outcome::Failed(error.clone())),
        notice: None,
        action: Action::Finish(Outcome::Failed(error)),
    }
}

fn all_events() -> Vec<Event> {
    vec![
        Event::Found(true),
        Event::Found(false),
        Event::Line("y".to_string()),
        Event::Completed,
        Event::Failed("cause".to_string()),
        Event::Exited(true),
        Event::Exited(false),
        Event::Chunk(vec![1, 2, 3]),
        Event::EndOfBody,
    ]
}

#[test]
fn entry_point_name() {
    assert_eq!(ENTRY_POINT, "_start");
}

#[test]
fn context_exposes_the_script_as_the_only_argument() {
    assert_eq!(
        execution_context("script.py"),
        ExecutionContext { arguments: vec!["script.py".to_string()], inherit_stdio: true }
    );
    assert_eq!(
        execution_context("dir with space/a b.py"),
        ExecutionContext { arguments: vec!["dir with space/a b.py".to_string()], inherit_stdio: true }
    );
    assert_eq!(execution_context("").arguments, vec![String::new()]);
}

#[test]
fn engine_begins_by_confirming_the_artifact() {
    let request = request();
    assert_eq!(
        run_sdk(&request),
        Transition {
            stage: Stage::Ready(EngineStep::ConfirmingArtifact),
            notice: None,
            action: Action::CheckArtifact(artifact_path(&request.root, "python")),
        }
    );
}

#[test]
fn absent_artifact_is_module_not_found() {
    assert_eq!(
        engine_step(&request(), EngineStep::ConfirmingArtifact, Event::Found(false)),
        failure(LaunchError::ModuleNotFound)
    );
}

#[test]
fn confirmed_artifact_is_loaded() {
    let request = request();
    assert_eq!(
        engine_step(&request, EngineStep::ConfirmingArtifact, Event::Found(true)),
        Transition {
            stage: Stage::Ready(EngineStep::LoadingModule),
            notice: None,
            action: Action::LoadModule(artifact_path(&request.root, "python")),
        }
    );
}

#[test]
fn invalid_module_is_a_load_error() {
    assert_eq!(
        engine_step(&request(), EngineStep::LoadingModule, Event::Failed("bad magic".to_string())),
        failure(LaunchError::ModuleLoadError("bad magic".to_string()))
    );
}

#[test]
fn loaded_module_is_instantiated_with_the_script() {
    assert_eq!(
        engine_step(&request(), EngineStep::LoadingModule, Event::Completed),
        Transition {
            stage: Stage::Ready(EngineStep::Instantiating),
            notice: None,
            action: Action::Instantiate(ExecutionContext {
                arguments: vec!["script.py".to_string()],
                inherit_stdio: true,
            }),
        }
    );
}

#[test]
fn failed_instantiation_ends_the_run() {
    assert_eq!(
        engine_step(&request(), EngineStep::Instantiating, Event::Failed("unknown import".to_string())),
        failure(LaunchError::InstantiationFailed("unknown import".to_string()))
    );
}

#[test]
fn instance_is_searched_for_the_entry_point() {
    assert_eq!(
        engine_step(&request(), EngineStep::Instantiating, Event::Completed),
        Transition {
            stage: Stage::Ready(EngineStep::LocatingEntry),
            notice: None,
            action: Action::LocateEntry("_start".to_string()),
        }
    );
}

#[test]
fn missing_entry_point_ends_the_run() {
    assert_eq!(
        engine_step(&request(), EngineStep::LocatingEntry, Event::Found(false)),
        failure(LaunchError::EntryPointMissing)
    );
}

#[test]
fn entry_point_is_invoked() {
    assert_eq!(
        engine_step(&request(), EngineStep::LocatingEntry, Event::Found(true)),
        Transition {
            stage: Stage::Ready(EngineStep::Invoking),
            notice: None,
            action: Action::Invoke("_start".to_string()),
        }
    );
}

#[test]
fn trap_is_reported_with_its_description() {
    assert_eq!(
        engine_step(
            &request(),
            EngineStep::Invoking,
            Event::Failed("wasm trap: unreachable".to_string())
        ),
        failure(LaunchError::ExecutionTrap("wasm trap: unreachable".to_string()))
    );
}

#[test]
fn returning_entry_point_completes_the_run() {
    assert_eq!(
        engine_step(&request(), EngineStep::Invoking, Event::Completed),
        Transition {
            stage: Stage::Finished(Outcome::Completed),
            notice: None,
            action: Action::Finish(Outcome::Completed),
        }
    );
}

#[test]
fn engine_rejects_events_that_answer_nothing() {
    let expected = |step: EngineStep, event: &Event| match (step, event) {
        (EngineStep::ConfirmingArtifact, Event::Found(_)) => true,
        (EngineStep::LocatingEntry, Event::Found(_)) => true,
        (EngineStep::LoadingModule, Event::Completed | Event::Failed(_)) => true,
        (EngineStep::Instantiating, Event::Completed | Event::Failed(_)) => true,
        (EngineStep::Invoking, Event::Completed | Event::Failed(_)) => true,
        _ => false,
    };
    let steps = [
        EngineStep::ConfirmingArtifact,
        EngineStep::LoadingModule,
        EngineStep::Instantiating,
        EngineStep::LocatingEntry,
        EngineStep::Invoking,
    ];
    for step in steps {
        for event in all_events() {
            let unexpected = !expected(step, &event);
            let transition = engine_step(&request(), step, event);
            assert_eq!(transition == failure(LaunchError::UnexpectedEvent), unexpected);
        }
    }
}

#[test]
fn engine_works_for_any_language() {
    let request = RunRequest {
        root: sdk_dir(Some("/h".to_string())).unwrap(),
        language: "cobol".to_string(),
        script: "x.cob".to_string(),
    };
    assert_eq!(
        engine_step(&request, EngineStep::ConfirmingArtifact, Event::Found(true)).action,
        Action::LoadModule(artifact_path(&request.root, "cobol"))
    );
}
