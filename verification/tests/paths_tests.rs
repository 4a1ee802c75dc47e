use rchidrun::outcome::LaunchError;
use rchidrun::paths::{artifact_path, language_dir, sdk_dir, SdkPath, ARTIFACT_FILE, PLUGINS_DIR};
use rchidrun::protocol::RunRequest;

fn root() -> SdkPath {
    sdk_dir(Some("/home/ada".to_string())).unwrap()
}

fn parts(path: &SdkPath) -> Vec<&str> {
    path.components.iter().map(|part| part.as_str()).collect()
}

#[test]
fn layout_constants() {
    assert_eq!(PLUGINS_DIR, ".rchidrun/plugins");
    assert_eq!(ARTIFACT_FILE, "runtime.wasm");
}

#[test]
fn sdk_dir_is_under_home() {
    assert_eq!(parts(&root()), vec!["/home/ada", ".rchidrun/plugins"]);
}

#[test]
fn sdk_dir_without_home_is_a_configuration_error() {
    assert_eq!(sdk_dir(None), Err(LaunchError::ConfigurationError));
}

#[test]
fn sdk_dir_takes_home_as_given() {
    assert_eq!(parts(&sdk_dir(Some(String::new())).unwrap()), vec!["", ".rchidrun/plugins"]);
    assert_eq!(
        parts(&sdk_dir(Some("/home/ada/".to_string())).unwrap()),
        vec!["/home/ada/", ".rchidrun/plugins"]
    );
}

#[test]
fn language_dir_is_under_root() {
    assert_eq!(
        parts(&language_dir(&root(), "python")),
        vec!["/home/ada", ".rchidrun/plugins", "python"]
    );
}

#[test]
fn artifact_path_is_root_language_file() {
    assert_eq!(
        parts(&artifact_path(&root(), "python")),
        vec!["/home/ada", ".rchidrun/plugins", "python", "runtime.wasm"]
    );
}

#[test]
fn artifact_path_is_deterministic() {
    let first = artifact_path(&root(), "ruby");
    let second = artifact_path(&root(), "ruby");
    assert_eq!(first, second);
}

#[test]
fn artifact_path_does_not_normalise_names() {
    let lower = artifact_path(&root(), "python");
    let upper = artifact_path(&root(), "Python");
    let spaced = artifact_path(&root(), " python");
    assert_ne!(lower, upper);
    assert_ne!(lower, spaced);
    assert_eq!(parts(&upper)[2], "Python");
    assert_eq!(parts(&spaced)[2], " python");
}

#[test]
fn artifact_path_accepts_any_language() {
    assert_eq!(
        parts(&artifact_path(&root(), "")),
        vec!["/home/ada", ".rchidrun/plugins", "", "runtime.wasm"]
    );
    assert_eq!(parts(&artifact_path(&root(), "cobol"))[2], "cobol");
}

#[test]
fn artifact_lies_in_language_dir() {
    let dir = language_dir(&root(), "javascript");
    let artifact = artifact_path(&root(), "javascript");
    assert_eq!(artifact, dir.join(ARTIFACT_FILE));
    assert_eq!(artifact.components.len(), dir.components.len() + 1);
}

#[test]
fn join_and_duplicate_keep_the_path() {
    let base = root();
    let copy = base.duplicate();
    assert_eq!(copy, base);
    let longer = base.join("x");
    assert_eq!(parts(&longer), vec!["/home/ada", ".rchidrun/plugins", "x"]);
    assert_eq!(parts(&base), vec!["/home/ada", ".rchidrun/plugins"]);
}

#[test]
fn request_needs_a_home() {
    let missing = RunRequest::for_home(None, "python".to_string(), "a.py".to_string());
    assert_eq!(missing, Err(LaunchError::ConfigurationError));
    let request = RunRequest::for_home(
        Some("/home/ada".to_string()),
        "python".to_string(),
        "a.py".to_string(),
    )
    .unwrap();
    assert_eq!(request.root, root());
    assert_eq!(request.language, "python");
    assert_eq!(request.script, "a.py");
}
