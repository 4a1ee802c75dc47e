use rchidrun::inventory::{list_installed, sdk_list, DirectoryEntry};

fn directory(name: &str) -> Option<DirectoryEntry> {
    Some(DirectoryEntry { name: Some(name.to_string()), is_directory: true })
}

fn file(name: &str) -> Option<DirectoryEntry> {
    Some(DirectoryEntry { name: Some(name.to_string()), is_directory: false })
}

fn registry_lines() -> Vec<String> {
    vec![
        "\nSupported languages (via Wasmer):".to_string(),
        "- python (wasmer/python)".to_string(),
        "- javascript (wasmer/quickjs)".to_string(),
        "- ruby (wasmer/ruby)".to_string(),
    ]
}

#[test]
fn empty_root_has_no_runtimes() {
    assert_eq!(list_installed(&Some(Vec::new())), Vec::<String>::new());
}

#[test]
fn unreadable_root_has_no_runtimes() {
    assert_eq!(list_installed(&None), Vec::<String>::new());
}

#[test]
fn subdirectories_are_listed_in_order() {
    let listing = Some(vec![directory("ruby"), directory("python"), directory("cobol")]);
    assert_eq!(list_installed(&listing), vec!["ruby", "python", "cobol"]);
}

#[test]
fn listing_ignores_the_registry() {
    let listing = Some(vec![directory("cobol"), directory("Python"), directory("")]);
    assert_eq!(list_installed(&listing), vec!["cobol", "Python", ""]);
}

#[test]
fn entries_that_are_no_directories_are_ignored() {
    let listing = Some(vec![file("notes.txt"), directory("python"), file("runtime.wasm")]);
    assert_eq!(list_installed(&listing), vec!["python"]);
}

#[test]
fn unreadable_and_unnamed_entries_are_ignored() {
    let listing = Some(vec![
        None,
        Some(DirectoryEntry { name: None, is_directory: true }),
        directory("ruby"),
        Some(DirectoryEntry { name: None, is_directory: false }),
        None,
    ]);
    assert_eq!(list_installed(&listing), vec!["ruby"]);
}

#[test]
fn scenario_sdk_list_on_empty_root() {
    let mut expected = vec!["Installed SDKs:".to_string()];
    expected.extend(registry_lines());
    assert_eq!(sdk_list(&Some(Vec::new())), expected);
}

#[test]
fn sdk_list_on_unreadable_root() {
    let mut expected = vec!["Installed SDKs:".to_string()];
    expected.extend(registry_lines());
    assert_eq!(sdk_list(&None), expected);
}

#[test]
fn sdk_list_shows_installed_then_supported() {
    let listing = Some(vec![directory("python"), file("log"), directory("cobol")]);
    let mut expected = vec![
        "Installed SDKs:".to_string(),
        "- python".to_string(),
        "- cobol".to_string(),
    ];
    expected.extend(registry_lines());
    assert_eq!(sdk_list(&listing), expected);
}
