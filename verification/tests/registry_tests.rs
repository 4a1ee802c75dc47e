use rchidrun::inventory::list_supported;
use rchidrun::registry::{
    get_language_packages, get_wasmer_package, is_supported_language,
};

#[test]
fn registry_languages_are_supported() {
    for language in ["python", "javascript", "ruby"] {
        assert!(is_supported_language(language));
        assert!(get_wasmer_package(language).is_some());
    }
}

#[test]
fn registry_packages_are_exact() {
    assert_eq!(get_wasmer_package("python"), Some("wasmer/python".to_string()));
    assert_eq!(get_wasmer_package("javascript"), Some("wasmer/quickjs".to_string()));
    assert_eq!(get_wasmer_package("ruby"), Some("wasmer/ruby".to_string()));
}

#[test]
fn other_languages_are_absent() {
    for language in ["cobol", "", "Python", "python ", "PYTHON", "py", "wasmer/python"] {
        assert!(!is_supported_language(language));
        assert_eq!(get_wasmer_package(language), None);
    }
}

#[test]
fn table_lists_every_language_once() {
    let table = get_language_packages();
    assert_eq!(table.len(), 3);
    let rows: Vec<(&str, &str)> =
        table.iter().map(|row| (row.language.as_str(), row.package.as_str())).collect();
    assert_eq!(
        rows,
        vec![
            ("python", "wasmer/python"),
            ("javascript", "wasmer/quickjs"),
            ("ruby", "wasmer/ruby"),
        ]
    );
    assert_eq!(list_supported(), table);
}
