//! The fixed table of supported languages and the package that provides the
//! runtime of each.

use vstd::prelude::*;
use vstd::string::*;

verus! {

/// One row of the registry.
#[derive(Debug, Clone, PartialEq, Eq)]
pub struct LanguagePackage {
    pub language: String,
    pub package: String,
}

impl View for LanguagePackage {
    type V = (Seq<char>, Seq<char>);

    open spec fn view(&self) -> (Seq<char>, Seq<char>) {
        (self.language@, self.package@)
    }
}

/// The rows of a table, each as a pair of language and package.
pub open spec fn rows_of(table: Seq<LanguagePackage>) -> Seq<(Seq<char>, Seq<char>)> {
    Seq::new(table.len(), |i: int| table[i]@)
}

/// The package that provides the runtime of `language`, for the languages
/// that are supported. Names are compared exactly.
pub open spec fn package_of(language: Seq<char>) -> Option<Seq<char>> {
    if language == "python"@ {
        Some("wasmer/python"@)
    } else if language == "javascript"@ {
        Some("wasmer/quickjs"@)
    } else if language == "ruby"@ {
        Some("wasmer/ruby"@)
    } else {
        None
    }
}

/// Whether a package is registered for `language`.
pub open spec fn supported(language: Seq<char>) -> bool {
    package_of(language) is Some
}

/// The registry as a table: each supported language with its package, in
/// listing order.
pub open spec fn registry() -> Seq<(Seq<char>, Seq<char>)> {
    seq![
        ("python"@, "wasmer/python"@),
        ("javascript"@, "wasmer/quickjs"@),
        ("ruby"@, "wasmer/ruby"@),
    ]
}

/// Whether a row of the registry is about `language`.
pub open spec fn in_registry(language: Seq<char>) -> bool {
    exists|i: int| 0 <= i < registry().len() && (#[trigger] registry()[i]).0 == language
}

/// Whether two texts hold the same characters.
pub fn same_text(a: &str, b: &str) -> (same: bool)
    ensures
        same == (a@ == b@),
{
    let left = String::from_str(a);
    let right = String::from_str(b);
    left == right
}

/// The registry as a table, in listing order.
pub fn get_language_packages() -> (table: Vec<LanguagePackage>)
    ensures
        rows_of(table@) == registry(),
        table@.len() == registry().len(),
{
    let mut table: Vec<LanguagePackage> = Vec::new();
    table.push(
        LanguagePackage {
            language: String::from_str("python"),
            package: String::from_str("wasmer/python"),
        },
    );
    table.push(
        LanguagePackage {
            language: String::from_str("javascript"),
            package: String::from_str("wasmer/quickjs"),
        },
    );
    table.push(
        LanguagePackage {
            language: String::from_str("ruby"),
            package: String::from_str("wasmer/ruby"),
        },
    );
    assert(rows_of(table@) =~= registry());
    table
}

/// The package that provides the runtime of `language`: present exactly for
/// the languages of the registry.
pub fn get_wasmer_package(language: &str) -> (package: Option<String>)
    ensures
        match package {
            Some(package) => package_of(language@) == Some(package@),
            None => package_of(language@) is None,
        },
{
    let table = get_language_packages();
    let mut i: usize = 0;
    while i < table.len()
        invariant
            i <= table.len(),
            rows_of(table@) == registry(),
            forall|j: int| 0 <= j < i ==> (#[trigger] registry()[j]).0 != language@,
        decreases table.len() - i,
    {
        assert(rows_of(table@)[i as int] == table@[i as int]@);
        if same_text(table[i].language.as_str(), language) {
            proof {
                registry_lists_the_packages(language@, table@[i as int].package@);
            }
            return Some(table[i].package.clone());
        }
        i = i + 1;
    }
    proof {
        assert(registry()[0].0 != language@);
        assert(registry()[1].0 != language@);
        assert(registry()[2].0 != language@);
    }
    None
}

/// Whether `language` is one of the registry's languages.
pub fn is_supported_language(language: &str) -> (known: bool)
    ensures
        known == supported(language@),
{
    get_wasmer_package(language).is_some()
}

/// The table and the lookup agree: a row of the registry pairs a language
/// with a package exactly when that package is the one registered for the
/// language.
pub proof fn registry_lists_the_packages(language: Seq<char>, package: Seq<char>)
    ensures
        package_of(language) == Some(package) <==> exists|i: int|
            0 <= i < registry().len() && #[trigger] registry()[i] == (language, package),
{
    registry_languages_are_distinct();
    let rows = registry();
    if package_of(language) == Some(package) {
        if language == "python"@ {
            assert(rows[0] == (language, package));
        } else if language == "javascript"@ {
            assert(rows[1] == (language, package));
        } else {
            assert(rows[2] == (language, package));
        }
    }
    if exists|i: int| 0 <= i < rows.len() && #[trigger] rows[i] == (language, package) {
        let i = choose|i: int| 0 <= i < rows.len() && #[trigger] rows[i] == (language, package);
        assert(rows[0].0 != rows[1].0);
        assert(rows[0].0 != rows[2].0);
        assert(rows[1].0 != rows[2].0);
        if i == 0 {
        } else if i == 1 {
        } else {
        }
    }
}

/// For every language present in the registry, support is reported and a
/// package is defined; for every other language both are absent.
pub proof fn support_follows_the_registry(language: Seq<char>)
    ensures
        in_registry(language) <==> supported(language),
        in_registry(language) <==> package_of(language) is Some,
{
    let rows = registry();
    if supported(language) {
        let package = package_of(language)->0;
        registry_lists_the_packages(language, package);
        let i = choose|i: int| 0 <= i < rows.len() && #[trigger] rows[i] == (language, package);
        assert(rows[i].0 == language);
    }
    if in_registry(language) {
        let i = choose|i: int| 0 <= i < rows.len() && (#[trigger] rows[i]).0 == language;
        if i == 0 {
        } else if i == 1 {
        } else {
        }
    }
}

/// No language occurs in two rows of the registry: the table is a mapping.
pub proof fn registry_languages_are_distinct()
    ensures
        forall|i: int, j: int|
            0 <= i < j < registry().len() ==> (#[trigger] registry()[i]).0 != (
            #[trigger] registry()[j]).0,
{
    reveal_strlit("python");
    reveal_strlit("javascript");
    reveal_strlit("ruby");
    assert("python"@.len() == 6);
    assert("javascript"@.len() == 10);
    assert("ruby"@.len() == 4);
}

} // verus!
