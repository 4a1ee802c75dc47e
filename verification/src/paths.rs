//! Where runtimes live on disk: the per-user root and one artifact per
//! language beneath it.
//!
//! A path is kept as the sequence of components it is built from. Nothing
//! here touches the filesystem.

use crate::outcome::{LaunchError, LaunchErrorView};
use vstd::prelude::*;
use vstd::string::*;

verus! {

/// Directory under the home directory that holds every installed runtime.
pub const PLUGINS_DIR: &'static str = ".rchidrun/plugins";

/// File name of a language's runtime artifact inside its directory.
pub const ARTIFACT_FILE: &'static str = "runtime.wasm";

/// A filesystem location, as the components that are joined to form it, the
/// first being the starting point.
#[derive(Debug, Clone, PartialEq, Eq)]
pub struct SdkPath {
    pub components: Vec<String>,
}

impl View for SdkPath {
    type V = Seq<Seq<char>>;

    open spec fn view(&self) -> Seq<Seq<char>> {
        Seq::new(self.components@.len(), |i: int| self.components@[i]@)
    }
}

/// The root directory for a given home directory.
pub open spec fn sdk_root_of(home: Seq<char>) -> Seq<Seq<char>> {
    seq![home, PLUGINS_DIR@]
}

/// The directory of a language's runtime under `root`.
pub open spec fn language_dir_of(root: Seq<Seq<char>>, language: Seq<char>) -> Seq<Seq<char>> {
    root.push(language)
}

/// The location of a language's runtime artifact under `root`.
pub open spec fn artifact_path_of(root: Seq<Seq<char>>, language: Seq<char>) -> Seq<Seq<char>> {
    language_dir_of(root, language).push(ARTIFACT_FILE@)
}

impl SdkPath {
    /// A copy of this path.
    pub fn duplicate(&self) -> (copy: SdkPath)
        ensures
            copy@ == self@,
    {
        let mut components: Vec<String> = Vec::new();
        let mut i: usize = 0;
        while i < self.components.len()
            invariant
                i <= self.components.len(),
                components.len() == i,
                forall|j: int| 0 <= j < i ==> components@[j]@ == self.components@[j]@,
            decreases self.components.len() - i,
        {
            components.push(self.components[i].clone());
            i = i + 1;
        }
        let copy = SdkPath { components };
        assert(copy@ =~= self@);
        copy
    }

    /// This path extended by one component.
    pub fn join(&self, component: &str) -> (path: SdkPath)
        ensures
            path@ == self@.push(component@),
    {
        let mut path = self.duplicate();
        path.components.push(String::from_str(component));
        assert(path@ =~= self@.push(component@));
        path
    }
}

/// The root directory under which all runtimes are stored, derived from the
/// user's home directory. Fails with `ConfigurationError` exactly when no
/// home directory is known.
pub fn sdk_dir(home: Option<String>) -> (root: Result<SdkPath, LaunchError>)
    ensures
        home is None ==> root is Err && root->Err_0@ == LaunchErrorView::ConfigurationError,
        home is Some ==> root is Ok && root->Ok_0@ == sdk_root_of(home->0@),
{
    match home {
        None => Err(LaunchError::ConfigurationError),
        Some(home) => {
            let ghost home_text = home@;
            let mut components: Vec<String> = Vec::new();
            components.push(home);
            components.push(String::from_str(PLUGINS_DIR));
            let root = SdkPath { components };
            assert(root@ =~= sdk_root_of(home_text));
            Ok(root)
        },
    }
}

/// The directory that holds the runtime of `language`.
pub fn language_dir(root: &SdkPath, language: &str) -> (dir: SdkPath)
    ensures
        dir@ == language_dir_of(root@, language@),
{
    root.join(language)
}

/// The location of the runtime artifact of `language`. Whether anything
/// exists there is for the caller to find out.
pub fn artifact_path(root: &SdkPath, language: &str) -> (path: SdkPath)
    ensures
        path@ == artifact_path_of(root@, language@),
{
    root.join(language).join(ARTIFACT_FILE)
}

/// The artifact path depends on the root and the language alone: resolving
/// the same pair twice gives the same path.
pub proof fn artifact_path_is_deterministic(
    root_a: Seq<Seq<char>>,
    language_a: Seq<char>,
    root_b: Seq<Seq<char>>,
    language_b: Seq<char>,
)
    requires
        root_a == root_b,
        language_a == language_b,
    ensures
        artifact_path_of(root_a, language_a) == artifact_path_of(root_b, language_b),
{
}

/// Under one root, two languages share an artifact path only if they are the
/// same language: names are compared exactly, with no normalisation.
pub proof fn artifact_path_identifies_language(
    root: Seq<Seq<char>>,
    language_a: Seq<char>,
    language_b: Seq<char>,
)
    requires
        artifact_path_of(root, language_a) == artifact_path_of(root, language_b),
    ensures
        language_a == language_b,
{
    let a = artifact_path_of(root, language_a);
    let b = artifact_path_of(root, language_b);
    assert(a[root.len() as int] == language_a);
    assert(b[root.len() as int] == language_b);
}

/// An artifact lies directly inside its language's directory, which lies
/// directly inside the root.
pub proof fn artifact_path_layout(root: Seq<Seq<char>>, language: Seq<char>)
    ensures
        artifact_path_of(root, language).len() == root.len() + 2,
        artifact_path_of(root, language).subrange(0, root.len() as int) == root,
        artifact_path_of(root, language).drop_last() == language_dir_of(root, language),
        artifact_path_of(root, language).last() == ARTIFACT_FILE@,
{
    let path = artifact_path_of(root, language);
    assert(path.subrange(0, root.len() as int) =~= root);
    assert(path.drop_last() =~= language_dir_of(root, language));
}

} // verus!
