//! The inventory: which runtimes are installed, which languages are
//! supported, and the report that shows both.

use crate::protocol::texts_of;
use crate::registry::{get_language_packages, registry, rows_of, LanguagePackage};
use vstd::prelude::*;
use vstd::string::*;

verus! {

/// What the caller found out about one entry of the root directory.
#[derive(Debug, Clone, PartialEq, Eq)]
pub struct DirectoryEntry {
    /// The entry's name, if it can be written as text.
    pub name: Option<String>,
    /// Whether the entry is a directory.
    pub is_directory: bool,
}

/// Mathematical model of a [`DirectoryEntry`].
pub struct DirectoryEntryView {
    pub name: Option<Seq<char>>,
    pub is_directory: bool,
}

impl View for DirectoryEntry {
    type V = DirectoryEntryView;

    open spec fn view(&self) -> DirectoryEntryView {
        DirectoryEntryView {
            name: match self.name {
                Some(name) => Some(name@),
                None => None,
            },
            is_directory: self.is_directory,
        }
    }
}

/// The entries of a directory as read; an entry that could not be read is
/// `None`.
pub open spec fn entries_of(entries: Seq<Option<DirectoryEntry>>) -> Seq<
    Option<DirectoryEntryView>,
> {
    Seq::new(
        entries.len(),
        |i: int|
            match entries[i] {
                Some(entry) => Some(entry@),
                None => None,
            },
    )
}

/// What reading the root directory gave: its entries, or `None` where it
/// could not be read.
pub open spec fn listing_of(listing: Option<Vec<Option<DirectoryEntry>>>) -> Option<
    Seq<Option<DirectoryEntryView>>,
> {
    match listing {
        Some(entries) => Some(entries_of(entries@)),
        None => None,
    }
}

/// The name under which an entry counts as an installed runtime: that of a
/// readable directory whose name is text.
pub open spec fn installed_name(entry: Option<DirectoryEntryView>) -> Option<Seq<char>> {
    match entry {
        Some(entry) => if entry.is_directory {
            entry.name
        } else {
            None
        },
        None => None,
    }
}

/// The installed runtimes among `entries`, in the order of the entries.
pub open spec fn installed_among(entries: Seq<Option<DirectoryEntryView>>) -> Seq<Seq<char>>
    decreases entries.len(),
{
    if entries.len() == 0 {
        Seq::empty()
    } else {
        let before = installed_among(entries.drop_last());
        match installed_name(entries.last()) {
            Some(name) => before.push(name),
            None => before,
        }
    }
}

/// The installed runtimes of a listing; none where the root could not be
/// read.
pub open spec fn installed_of(listing: Option<Seq<Option<DirectoryEntryView>>>) -> Seq<Seq<char>> {
    match listing {
        Some(entries) => installed_among(entries),
        None => Seq::empty(),
    }
}

/// The report's line for each installed runtime.
pub open spec fn installed_lines(names: Seq<Seq<char>>) -> Seq<Seq<char>> {
    Seq::new(names.len(), |i: int| "- "@ + names[i])
}

/// The report's line for each supported language.
pub open spec fn supported_lines(rows: Seq<(Seq<char>, Seq<char>)>) -> Seq<Seq<char>> {
    Seq::new(rows.len(), |i: int| "- "@ + rows[i].0 + " ("@ + rows[i].1 + ")"@)
}

/// The lines of the inventory report: the installed runtimes under their
/// heading, then the registry under its own.
pub open spec fn inventory_report(listing: Option<Seq<Option<DirectoryEntryView>>>) -> Seq<
    Seq<char>,
> {
    seq!["Installed SDKs:"@] + installed_lines(installed_of(listing))
        + seq!["\nSupported languages (via Wasmer):"@] + supported_lines(registry())
}

/// The names of the installed runtimes: the immediate subdirectories of the
/// root, in the order read. Entries that are no directories, that could not
/// be read or whose names are no text are left out, and a root that could
/// not be read has none. The registry is not consulted.
pub fn list_installed(listing: &Option<Vec<Option<DirectoryEntry>>>) -> (names: Vec<String>)
    ensures
        texts_of(names@) == installed_of(listing_of(*listing)),
        names@.len() == installed_of(listing_of(*listing)).len(),
{
    let mut names: Vec<String> = Vec::new();
    match listing {
        None => {
            assert(texts_of(names@) =~= Seq::<Seq<char>>::empty());
        },
        Some(entries) => {
            let ghost all = entries_of(entries@);
            let mut i: usize = 0;
            assert(all.subrange(0, 0) =~= Seq::<Option<DirectoryEntryView>>::empty());
            assert(texts_of(names@) =~= installed_among(all.subrange(0, 0)));
            while i < entries.len()
                invariant
                    i <= entries.len(),
                    all == entries_of(entries@),
                    texts_of(names@) == installed_among(all.subrange(0, i as int)),
                decreases entries.len() - i,
            {
                let ghost old_names = texts_of(names@);
                proof {
                    let upto = all.subrange(0, i + 1);
                    assert(upto.drop_last() =~= all.subrange(0, i as int));
                    assert(upto.last() == all[i as int]);
                }
                match &entries[i] {
                    Some(entry) => {
                        if entry.is_directory {
                            match &entry.name {
                                Some(name) => {
                                    names.push(name.clone());
                                    assert(texts_of(names@) =~= old_names.push(name@));
                                },
                                None => {},
                            }
                        }
                    },
                    None => {},
                }
                i = i + 1;
            }
            assert(all.subrange(0, i as int) =~= all);
        },
    }
    names
}

/// The supported languages with their packages: the rows of the registry, in
/// its own order.
pub fn list_supported() -> (table: Vec<LanguagePackage>)
    ensures
        rows_of(table@) == registry(),
        table@.len() == registry().len(),
{
    get_language_packages()
}

/// The inventory report, one element for each line to print: the heading
/// and the installed runtimes, then the heading and the rows of the registry.
pub fn sdk_list(listing: &Option<Vec<Option<DirectoryEntry>>>) -> (lines: Vec<String>)
    ensures
        texts_of(lines@) == inventory_report(listing_of(*listing)),
        lines@.len() == inventory_report(listing_of(*listing)).len(),
{
    let installed = list_installed(listing);
    let supported = list_supported();
    let ghost names = installed_of(listing_of(*listing));
    let ghost head = seq!["Installed SDKs:"@];
    let mut lines: Vec<String> = Vec::new();
    lines.push(String::from_str("Installed SDKs:"));
    assert(texts_of(lines@) =~= head + installed_lines(names).subrange(0, 0));
    let mut i: usize = 0;
    while i < installed.len()
        invariant
            i <= installed.len(),
            texts_of(installed@) == names,
            texts_of(lines@) == head + installed_lines(names).subrange(0, i as int),
        decreases installed.len() - i,
    {
        let ghost before = texts_of(lines@);
        let mut line = String::from_str("- ");
        line.append(installed[i].as_str());
        assert(texts_of(installed@)[i as int] == installed@[i as int]@);
        lines.push(line);
        assert(texts_of(lines@) =~= before.push(installed_lines(names)[i as int]));
        assert(installed_lines(names).subrange(0, i + 1) =~= installed_lines(names).subrange(
            0,
            i as int,
        ).push(installed_lines(names)[i as int]));
        i = i + 1;
    }
    assert(installed_lines(names).subrange(0, i as int) =~= installed_lines(names));
    let ghost middle = head + installed_lines(names) + seq![
        "\nSupported languages (via Wasmer):"@,
    ];
    let ghost rows = registry();
    lines.push(String::from_str("\nSupported languages (via Wasmer):"));
    assert(texts_of(lines@) =~= middle + supported_lines(rows).subrange(0, 0));
    let mut j: usize = 0;
    while j < supported.len()
        invariant
            j <= supported.len(),
            rows_of(supported@) == rows,
            texts_of(lines@) == middle + supported_lines(rows).subrange(0, j as int),
        decreases supported.len() - j,
    {
        let ghost before = texts_of(lines@);
        let mut line = String::from_str("- ");
        line.append(supported[j].language.as_str());
        line.append(" (");
        line.append(supported[j].package.as_str());
        line.append(")");
        assert(rows_of(supported@)[j as int] == supported@[j as int]@);
        lines.push(line);
        assert(texts_of(lines@) =~= before.push(supported_lines(rows)[j as int]));
        assert(supported_lines(rows).subrange(0, j + 1) =~= supported_lines(rows).subrange(
            0,
            j as int,
        ).push(supported_lines(rows)[j as int]));
        j = j + 1;
    }
    assert(supported_lines(rows).subrange(0, j as int) =~= supported_lines(rows));
    lines
}

/// The installed runtimes are exactly the names of the readable directories
/// among the entries: every such name is listed, and nothing else is. No
/// other knowledge enters, the registry's least of all.
pub proof fn installed_are_exactly_the_directories(entries: Seq<Option<DirectoryEntryView>>)
    ensures
        forall|name: Seq<char>|
            installed_among(entries).contains(name) <==> exists|i: int|
                0 <= i < entries.len() && installed_name(#[trigger] entries[i]) == Some(name),
    decreases entries.len(),
{
    let listed = installed_among(entries);
    if entries.len() == 0 {
        assert forall|name: Seq<char>| listed.contains(name) implies false by {}
    } else {
        let rest = entries.drop_last();
        let before = installed_among(rest);
        installed_are_exactly_the_directories(rest);
        assert forall|name: Seq<char>|
            listed.contains(name) <==> exists|i: int|
                0 <= i < entries.len() && installed_name(#[trigger] entries[i]) == Some(
                    name,
                ) by {
            if listed.contains(name) {
                let k = choose|k: int| 0 <= k < listed.len() && listed[k] == name;
                if k < before.len() {
                    assert(before[k] == name);
                    assert(before.contains(name));
                    let i = choose|i: int|
                        0 <= i < rest.len() && installed_name(#[trigger] rest[i]) == Some(name);
                    assert(entries[i] == rest[i]);
                } else {
                    assert(installed_name(entries[entries.len() - 1]) == Some(name));
                }
            }
            if exists|i: int|
                0 <= i < entries.len() && installed_name(#[trigger] entries[i]) == Some(name) {
                let i = choose|i: int|
                    0 <= i < entries.len() && installed_name(#[trigger] entries[i]) == Some(name);
                if i < rest.len() {
                    assert(rest[i] == entries[i]);
                    assert(before.contains(name));
                    let k = choose|k: int| 0 <= k < before.len() && before[k] == name;
                    assert(listed[k] == name);
                } else {
                    assert(listed[listed.len() - 1] == name);
                }
            }
        }
    }
}

} // verus!
