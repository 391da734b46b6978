//! First-match scans over a directory listing.
//!
//! Every lookup of the manager is a non-recursive scan of one directory for
//! the first entry satisfying a predicate: an archive by its extension, an
//! extracted tree by being a directory, an installed version by its name
//! prefix. The listing is handed in as plain values, in the enumeration
//! order the filesystem produced; no scan sorts or filters beyond its
//! predicate.

use vstd::prelude::*;

use crate::error::NotFoundKind;
use crate::error::PyVerError;
use crate::text::seq_ends_with;
use crate::text::seq_starts_with;
use crate::text::str_ends_with;
use crate::text::str_starts_with;

verus! {

/// One entry of a directory listing: its name and whether it is itself a
/// directory.
#[derive(Clone, Debug)]
pub struct DirEntry {
    pub name: String,
    pub is_dir: bool,
}

/// The abstract value of a [`DirEntry`].
pub struct EntryModel {
    pub name: Seq<char>,
    pub is_dir: bool,
}

impl View for DirEntry {
    type V = EntryModel;

    open spec fn view(&self) -> EntryModel {
        EntryModel { name: self.name@, is_dir: self.is_dir }
    }
}

impl DeepView for DirEntry {
    type V = EntryModel;

    open spec fn deep_view(&self) -> EntryModel {
        self.view()
    }
}

/// The name matches a cached source archive: it ends in `.tgz` or `.xz`.
pub open spec fn is_tarball_name(name: Seq<char>) -> bool {
    seq_ends_with(name, ".tgz"@) || seq_ends_with(name, ".xz"@)
}

/// The name of the first entry matching an archive, if any.
pub open spec fn spec_find_tarball(entries: Seq<EntryModel>) -> Option<Seq<char>>
    decreases entries.len(),
{
    if entries.len() == 0 {
        None
    } else if is_tarball_name(entries[0].name) {
        Some(entries[0].name)
    } else {
        spec_find_tarball(entries.drop_first())
    }
}

/// The name of the first entry that is itself a directory, if any.
pub open spec fn spec_find_unpacked(entries: Seq<EntryModel>) -> Option<Seq<char>>
    decreases entries.len(),
{
    if entries.len() == 0 {
        None
    } else if entries[0].is_dir {
        Some(entries[0].name)
    } else {
        spec_find_unpacked(entries.drop_first())
    }
}

/// The name of the first entry whose name begins with `version`, if any.
pub open spec fn spec_find_version(entries: Seq<EntryModel>, version: Seq<char>) -> Option<
    Seq<char>,
>
    decreases entries.len(),
{
    if entries.len() == 0 {
        None
    } else if seq_starts_with(entries[0].name, version) {
        Some(entries[0].name)
    } else {
        spec_find_version(entries.drop_first(), version)
    }
}

/// The names of the entries, in listing order.
pub open spec fn spec_names(entries: Seq<EntryModel>) -> Seq<Seq<char>> {
    entries.map_values(|e: EntryModel| e.name)
}

/// A first-match scan finds something exactly when some entry matches.
pub proof fn lemma_find_tarball_some(entries: Seq<EntryModel>)
    ensures
        spec_find_tarball(entries) is Some <==> exists|i: int|
            0 <= i < entries.len() && is_tarball_name(entries[i].name),
    decreases entries.len(),
{
    if entries.len() > 0 {
        lemma_find_tarball_some(entries.drop_first());
        if exists|i: int| 0 <= i < entries.len() && is_tarball_name(entries[i].name) {
            let i = choose|i: int| 0 <= i < entries.len() && is_tarball_name(entries[i].name);
            if i > 0 {
                assert(entries.drop_first()[i - 1] == entries[i]);
            }
        }
        if spec_find_tarball(entries) is Some && !is_tarball_name(entries[0].name) {
            let j = choose|j: int|
                0 <= j < entries.drop_first().len() && is_tarball_name(
                    entries.drop_first()[j].name,
                );
            assert(entries[j + 1] == entries.drop_first()[j]);
        }
    }
}

/// As [`lemma_find_tarball_some`], for the extracted-directory scan.
pub proof fn lemma_find_unpacked_some(entries: Seq<EntryModel>)
    ensures
        spec_find_unpacked(entries) is Some <==> exists|i: int|
            0 <= i < entries.len() && entries[i].is_dir,
    decreases entries.len(),
{
    if entries.len() > 0 {
        lemma_find_unpacked_some(entries.drop_first());
        if exists|i: int| 0 <= i < entries.len() && entries[i].is_dir {
            let i = choose|i: int| 0 <= i < entries.len() && entries[i].is_dir;
            if i > 0 {
                assert(entries.drop_first()[i - 1] == entries[i]);
            }
        }
        if spec_find_unpacked(entries) is Some && !entries[0].is_dir {
            let j = choose|j: int|
                0 <= j < entries.drop_first().len() && entries.drop_first()[j].is_dir;
            assert(entries[j + 1] == entries.drop_first()[j]);
        }
    }
}

proof fn lemma_find_tarball_skip(entries: Seq<EntryModel>, i: int)
    requires
        0 <= i <= entries.len(),
        forall|j: int| 0 <= j < i ==> !is_tarball_name(entries[j].name),
    ensures
        spec_find_tarball(entries) == spec_find_tarball(entries.skip(i)),
    decreases i,
{
    if i > 0 {
        lemma_find_tarball_skip(entries.drop_first(), i - 1);
        assert(entries.drop_first().skip(i - 1) =~= entries.skip(i));
    } else {
        assert(entries.skip(0) =~= entries);
    }
}

proof fn lemma_find_unpacked_skip(entries: Seq<EntryModel>, i: int)
    requires
        0 <= i <= entries.len(),
        forall|j: int| 0 <= j < i ==> !entries[j].is_dir,
    ensures
        spec_find_unpacked(entries) == spec_find_unpacked(entries.skip(i)),
    decreases i,
{
    if i > 0 {
        lemma_find_unpacked_skip(entries.drop_first(), i - 1);
        assert(entries.drop_first().skip(i - 1) =~= entries.skip(i));
    } else {
        assert(entries.skip(0) =~= entries);
    }
}

proof fn lemma_find_version_skip(entries: Seq<EntryModel>, version: Seq<char>, i: int)
    requires
        0 <= i <= entries.len(),
        forall|j: int| 0 <= j < i ==> !seq_starts_with(entries[j].name, version),
    ensures
        spec_find_version(entries, version) == spec_find_version(entries.skip(i), version),
    decreases i,
{
    if i > 0 {
        lemma_find_version_skip(entries.drop_first(), version, i - 1);
        assert(entries.drop_first().skip(i - 1) =~= entries.skip(i));
    } else {
        assert(entries.skip(0) =~= entries);
    }
}

/// The cached-archive lookup: the first entry of `dirname`'s listing whose
/// name ends in `.tgz` or `.xz`, as the path `dirname/<name>`; the
/// tarball-not-found error when no entry matches.
pub fn find_tarball(dirname: &str, entries: &Vec<DirEntry>) -> (r: Result<String, PyVerError>)
    ensures
        match r {
            Ok(path) => spec_find_tarball(entries.deep_view()) matches Some(name) && path@
                == dirname@ + "/"@ + name,
            Err(e) => spec_find_tarball(entries.deep_view()) is None && e == (PyVerError::NotFound {
                kind: NotFoundKind::Tarball,
            }),
        },
{
    let mut i: usize = 0;
    while i < entries.len()
        invariant
            0 <= i <= entries.deep_view().len(),
            entries.deep_view().len() == entries@.len(),
            forall|j: int| 0 <= j < i ==> !is_tarball_name(entries.deep_view()[j].name),
        decreases entries@.len() - i,
    {
        let name: &String = &entries[i].name;
        if str_ends_with(name.as_str(), ".tgz") || str_ends_with(name.as_str(), ".xz") {
            proof {
                lemma_find_tarball_skip(entries.deep_view(), i as int);
                assert(entries.deep_view().skip(i as int)[0] == entries.deep_view()[i as int]);
            }
            return Ok(dirname.to_owned().concat("/").concat(name.as_str()));
        }
        i += 1;
    }
    proof {
        lemma_find_tarball_skip(entries.deep_view(), i as int);
        assert(entries.deep_view().skip(i as int).len() == 0);
    }
    Err(PyVerError::NotFound { kind: NotFoundKind::Tarball })
}

/// The extracted-tree lookup: the first entry of `dirname`'s listing that is
/// itself a directory, as the path `dirname/<name>`; the unpacked-not-found
/// error when no entry is a directory.
pub fn find_unpacked(dirname: &str, entries: &Vec<DirEntry>) -> (r: Result<String, PyVerError>)
    ensures
        match r {
            Ok(path) => spec_find_unpacked(entries.deep_view()) matches Some(name) && path@
                == dirname@ + "/"@ + name,
            Err(e) => spec_find_unpacked(entries.deep_view()) is None && e
                == (PyVerError::NotFound { kind: NotFoundKind::Unpacked }),
        },
{
    let mut i: usize = 0;
    while i < entries.len()
        invariant
            0 <= i <= entries.deep_view().len(),
            entries.deep_view().len() == entries@.len(),
            forall|j: int| 0 <= j < i ==> !entries.deep_view()[j].is_dir,
        decreases entries@.len() - i,
    {
        if entries[i].is_dir {
            proof {
                lemma_find_unpacked_skip(entries.deep_view(), i as int);
                assert(entries.deep_view().skip(i as int)[0] == entries.deep_view()[i as int]);
            }
            return Ok(dirname.to_owned().concat("/").concat(entries[i].name.as_str()));
        }
        i += 1;
    }
    proof {
        lemma_find_unpacked_skip(entries.deep_view(), i as int);
        assert(entries.deep_view().skip(i as int).len() == 0);
    }
    Err(PyVerError::NotFound { kind: NotFoundKind::Unpacked })
}

/// The installed-version lookup: the first entry of the versions directory
/// whose name begins with `version`, rendered as the line
/// `<versions_dir>/<name>/bin/python3`; on a miss, the not-found error,
/// which this lookup labels `tarball`.
pub fn command_which(versions_dir: &str, version: &str, entries: &Vec<DirEntry>) -> (r: Result<
    String,
    PyVerError,
>)
    ensures
        match r {
            Ok(line) => spec_find_version(entries.deep_view(), version@) matches Some(name) && line@
                == versions_dir@ + "/"@ + name + "/bin/python3"@,
            Err(e) => spec_find_version(entries.deep_view(), version@) is None && e
                == (PyVerError::NotFound { kind: NotFoundKind::Tarball }),
        },
{
    let mut i: usize = 0;
    while i < entries.len()
        invariant
            0 <= i <= entries.deep_view().len(),
            entries.deep_view().len() == entries@.len(),
            forall|j: int| 0 <= j < i ==> !seq_starts_with(entries.deep_view()[j].name, version@),
        decreases entries@.len() - i,
    {
        let name: &String = &entries[i].name;
        if str_starts_with(name.as_str(), version) {
            proof {
                lemma_find_version_skip(entries.deep_view(), version@, i as int);
                assert(entries.deep_view().skip(i as int)[0] == entries.deep_view()[i as int]);
            }
            return Ok(
                versions_dir.to_owned().concat("/").concat(name.as_str()).concat("/bin/python3"),
            );
        }
        i += 1;
    }
    proof {
        lemma_find_version_skip(entries.deep_view(), version@, i as int);
        assert(entries.deep_view().skip(i as int).len() == 0);
    }
    Err(PyVerError::NotFound { kind: NotFoundKind::Tarball })
}

/// The lines the inventory commands print: each entry's name, one per line,
/// in listing order. An empty listing yields no lines.
pub fn print_contents(entries: &Vec<DirEntry>) -> (lines: Vec<String>)
    ensures
        lines.deep_view() == spec_names(entries.deep_view()),
{
    let mut lines: Vec<String> = Vec::new();
    let mut i: usize = 0;
    while i < entries.len()
        invariant
            0 <= i <= entries@.len(),
            lines@.len() == i,
            forall|j: int| 0 <= j < i ==> lines@[j]@ == entries.deep_view()[j].name,
        decreases entries@.len() - i,
    {
        lines.push(entries[i].name.clone());
        i += 1;
    }
    proof {
        assert(lines.deep_view() =~= spec_names(entries.deep_view()));
    }
    lines
}

/// The listing command over installed versions: one line per entry name.
pub fn command_list(entries: &Vec<DirEntry>) -> (lines: Vec<String>)
    ensures
        lines.deep_view() == spec_names(entries.deep_view()),
        entries@.len() == 0 ==> lines@.len() == 0,
{
    let lines = print_contents(entries);
    proof {
        assert(lines.deep_view().len() == lines@.len());
        assert(spec_names(entries.deep_view()).len() == entries@.len());
    }
    lines
}

/// The listing command over cached sources: one line per entry name.
pub fn command_cached(entries: &Vec<DirEntry>) -> (lines: Vec<String>)
    ensures
        lines.deep_view() == spec_names(entries.deep_view()),
        entries@.len() == 0 ==> lines@.len() == 0,
{
    let lines = print_contents(entries);
    proof {
        assert(lines.deep_view().len() == lines@.len());
        assert(spec_names(entries.deep_view()).len() == entries@.len());
    }
    lines
}

} // verus!
