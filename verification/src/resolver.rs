//! Resolution and materialization of the on-disk root.
//!
//! The base root is chosen from an explicit argument, else the root
//! environment variable, else a default under the home directory; it is
//! normalized to end with exactly one path separator, and a child directory
//! path is appended. The caller materializes the two directories by probing
//! each path and obeying the [`ensure_directory`] decision.
//!
//! A small model of the filesystem — a map from paths to node kinds — backs
//! the proofs that materialization is idempotent and that a path occupied by
//! a non-directory is rejected.

use vstd::prelude::*;

use crate::error::PyVerError;
use crate::text::seq_ends_with;

verus! {

/// What a metadata probe found at a path.
#[derive(Clone, Copy, PartialEq, Eq, Structural, Debug)]
pub enum DirProbe {
    /// Nothing exists at the path.
    Missing,
    /// A directory exists at the path.
    Directory,
    /// Something other than a directory exists at the path.
    NotDirectory,
}

/// What the caller must do to make a directory exist at a probed path.
#[derive(Clone, Copy, PartialEq, Eq, Structural, Debug)]
pub enum DirAction {
    /// Create the directory (one level; ancestors are not created).
    CreateIt,
    /// The directory is already there; do nothing.
    AlreadyThere,
}

/// The two directories the resolver materializes, and the resulting path.
///
/// `root_dir` is the normalized base root; `child_dir`, the returned path, is
/// the child appended to it. Both must exist as directories before the
/// resolved path is used.
pub struct RootPlan {
    pub root_dir: String,
    pub child_dir: String,
}

/// `s` with every trailing path separator removed.
pub open spec fn strip_trailing_slashes(s: Seq<char>) -> Seq<char>
    decreases s.len(),
{
    if s.len() > 0 && s[s.len() - 1] == '/' {
        strip_trailing_slashes(s.drop_last())
    } else {
        s
    }
}

/// `s` normalized to end with exactly one path separator.
pub open spec fn normalized_root(s: Seq<char>) -> Seq<char> {
    strip_trailing_slashes(s) + seq!['/']
}

/// The base root chosen from the three configuration sources, in priority
/// order: explicit argument, root environment variable, default under home.
pub open spec fn spec_base_root(
    explicit: Option<Seq<char>>,
    env_root: Option<Seq<char>>,
    home: Option<Seq<char>>,
) -> Option<Seq<char>> {
    if explicit is Some {
        explicit
    } else if env_root is Some {
        env_root
    } else if home is Some {
        Some(home.unwrap() + "/.pyver"@)
    } else {
        None
    }
}

/// The resolved path for a child directory: the normalized base root with the
/// child name appended.
pub open spec fn spec_resolved_child(base: Seq<char>, child: Seq<char>) -> Seq<char> {
    normalized_root(base) + child
}

proof fn lemma_strip_trailing_slashes_prefix(s: Seq<char>, k: int)
    requires
        0 <= k <= s.len(),
        forall|j: int| k <= j < s.len() ==> s[j] == '/',
        k > 0 ==> s[k - 1] != '/',
    ensures
        strip_trailing_slashes(s) == s.subrange(0, k),
    decreases s.len(),
{
    if s.len() == k {
        assert(s.subrange(0, k) =~= s);
    } else {
        assert(s[s.len() - 1] == '/');
        lemma_strip_trailing_slashes_prefix(s.drop_last(), k);
        assert(s.drop_last().subrange(0, k) =~= s.subrange(0, k));
    }
}

/// The base root with exactly one trailing path separator.
pub fn normalize_root(root: &str) -> (r: String)
    ensures
        r@ == normalized_root(root@),
        seq_ends_with(r@, "/"@),
{
    proof {
        reveal_strlit("/");
    }
    let n: usize = root.unicode_len();
    let mut k: usize = n;
    while k > 0 && root.get_char(k - 1) == '/'
        invariant
            0 <= k <= n,
            n == root@.len(),
            forall|j: int| k <= j < n ==> root@[j] == '/',
        decreases k,
    {
        k = k - 1;
    }
    proof {
        lemma_strip_trailing_slashes_prefix(root@, k as int);
    }
    let stem: String = root.substring_char(0, k).to_owned();
    let r = stem.concat("/");
    proof {
        assert(seq_ends_with(r@, "/"@)) by {
            assert(r@.subrange(r@.len() - 1, r@.len() as int) =~= "/"@);
        }
    }
    r
}

/// The base root in priority order: explicit argument, else the root
/// environment variable, else `<home>/.pyver`; an environment-lookup error
/// when all three are absent.
pub fn resolve_base_root(
    explicit: Option<String>,
    env_root: Option<String>,
    home: Option<String>,
) -> (r: Result<String, PyVerError>)
    ensures
        match r {
            Ok(base) => spec_base_root(explicit.deep_view(), env_root.deep_view(), home.deep_view())
                == Some(base@),
            Err(e) => spec_base_root(explicit.deep_view(), env_root.deep_view(), home.deep_view())
                is None && e == PyVerError::EnvironmentLookupFailure,
        },
{
    match explicit {
        Some(root) => Ok(root),
        None => match env_root {
            Some(directory) => Ok(directory),
            None => match home {
                Some(h) => Ok(h.concat("/.pyver")),
                None => Err(PyVerError::EnvironmentLookupFailure),
            },
        },
    }
}

/// The resolver: chooses the base root, normalizes it, and plans the two
/// directories to materialize. Pure; calling it twice with identical
/// arguments yields identical plans.
pub fn get_relative_to_root(
    explicit: Option<String>,
    env_root: Option<String>,
    home: Option<String>,
    child: &str,
) -> (r: Result<RootPlan, PyVerError>)
    ensures
        match spec_base_root(explicit.deep_view(), env_root.deep_view(), home.deep_view()) {
            Some(base) => r matches Ok(plan) && plan.root_dir@ == normalized_root(base)
                && plan.child_dir@ == spec_resolved_child(base, child@),
            None => r == Err::<RootPlan, PyVerError>(PyVerError::EnvironmentLookupFailure),
        },
{
    let base = resolve_base_root(explicit, env_root, home)?;
    let root_dir = normalize_root(base.as_str());
    let child_dir = root_dir.clone().concat(child);
    Ok(RootPlan { root_dir, child_dir })
}

/// The decision of the materialization step at one path: create the missing
/// directory, accept an existing one, or reject a non-directory occupant.
pub fn ensure_directory(dirname: &str, probe: DirProbe) -> (r: Result<DirAction, PyVerError>)
    ensures
        match r {
            Ok(a) => {
                &&& probe is Missing ==> a is CreateIt
                &&& probe is Directory ==> a is AlreadyThere
                &&& !(probe is NotDirectory)
            },
            Err(e) => probe is NotDirectory && (e matches PyVerError::RootNotDirectory { path }
                && path@ == dirname@),
        },
{
    match probe {
        DirProbe::Missing => Ok(DirAction::CreateIt),
        DirProbe::Directory => Ok(DirAction::AlreadyThere),
        DirProbe::NotDirectory => Err(PyVerError::RootNotDirectory { path: dirname.to_owned() }),
    }
}

/// What occupies a path in the filesystem model.
pub enum FsNode {
    /// A directory.
    Directory,
    /// Anything else (a regular file, a link, ...).
    Other,
}

/// The filesystem, abstracted: each existing path maps to what occupies it.
pub type FsModel = Map<Seq<char>, FsNode>;

/// The probe the filesystem answers for a path.
pub open spec fn dir_probe_of(fs: FsModel, path: Seq<char>) -> DirProbe {
    if !fs.contains_key(path) {
        DirProbe::Missing
    } else if fs[path] is Directory {
        DirProbe::Directory
    } else {
        DirProbe::NotDirectory
    }
}

/// The materialization step succeeds at `path`: nothing is there yet, or a
/// directory already is.
pub open spec fn dir_ensurable(fs: FsModel, path: Seq<char>) -> bool {
    !fs.contains_key(path) || fs[path] is Directory
}

/// The filesystem after the materialization step at `path`.
pub open spec fn with_dir(fs: FsModel, path: Seq<char>) -> FsModel {
    fs.insert(path, FsNode::Directory)
}

/// The whole resolver run succeeds on `fs`: the normalized root `root_n` can
/// be materialized, and then the child path under it can.
pub open spec fn resolver_succeeds(fs: FsModel, root_n: Seq<char>, child: Seq<char>) -> bool {
    dir_ensurable(fs, root_n) && dir_ensurable(with_dir(fs, root_n), root_n + child)
}

/// The filesystem after a successful resolver run.
pub open spec fn resolver_fs(fs: FsModel, root_n: Seq<char>, child: Seq<char>) -> FsModel {
    with_dir(with_dir(fs, root_n), root_n + child)
}

/// The resolver is idempotent: once a run has succeeded, a second run with
/// identical arguments succeeds as well, changes nothing on disk, and — the
/// resolved path being a function of the arguments alone — returns the same
/// path.
pub proof fn lemma_resolver_idempotent(fs: FsModel, root_n: Seq<char>, child: Seq<char>)
    requires
        resolver_succeeds(fs, root_n, child),
    ensures
        resolver_succeeds(resolver_fs(fs, root_n, child), root_n, child),
        resolver_fs(resolver_fs(fs, root_n, child), root_n, child) == resolver_fs(
            fs,
            root_n,
            child,
        ),
{
    let fs1 = resolver_fs(fs, root_n, child);
    assert(resolver_fs(fs1, root_n, child) =~= fs1);
}

/// Once a path is materialized, probing it answers `Directory`, so a later
/// [`ensure_directory`] at the same path decides `AlreadyThere` and creates
/// nothing.
pub proof fn lemma_materialized_probe_is_directory(fs: FsModel, path: Seq<char>)
    ensures
        dir_probe_of(with_dir(fs, path), path) is Directory,
{
}

/// The resolver rejects a root whose path is occupied by a non-directory:
/// the probe answers `NotDirectory` — on which [`ensure_directory`] returns
/// the `RootNotDirectory` error — and no run on such a filesystem succeeds.
pub proof fn lemma_resolver_rejects_occupied_root(fs: FsModel, root_n: Seq<char>, child: Seq<char>)
    requires
        fs.contains_key(root_n),
        !(fs[root_n] is Directory),
    ensures
        dir_probe_of(fs, root_n) is NotDirectory,
        !resolver_succeeds(fs, root_n, child),
{
}

/// The resolver likewise rejects a child path occupied by a non-directory,
/// provided the child path is not the root path itself.
pub proof fn lemma_resolver_rejects_occupied_child(fs: FsModel, root_n: Seq<char>, child: Seq<char>)
    requires
        fs.contains_key(root_n + child),
        !(fs[root_n + child] is Directory),
        root_n + child != root_n,
    ensures
        dir_probe_of(with_dir(fs, root_n), root_n + child) is NotDirectory,
        !resolver_succeeds(fs, root_n, child),
{
}

} // verus!
