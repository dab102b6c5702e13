//! The repositories that are tracked and the packages found in them.
//!
//! Walking a directory tree is left to the caller, who reports what the walk
//! found; which of the entries are packages, and where a package keeps its
//! two documents, is decided here. Paths are held as text.

use crate::text::{begins_with, starts_with};
use std::time::Instant;
use vstd::prelude::*;
use vstd::string::{StrSliceExecFns, StringExecFns};

verus! {

/// A measurement of the monotonic clock.
#[verifier::external_type_specification]
#[verifier::external_body]
pub struct ExInstant(std::time::Instant);

/// `Clone::clone` of `std::time::Instant`, a `Copy` type: the clone is the
/// moment itself.
pub assume_specification[ <Instant as Clone>::clone ](moment: &Instant) -> (r: Instant)
    ensures
        r == *moment,
;

/// Calls `std::time::Instant::now`. Nothing is known of the moment that comes
/// back.
#[verifier::external_body]
fn now() -> Instant {
    Instant::now()
}

/// `name` appended to the path `base`: an absolute `name` stands for itself;
/// otherwise the two are put together with one separator between them, unless
/// `base` is empty or brings its own.
pub open spec fn joined(base: Seq<char>, name: Seq<char>) -> Seq<char> {
    if begins_with(name, "/"@) {
        name
    } else if base.len() == 0 || base.last() == '/' {
        base + name
    } else {
        base + "/"@ + name
    }
}

/// The path `base` with `name` appended.
pub fn join_path(base: &str, name: &str) -> (r: String)
    ensures
        r@ == joined(base@, name@),
{
    if starts_with(name, "/") {
        return String::from_str(name);
    }
    let n = base.unicode_len();
    if n == 0 || base.get_char(n - 1) == '/' {
        String::from_str(base).concat(name)
    } else {
        String::from_str(base).concat("/").concat(name)
    }
}

/// How far below the root of a local repository a package lies at least.
pub const PACKAGE_MIN_DEPTH: usize = 1;

/// How far below the root of a local repository a package lies at most.
pub const PACKAGE_MAX_DEPTH: usize = 2;

/// Where the local repository lies below a home directory.
pub open spec fn local_repository(home: Seq<char>) -> Seq<char> {
    joined(home, "repos/aerynos/recipes"@)
}

/// The kind of a repository and the path at which it lies.
#[derive(Debug, Clone, PartialEq, Eq)]
pub enum Repo {
    Local(String),
    Volatile(String),
}

/// The mathematical form of a [`Repo`].
pub enum RepoModel {
    Local(Seq<char>),
    Volatile(Seq<char>),
}

impl View for Repo {
    type V = RepoModel;

    open spec fn view(&self) -> RepoModel {
        match self {
            Repo::Local(path) => RepoModel::Local(path@),
            Repo::Volatile(path) => RepoModel::Volatile(path@),
        }
    }
}

/// A package: the directory it lies in, the paths of its manifest and of its
/// monitoring descriptor, and whether it has been handled in this run.
#[derive(Debug, Clone, PartialEq, Eq)]
pub struct Package {
    pub path: String,
    pub manifest: String,
    pub monitoring: String,
    pub updated: bool,
}

/// The mathematical form of a [`Package`].
pub struct PackageModel {
    pub path: Seq<char>,
    pub manifest: Seq<char>,
    pub monitoring: Seq<char>,
    pub updated: bool,
}

impl View for Package {
    type V = PackageModel;

    open spec fn view(&self) -> PackageModel {
        PackageModel {
            path: self.path@,
            manifest: self.manifest@,
            monitoring: self.monitoring@,
            updated: self.updated,
        }
    }
}

/// The package that lies in the directory `path`, not yet handled: its
/// manifest is `stone.yaml` and its monitoring descriptor `monitoring.yaml`,
/// both in that directory.
pub open spec fn package_at(path: Seq<char>) -> PackageModel {
    PackageModel {
        path,
        manifest: joined(path, "stone.yaml"@),
        monitoring: joined(path, "monitoring.yaml"@),
        updated: false,
    }
}

impl Package {
    /// The package that lies in the directory `path`.
    pub fn at(path: String) -> (r: Package)
        ensures
            r@ == package_at(path@),
    {
        let manifest = join_path(path.as_str(), "stone.yaml");
        let monitoring = join_path(path.as_str(), "monitoring.yaml");
        Package { path, manifest, monitoring, updated: false }
    }
}

/// What a walk through a directory tree reports of one entry.
#[derive(Debug, Clone, PartialEq, Eq)]
pub struct FoundEntry {
    /// The full path of the entry.
    pub path: String,
    /// The last component of the path.
    pub file_name: String,
    /// How far below the root of the walk the entry lies; the root itself is
    /// at depth 0.
    pub depth: usize,
    pub is_dir: bool,
    /// Whether the entry holds a manifest: the file that [`package_at`] names
    /// for the path of the entry is there.
    pub has_manifest: bool,
    /// Whether the entry holds a monitoring descriptor, in the same sense.
    pub has_monitoring: bool,
}

impl FoundEntry {
    /// The entry is a package: a directory that holds both documents. A
    /// directory that lacks either of them is none, nor is a plain file.
    pub open spec fn holds_package(&self) -> bool {
        self.is_dir && self.has_manifest && self.has_monitoring
    }

    /// The entry is a package of a local repository: a package one or two
    /// levels below the root.
    pub open spec fn is_package_directory(&self) -> bool {
        PACKAGE_MIN_DEPTH <= self.depth <= PACKAGE_MAX_DEPTH && self.holds_package()
    }

    /// Whether the entry is a package, as [`FoundEntry::holds_package`] says.
    pub fn is_package(&self) -> (r: bool)
        ensures
            r == self.holds_package(),
    {
        self.is_dir && self.has_manifest && self.has_monitoring
    }
}

/// The packages among the entries found below a local repository, in the
/// order in which they were found.
pub open spec fn local_packages(found: Seq<FoundEntry>) -> Seq<PackageModel>
    decreases found.len(),
{
    if found.len() == 0 {
        Seq::empty()
    } else if found.last().is_package_directory() {
        local_packages(found.drop_last()).push(package_at(found.last().path@))
    } else {
        local_packages(found.drop_last())
    }
}

/// The path under which an entry of a repository of the given kind is
/// tracked: the full path in a local repository, the bare name in a volatile
/// one.
pub open spec fn tracked_path(repo_type: RepoModel, entry: FoundEntry) -> Seq<char> {
    match repo_type {
        RepoModel::Local(_) => entry.path@,
        RepoModel::Volatile(_) => entry.file_name@,
    }
}

/// The packages among the entries found in a repository of the given kind,
/// in the order in which they were found, each under its tracked path.
pub open spec fn tracked_packages(repo_type: RepoModel, found: Seq<FoundEntry>) -> Seq<
    PackageModel,
>
    decreases found.len(),
{
    if found.len() == 0 {
        Seq::empty()
    } else if found.last().holds_package() {
        tracked_packages(repo_type, found.drop_last()).push(
            package_at(tracked_path(repo_type, found.last())),
        )
    } else {
        tracked_packages(repo_type, found.drop_last())
    }
}

/// Every tracked package comes from an entry that is a directory and holds
/// both documents: an entry that lacks either of them is not tracked.
pub proof fn lemma_tracked_hold_both_documents(
    repo_type: RepoModel,
    found: Seq<FoundEntry>,
    place: int,
)
    requires
        0 <= place < tracked_packages(repo_type, found).len(),
    ensures
        exists|from: int|
            0 <= from < found.len() && (#[trigger] found[from]).holds_package()
                && tracked_packages(repo_type, found)[place] == package_at(
                tracked_path(repo_type, found[from]),
            ),
    decreases found.len(),
{
    let before = found.drop_last();
    if found.last().holds_package() && place == tracked_packages(repo_type, before).len() {
        assert(found[found.len() - 1].holds_package());
    } else {
        lemma_tracked_hold_both_documents(repo_type, before, place);
        let from = choose|from: int|
            0 <= from < before.len() && (#[trigger] before[from]).holds_package()
                && tracked_packages(repo_type, before)[place] == package_at(
                tracked_path(repo_type, before[from]),
            );
        assert(found[from] == before[from]);
    }
}

/// Every package is as [`package_at`] gives it for its path: its documents
/// lie in its directory and it has not been handled.
pub open spec fn all_in_place(packages: Seq<Package>) -> bool {
    forall|i: int|
        0 <= i < packages.len() ==> (#[trigger] packages[i])@ == package_at(packages[i].path@)
}

/// The packages of a repository.
pub open spec fn package_models(packages: Seq<Package>) -> Seq<PackageModel> {
    packages.map_values(|p: Package| p@)
}

/// The state of a tracked repository: which repository it is, the packages
/// found in it, and when it was last looked at.
#[derive(Debug, Clone)]
pub struct RepoState {
    pub repo_type: Repo,
    pub packages: Vec<Package>,
    pub last_update: Instant,
}

impl RepoState {
    /// The state of the repository `repo_type`, given what a walk from its
    /// path found: the packages among the entries are tracked, which are the
    /// directories that hold both a manifest and a monitoring descriptor.
    pub fn new(repo_type: Repo, found: Vec<FoundEntry>) -> (r: RepoState)
        ensures
            r.repo_type == repo_type,
            package_models(r.packages@) == tracked_packages(repo_type@, found@),
            all_in_place(r.packages@),
    {
        let ghost all = found@;
        let ghost kind = repo_type@;
        let local = match &repo_type {
            Repo::Local(_) => true,
            Repo::Volatile(_) => false,
        };
        let mut packages: Vec<Package> = Vec::new();
        proof {
            assert(all.take(0) =~= Seq::empty());
            assert(package_models(packages@) =~= Seq::empty());
        }
        for entry in it: found.into_iter()
            invariant
                it.seq() == all,
                local == (kind is Local),
                package_models(packages@) == tracked_packages(kind, all.take(it.index() as int)),
                all_in_place(packages@),
        {
            proof {
                let upto = all.take(it.index() + 1);
                assert(upto.drop_last() =~= all.take(it.index() as int));
                assert(upto.last() == all[it.index() as int]);
            }
            if entry.is_package() {
                let ghost before = packages@;
                let path = if local {
                    entry.path
                } else {
                    entry.file_name
                };
                packages.push(Package::at(path));
                proof {
                    assert(package_models(packages@) =~= package_models(before).push(
                        package_at(tracked_path(kind, all[it.index() as int])),
                    ));
                }
            }
        }
        proof {
            assert(all.take(all.len() as int) =~= all);
        }
        RepoState { repo_type, packages, last_update: now() }
    }

    /// The state of the local repository below the home directory `home`,
    /// given what a walk from the repository's path found: the package
    /// directories among the entries are tracked.
    pub fn new_local(home: &str, found: Vec<FoundEntry>) -> (r: RepoState)
        ensures
            r.repo_type@ == RepoModel::Local(local_repository(home@)),
            package_models(r.packages@) == local_packages(found@),
            all_in_place(r.packages@),
    {
        let ghost all = found@;
        let mut packages: Vec<Package> = Vec::new();
        proof {
            assert(all.take(0) =~= Seq::empty());
            assert(package_models(packages@) =~= Seq::empty());
        }
        for entry in it: found.into_iter()
            invariant
                it.seq() == all,
                package_models(packages@) == local_packages(all.take(it.index() as int)),
                all_in_place(packages@),
        {
            proof {
                let upto = all.take(it.index() + 1);
                assert(upto.drop_last() =~= all.take(it.index() as int));
                assert(upto.last() == all[it.index() as int]);
            }
            if PACKAGE_MIN_DEPTH <= entry.depth && entry.depth <= PACKAGE_MAX_DEPTH
                && entry.is_package() {
                let ghost before = packages@;
                let package = Package::at(entry.path);
                packages.push(package);
                proof {
                    assert(package_models(packages@) =~= package_models(before).push(
                        package_at(all[it.index() as int].path@),
                    ));
                }
            }
        }
        proof {
            assert(all.take(all.len() as int) =~= all);
        }
        RepoState {
            repo_type: Repo::Local(local_repository_path(home)),
            packages,
            last_update: now(),
        }
    }

    /// The state of the volatile repository: no path yet and no packages.
    pub fn new_volatile() -> (r: RepoState)
        ensures
            r.repo_type@ == RepoModel::Volatile(Seq::empty()),
            r.packages@.len() == 0,
            all_in_place(r.packages@),
    {
        RepoState {
            repo_type: Repo::Volatile(String::new()),
            packages: Vec::new(),
            last_update: now(),
        }
    }
}

/// The path of the local repository below the home directory `home`; this is
/// where the walk for [`RepoState::new_local`] starts.
pub fn local_repository_path(home: &str) -> (r: String)
    ensures
        r@ == local_repository(home@),
{
    join_path(home, "repos/aerynos/recipes")
}

} // verus!
