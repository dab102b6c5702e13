//! Telling version-control sources from archives.
//!
//! The kind of a source governs how the identity of a newer version is found:
//! a version-control source is pinned to a content hash, an archive to the
//! URL it is downloaded from.

use crate::manifest::{git_marker, UpstreamEntry};
use crate::text::{begins_with, contains, ends_with, lemma_ending_occurs, occurs_in, starts_with};
use vstd::prelude::*;

verus! {

/// How the version of an upstream source is tracked.
#[derive(Debug, Clone, Copy, PartialEq, Eq, Structural)]
pub enum VersionSourceType {
    /// A version-control repository.
    Git,
    /// A released archive.
    Archive,
}

/// The suffix by which a URL names a version-control repository.
pub open spec fn repository_suffix() -> Seq<char> {
    ".git"@
}

/// The URL names one of the known version-control hosting services.
pub open spec fn names_forge(url: Seq<char>) -> bool {
    ||| occurs_in(url, "github.com"@)
    ||| occurs_in(url, "gitlab.com"@)
    ||| occurs_in(url, "bitbucket.com"@)
    ||| occurs_in(url, "git.kernel.org"@)
    ||| occurs_in(url, "code.videolan.org"@)
    ||| occurs_in(url, "git.savannah.gnu.org"@)
    ||| occurs_in(url, "invent.kde.org"@)
}

/// The URL is that of a version-control source: it begins with the
/// version-control marker, or it names a known hosting service and holds the
/// repository suffix.
pub open spec fn is_git_url(url: Seq<char>) -> bool {
    begins_with(url, git_marker()) || (names_forge(url) && occurs_in(url, repository_suffix()))
}

/// The kind of source that a URL stands for.
pub open spec fn source_type_of(url: Seq<char>) -> VersionSourceType {
    if is_git_url(url) {
        VersionSourceType::Git
    } else {
        VersionSourceType::Archive
    }
}

/// Whether the entry is a version-control source.
pub fn is_git_source(upstream_entry: &UpstreamEntry) -> (r: bool)
    ensures
        r == is_git_url(upstream_entry.url@),
{
    let url = upstream_entry.url.as_str();
    if starts_with(url, "git|") {
        return true;
    }
    let on_forge = contains(url, "github.com") || contains(url, "gitlab.com") || contains(
        url,
        "bitbucket.com",
    ) || contains(url, "git.kernel.org") || contains(url, "code.videolan.org") || contains(
        url,
        "git.savannah.gnu.org",
    ) || contains(url, "invent.kde.org");
    on_forge && contains(url, ".git")
}

/// The kind of source that the entry is.
pub fn get_version_source_type(upstream_entry: &UpstreamEntry) -> (r: VersionSourceType)
    ensures
        r == source_type_of(upstream_entry.url@),
{
    if is_git_source(upstream_entry) {
        VersionSourceType::Git
    } else {
        VersionSourceType::Archive
    }
}

/// A URL that names `github.com` and ends with the repository suffix is a
/// version-control source.
pub proof fn lemma_github_repository_is_git(url: Seq<char>)
    requires
        occurs_in(url, "github.com"@),
        ends_with(url, repository_suffix()),
    ensures
        source_type_of(url) == VersionSourceType::Git,
{
    lemma_ending_occurs(url, repository_suffix());
}

/// A URL without the version-control marker that names no known hosting
/// service, or does not hold the repository suffix, is an archive.
pub proof fn lemma_unmarked_is_archive(url: Seq<char>)
    requires
        !begins_with(url, git_marker()),
        !(names_forge(url) && occurs_in(url, repository_suffix())),
    ensures
        source_type_of(url) == VersionSourceType::Archive,
{
}

} // verus!
