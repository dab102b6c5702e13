//! Finding the latest version of an upstream source and the identity that
//! goes with it.
//!
//! Asking the release-tracking service is left to the caller: it asks at the
//! address that [`Package::lookup_request`] gives, and hands the answer, or
//! `None` where it got none, to [`Package::get_latest`].

use crate::classify::{get_version_source_type, source_type_of, VersionSourceType};
use crate::manifest::{Manifest, UpstreamEntry, UpstreamEntryModel, UpstreamValue};
use crate::monitoring::{project_address, ApiProject, Monitoring};
use crate::repo_state::Package;
use crate::substitute::{replace_version_in_url, version_replaced};
use crate::text::same_text;
use vstd::prelude::*;

verus! {

/// The latest version of an upstream source with its identity: a content hash
/// for a version-control source, the download URL for an archive. An empty
/// identity says that none could be found, and that nothing is to be updated
/// on the strength of this result.
#[derive(Debug, Clone, PartialEq, Eq)]
pub struct ResolvedUpstream {
    pub latest_version: String,
    pub latest_identity: String,
}

/// The mathematical form of a [`ResolvedUpstream`].
pub struct ResolvedModel {
    pub latest_version: Seq<char>,
    pub latest_identity: Seq<char>,
}

impl View for ResolvedUpstream {
    type V = ResolvedModel;

    open spec fn view(&self) -> ResolvedModel {
        ResolvedModel {
            latest_version: self.latest_version@,
            latest_identity: self.latest_identity@,
        }
    }
}

/// The result that stands for "nothing found".
pub open spec fn unresolved() -> ResolvedModel {
    ResolvedModel { latest_version: Seq::empty(), latest_identity: Seq::empty() }
}

/// The identity of `version`, which differs from the current one: for an
/// archive the URL with the new version in place of the current one; for a
/// version-control source the empty identity, as no hash is looked up for
/// it.
pub open spec fn new_identity(
    upstream: UpstreamEntryModel,
    current_version: Seq<char>,
    version: Seq<char>,
) -> Seq<char> {
    match source_type_of(upstream.url) {
        VersionSourceType::Git => Seq::empty(),
        VersionSourceType::Archive => version_replaced(upstream.url, current_version, version),
    }
}

/// What follows from the answer of the release-tracking service.
///
/// Without a tracking identifier, or without an answer, nothing is found. A
/// version equal to the current one comes back with the identity that the
/// entry holds now; another version comes with its new identity.
pub open spec fn resolved(
    id: Option<u32>,
    upstream: UpstreamEntryModel,
    current_version: Seq<char>,
    answer: Option<ApiProject>,
) -> ResolvedModel {
    if id is None {
        unresolved()
    } else {
        match answer {
            None => unresolved(),
            Some(project) => if project.version@ == current_version {
                ResolvedModel {
                    latest_version: project.version@,
                    latest_identity: upstream.value.hash(),
                }
            } else {
                ResolvedModel {
                    latest_version: project.version@,
                    latest_identity: new_identity(upstream, current_version, project.version@),
                }
            },
        }
    }
}

/// The address to ask for the latest release of a package, if there is
/// anything to ask: the package has not been handled, its manifest declares
/// an upstream source, and its monitoring descriptor holds the tracking
/// identifier `id`.
pub open spec fn request_of(handled: bool, manifest: &Manifest, id: Option<u32>) -> Option<
    Seq<char>,
> {
    if handled || manifest.first_upstream() is None {
        None
    } else {
        match id {
            Some(id) => Some(project_address(id)),
            None => None,
        }
    }
}

/// Without a tracking identifier nothing is asked and nothing is resolved,
/// whatever else is given.
pub proof fn lemma_untracked_is_unresolved(
    handled: bool,
    manifest: &Manifest,
    upstream: UpstreamEntryModel,
    current_version: Seq<char>,
    answer: Option<ApiProject>,
)
    ensures
        request_of(handled, manifest, None) is None,
        resolved(None, upstream, current_version, answer) == unresolved(),
{
}

/// A new version of a version-control source resolves to an empty identity,
/// as no hash is found for it.
pub proof fn lemma_new_repository_version_has_no_identity(
    id: u32,
    upstream: UpstreamEntryModel,
    current_version: Seq<char>,
    answer: ApiProject,
)
    requires
        source_type_of(upstream.url) == VersionSourceType::Git,
        answer.version@ != current_version,
    ensures
        resolved(Some(id), upstream, current_version, Some(answer)).latest_identity.len() == 0,
{
}

impl ResolvedUpstream {
    /// The result that stands for "nothing found": no version, no identity.
    pub fn empty() -> (r: ResolvedUpstream)
        ensures
            r@ == unresolved(),
    {
        ResolvedUpstream { latest_version: String::new(), latest_identity: String::new() }
    }
}

impl Package {
    /// The address at which to ask for the latest release of this package,
    /// or `None` where nothing is to be asked: the package has been handled,
    /// its manifest declares no upstream source, or its monitoring descriptor
    /// holds no tracking identifier.
    pub fn lookup_request(&self, manifest: &Manifest, monitoring: &Monitoring) -> (r: Option<
        String,
    >)
        ensures
            match r {
                Some(url) => request_of(self.updated, manifest, monitoring.releases.id) == Some(
                    url@,
                ),
                None => request_of(self.updated, manifest, monitoring.releases.id) is None,
            },
    {
        if self.updated {
            return None;
        }
        match manifest.first() {
            Some(_) => monitoring.lookup_url(),
            None => None,
        }
    }

    /// The latest version of `cur_upstream` and its identity, given the
    /// answer of the release-tracking service, as [`resolved`] says.
    pub fn get_latest(
        &self,
        monitoring: &Monitoring,
        cur_upstream: &UpstreamEntry,
        cur_vers: &str,
        answer: Option<ApiProject>,
    ) -> (r: ResolvedUpstream)
        ensures
            r@ == resolved(monitoring.releases.id, cur_upstream@, cur_vers@, answer),
            monitoring.releases.id is None ==> r@ == unresolved(),
    {
        if monitoring.releases.id.is_none() {
            return ResolvedUpstream::empty();
        }
        match answer {
            None => ResolvedUpstream::empty(),
            Some(project) => {
                let new_version = project.version;
                if same_text(new_version.as_str(), cur_vers) {
                    let latest_identity = self.get_current_hash(cur_upstream);
                    return ResolvedUpstream { latest_version: new_version, latest_identity };
                }
                match get_version_source_type(cur_upstream) {
                    VersionSourceType::Git => {
                        let latest_identity = self.get_git_hash(new_version.as_str(), cur_upstream);
                        assert(latest_identity@ =~= Seq::empty());
                        ResolvedUpstream { latest_version: new_version, latest_identity }
                    },
                    VersionSourceType::Archive => {
                        let latest_identity = replace_version_in_url(
                            cur_upstream.url.as_str(),
                            cur_vers,
                            new_version.as_str(),
                        );
                        ResolvedUpstream { latest_version: new_version, latest_identity }
                    },
                }
            },
        }
    }

    /// The hash that `upstream` is pinned to now.
    pub fn get_current_hash(&self, upstream: &UpstreamEntry) -> (r: String)
        ensures
            r@ == upstream@.value.hash(),
    {
        match &upstream.value {
            UpstreamValue::Simple(hash) => hash.clone(),
            UpstreamValue::Git(hash) => hash.clone(),
            UpstreamValue::Extended { hash, .. } => hash.clone(),
        }
    }

    /// The hash of `version` in the version-control repository of `upstream`.
    /// No lookup is made: the hash is always empty, which stands for a hash
    /// that could not be found.
    pub fn get_git_hash(&self, version: &str, upstream: &UpstreamEntry) -> (r: String)
        ensures
            r@.len() == 0,
    {
        String::new()
    }
}

} // verus!
