//! Deciding whether a package is to be updated, and with which command.

use crate::classify::{get_version_source_type, source_type_of, VersionSourceType};
use crate::manifest::{Manifest, UpstreamEntry, UpstreamEntryModel, UpstreamValue};
use crate::monitoring::{ApiProject, Monitoring};
use crate::repo_state::Package;
use crate::resolve::{resolved, unresolved, ResolvedModel, ResolvedUpstream};
use crate::text::same_text;
use vstd::prelude::*;
use vstd::string::StringExecFns;

verus! {

/// What the external updater is to be run with.
#[derive(Debug, Clone, PartialEq, Eq)]
pub struct UpdateCommand {
    /// The version to update to.
    pub version: String,
    /// The upstream argument: for a version-control source its URL, a comma,
    /// a space and the new hash; for an archive the new download URL.
    pub upstream: String,
}

/// The mathematical form of an [`UpdateCommand`].
pub struct UpdateCommandModel {
    pub version: Seq<char>,
    pub upstream: Seq<char>,
}

impl View for UpdateCommand {
    type V = UpdateCommandModel;

    open spec fn view(&self) -> UpdateCommandModel {
        UpdateCommandModel { version: self.version@, upstream: self.upstream@ }
    }
}

/// The outcome of the decision for one package.
#[derive(Debug, Clone, PartialEq, Eq)]
pub enum Decision {
    /// The package is up to date.
    NoOp,
    /// Nothing certain is known of a newer version; the package is left
    /// alone.
    Skip,
    /// The package is to be updated.
    Update(UpdateCommand),
}

/// The mathematical form of a [`Decision`].
pub enum DecisionModel {
    NoOp,
    Skip,
    Update(UpdateCommandModel),
}

impl View for Decision {
    type V = DecisionModel;

    open spec fn view(&self) -> DecisionModel {
        match self {
            Decision::NoOp => DecisionModel::NoOp,
            Decision::Skip => DecisionModel::Skip,
            Decision::Update(command) => DecisionModel::Update(command@),
        }
    }
}

/// The upstream argument for updating the source at `url` to `identity`.
pub open spec fn upstream_argument(url: Seq<char>, identity: Seq<char>) -> Seq<char> {
    match source_type_of(url) {
        VersionSourceType::Git => url + ", "@ + identity,
        VersionSourceType::Archive => identity,
    }
}

/// The decision for a package whose authoritative upstream entry is `first`,
/// whose manifest declares `current_version`, and for which `latest` was
/// resolved.
///
/// An empty identity means skip. A version and an identity that are those of
/// the manifest mean that nothing is to be done. Anything else is an update,
/// unless there is no entry to update or the upstream argument comes out
/// empty, which mean skip as well.
pub open spec fn decision_of(
    first: Option<UpstreamEntryModel>,
    current_version: Seq<char>,
    latest: ResolvedModel,
) -> DecisionModel {
    if latest.latest_identity.len() == 0 {
        DecisionModel::Skip
    } else {
        match first {
            None => DecisionModel::Skip,
            Some(entry) => if latest.latest_version == current_version && latest.latest_identity
                == entry.value.hash() {
                DecisionModel::NoOp
            } else if upstream_argument(entry.url, latest.latest_identity).len() == 0 {
                DecisionModel::Skip
            } else {
                DecisionModel::Update(
                    UpdateCommandModel {
                        version: latest.latest_version,
                        upstream: upstream_argument(entry.url, latest.latest_identity),
                    },
                )
            },
        }
    }
}

/// The authoritative upstream entry of a manifest, in its mathematical form.
pub open spec fn first_model(manifest: &Manifest) -> Option<UpstreamEntryModel> {
    match manifest.first_upstream() {
        Some(entry) => Some(entry@),
        None => None,
    }
}

/// The hash that an upstream value carries.
fn hash_of(value: &UpstreamValue) -> (r: &String)
    ensures
        r@ == value@.hash(),
{
    match value {
        UpstreamValue::Simple(hash) => hash,
        UpstreamValue::Git(hash) => hash,
        UpstreamValue::Extended { hash, .. } => hash,
    }
}

/// The upstream argument for updating `entry` to `identity`.
pub fn upstream_arg(entry: &UpstreamEntry, identity: &str) -> (r: String)
    ensures
        r@ == upstream_argument(entry.url@, identity@),
{
    match get_version_source_type(entry) {
        VersionSourceType::Git => entry.url.clone().concat(", ").concat(identity),
        VersionSourceType::Archive => String::from_str(identity),
    }
}

/// Decides what is to be done for the package of `manifest`, given what was
/// resolved for its authoritative upstream entry, as [`decision_of`] says.
pub fn decide(manifest: &Manifest, resolved: &ResolvedUpstream) -> (r: Decision)
    ensures
        r@ == decision_of(first_model(manifest), manifest.version@, resolved@),
        resolved.latest_identity@.len() == 0 ==> r@ == DecisionModel::Skip,
{
    if resolved.latest_identity.as_str().unicode_len() == 0 {
        return Decision::Skip;
    }
    match manifest.first() {
        None => Decision::Skip,
        Some(entry) => {
            let cur_hash = hash_of(&entry.value);
            if same_text(resolved.latest_version.as_str(), manifest.version.as_str()) && same_text(
                resolved.latest_identity.as_str(),
                cur_hash.as_str(),
            ) {
                return Decision::NoOp;
            }
            let upstream = upstream_arg(entry, resolved.latest_identity.as_str());
            if upstream.as_str().unicode_len() == 0 {
                return Decision::Skip;
            }
            Decision::Update(UpdateCommand { version: resolved.latest_version.clone(), upstream })
        },
    }
}

/// What handling a package comes to: `None` where the package has been
/// handled before, else the decision on what was resolved for its
/// authoritative upstream entry; a manifest without an upstream entry
/// resolves to nothing.
pub open spec fn decided_for(
    handled: bool,
    manifest: &Manifest,
    id: Option<u32>,
    answer: Option<ApiProject>,
) -> Option<DecisionModel> {
    if handled {
        None
    } else {
        let latest = match first_model(manifest) {
            Some(entry) => resolved(id, entry, manifest.version@, answer),
            None => unresolved(),
        };
        Some(decision_of(first_model(manifest), manifest.version@, latest))
    }
}

impl Package {
    /// Handles the package: resolves the latest version of its authoritative
    /// upstream entry from the answer of the release-tracking service and
    /// decides on it. `answer` is what the service said at the address that
    /// [`Package::lookup_request`] gave, or `None` where nothing was asked or
    /// no answer came.
    pub fn update(
        &self,
        manifest: &Manifest,
        monitoring: &Monitoring,
        answer: Option<ApiProject>,
    ) -> (r: Option<Decision>)
        ensures
            match r {
                Some(decision) => decided_for(
                    self.updated,
                    manifest,
                    monitoring.releases.id,
                    answer,
                ) == Some(decision@),
                None => decided_for(self.updated, manifest, monitoring.releases.id, answer) is None,
            },
    {
        if self.updated {
            return None;
        }
        let latest = match manifest.first() {
            Some(first_upstream) => self.get_latest(
                monitoring,
                first_upstream,
                manifest.version.as_str(),
                answer,
            ),
            None => ResolvedUpstream::empty(),
        };
        Some(decide(manifest, &latest))
    }
}

/// A package whose latest version and identity are those that its manifest
/// declares is left as it is.
pub proof fn lemma_unchanged_is_no_op(
    first: UpstreamEntryModel,
    current_version: Seq<char>,
    latest: ResolvedModel,
)
    requires
        latest.latest_version == current_version,
        latest.latest_identity == first.value.hash(),
        latest.latest_identity.len() > 0,
    ensures
        decision_of(Some(first), current_version, latest) == DecisionModel::NoOp,
{
}

/// An empty identity means skip, whatever the versions are.
pub proof fn lemma_empty_identity_is_skip(
    first: Option<UpstreamEntryModel>,
    current_version: Seq<char>,
    latest: ResolvedModel,
)
    requires
        latest.latest_identity.len() == 0,
    ensures
        decision_of(first, current_version, latest) == DecisionModel::Skip,
{
}

/// An update always names the version that was resolved and never comes with
/// an empty upstream argument.
pub proof fn lemma_update_is_well_formed(
    first: Option<UpstreamEntryModel>,
    current_version: Seq<char>,
    latest: ResolvedModel,
)
    ensures
        decision_of(first, current_version, latest) matches DecisionModel::Update(command)
            ==> command.version == latest.latest_version && command.upstream.len() > 0
            && first is Some,
{
}

/// A package that is not tracked, or for which the release-tracking service
/// gave no answer, is skipped.
pub proof fn lemma_without_answer_is_skip(
    manifest: &Manifest,
    id: Option<u32>,
    answer: Option<ApiProject>,
)
    requires
        id is None || answer is None,
    ensures
        decided_for(false, manifest, id, answer) == Some(DecisionModel::Skip),
{
}

/// A manifest without upstream entries switches update checking off: its
/// package is skipped.
pub proof fn lemma_without_upstream_is_skip(
    manifest: &Manifest,
    id: Option<u32>,
    answer: Option<ApiProject>,
)
    requires
        manifest.first_upstream() is None,
    ensures
        decided_for(false, manifest, id, answer) == Some(DecisionModel::Skip),
{
}

/// Where the release-tracking service answers with the version that the
/// manifest declares, nothing is to be done, as long as the authoritative
/// entry is pinned to some hash.
pub proof fn lemma_unchanged_answer_is_no_op(manifest: &Manifest, id: u32, answer: ApiProject)
    requires
        manifest.first_upstream() matches Some(entry) && entry@.value.hash().len() > 0,
        answer.version@ == manifest.version@,
    ensures
        decided_for(false, manifest, Some(id), Some(answer)) == Some(DecisionModel::NoOp),
{
}

/// The arguments of the external updater for a command.
pub open spec fn updater_arguments(command: UpdateCommandModel) -> Seq<Seq<char>> {
    seq![
        "recipe"@,
        "update"@,
        "--ver"@,
        command.version,
        "--upstream"@,
        command.upstream,
        "stone.yaml"@,
        "-w"@,
        "--build"@,
        "--local"@,
    ]
}

/// The texts of a list of strings.
pub open spec fn texts(strings: Seq<String>) -> Seq<Seq<char>> {
    strings.map_values(|s: String| s@)
}

impl UpdateCommand {
    /// The name of the external updater.
    pub fn program() -> (r: &'static str)
        ensures
            r@ == "boulder"@,
    {
        "boulder"
    }

    /// The arguments with which the external updater is run, in order.
    pub fn arguments(&self) -> (r: Vec<String>)
        ensures
            texts(r@) == updater_arguments(self@),
    {
        let mut args: Vec<String> = Vec::new();
        args.push(String::from_str("recipe"));
        args.push(String::from_str("update"));
        args.push(String::from_str("--ver"));
        args.push(self.version.clone());
        args.push(String::from_str("--upstream"));
        args.push(self.upstream.clone());
        args.push(String::from_str("stone.yaml"));
        args.push(String::from_str("-w"));
        args.push(String::from_str("--build"));
        args.push(String::from_str("--local"));
        assert(texts(args@) =~= updater_arguments(self@));
        args
    }
}

} // verus!
