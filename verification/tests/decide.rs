use recipe_updater::decide::{decide, upstream_arg, Decision, UpdateCommand};
use recipe_updater::manifest::{Manifest, UpstreamEntry, UpstreamValue};
use recipe_updater::monitoring::{ApiProject, Monitoring, Releases};
use recipe_updater::repo_state::Package;
use recipe_updater::resolve::ResolvedUpstream;

fn monitoring(id: Option<u32>) -> Monitoring {
    Monitoring { releases: Releases { id, rss: None }, security: None }
}

fn archive(url: &str, hash: &str) -> UpstreamEntry {
    UpstreamEntry { url: url.to_string(), value: UpstreamValue::Simple(hash.to_string()) }
}

fn repository(url: &str, hash: &str) -> UpstreamEntry {
    UpstreamEntry { url: url.to_string(), value: UpstreamValue::Git(hash.to_string()) }
}

fn manifest(version: &str, upstreams: Option<Vec<UpstreamEntry>>) -> Manifest {
    Manifest {
        name: "pkg".to_string(),
        version: version.to_string(),
        release: None,
        upstreams,
        homepage: None,
    }
}

fn resolved(version: &str, identity: &str) -> ResolvedUpstream {
    ResolvedUpstream { latest_version: version.to_string(), latest_identity: identity.to_string() }
}

fn answer(version: &str) -> Option<ApiProject> {
    Some(ApiProject { version: version.to_string(), homepage: Some("https://example.org".to_string()) })
}

fn update(version: &str, upstream: &str) -> Decision {
    Decision::Update(UpdateCommand { version: version.to_string(), upstream: upstream.to_string() })
}

#[test]
fn same_version_and_identity_is_no_op() {
    let m = manifest("2.0.0", Some(vec![archive("https://example.org/pkg-2.0.0.tar.gz", "abcd")]));
    assert_eq!(decide(&m, &resolved("2.0.0", "abcd")), Decision::NoOp);
}

#[test]
fn empty_identity_is_skip_whatever_the_version() {
    let m = manifest("2.0.0", Some(vec![archive("https://example.org/pkg-2.0.0.tar.gz", "abcd")]));
    assert_eq!(decide(&m, &resolved("2.0.0", "")), Decision::Skip);
    assert_eq!(decide(&m, &resolved("2.1.0", "")), Decision::Skip);
    assert_eq!(decide(&m, &resolved("", "")), Decision::Skip);
    let pinned_to_nothing =
        manifest("2.0.0", Some(vec![archive("https://example.org/pkg-2.0.0.tar.gz", "")]));
    assert_eq!(decide(&pinned_to_nothing, &resolved("2.0.0", "")), Decision::Skip);
}

#[test]
fn new_archive_version_is_an_update_with_the_new_url() {
    let m = manifest("1.2.0", Some(vec![archive("https://example.org/pkg-1.2.0.tar.gz", "abcd1234")]));
    assert_eq!(
        decide(&m, &resolved("1.3.0", "https://example.org/pkg-1.3.0.tar.gz")),
        update("1.3.0", "https://example.org/pkg-1.3.0.tar.gz")
    );
}

#[test]
fn new_repository_hash_is_an_update_with_url_and_hash() {
    let m = manifest(
        "1.2.0",
        Some(vec![repository("https://github.com/pop-os/cosmic-applets.git", "0123abcd")]),
    );
    assert_eq!(
        decide(&m, &resolved("1.3.0", "fedc9876")),
        update("1.3.0", "https://github.com/pop-os/cosmic-applets.git, fedc9876")
    );
}

#[test]
fn same_version_with_another_identity_is_an_update() {
    let m = manifest("1.2.0", Some(vec![archive("https://example.org/pkg-1.2.0.tar.gz", "abcd")]));
    assert_eq!(decide(&m, &resolved("1.2.0", "ffff")), update("1.2.0", "ffff"));
}

#[test]
fn another_version_with_the_same_identity_is_an_update() {
    let m = manifest("1.2.0", Some(vec![archive("https://example.org/pkg.tar.gz", "abcd")]));
    assert_eq!(decide(&m, &resolved("1.3.0", "abcd")), update("1.3.0", "abcd"));
}

#[test]
fn only_the_first_entry_counts() {
    let m = manifest(
        "1.2.0",
        Some(vec![
            archive("https://example.org/pkg-1.2.0.tar.gz", "abcd"),
            repository("git|https://example.org/extra", "eeee"),
        ]),
    );
    assert_eq!(decide(&m, &resolved("1.2.0", "abcd")), Decision::NoOp);
    assert_eq!(decide(&m, &resolved("1.2.0", "eeee")), update("1.2.0", "eeee"));
}

#[test]
fn no_upstream_entry_is_skip() {
    assert_eq!(decide(&manifest("1.2.0", None), &resolved("1.3.0", "abcd")), Decision::Skip);
    assert_eq!(decide(&manifest("1.2.0", Some(Vec::new())), &resolved("1.3.0", "abcd")), Decision::Skip);
}

#[test]
fn upstream_arg_of_both_kinds() {
    assert_eq!(
        upstream_arg(&repository("git|https://example.org/x", "old"), "new"),
        "git|https://example.org/x, new"
    );
    assert_eq!(
        upstream_arg(&archive("https://example.org/x-1.tar.gz", "old"), "https://example.org/x-2.tar.gz"),
        "https://example.org/x-2.tar.gz"
    );
    assert_eq!(upstream_arg(&archive("https://example.org/x-1.tar.gz", "old"), ""), "");
    assert_eq!(upstream_arg(&repository("git|u", "old"), ""), "git|u, ");
}

#[test]
fn arguments_follow_the_template() {
    let command = UpdateCommand {
        version: "1.3.0".to_string(),
        upstream: "https://example.org/pkg-1.3.0.tar.gz".to_string(),
    };
    assert_eq!(
        command.arguments(),
        vec![
            "recipe",
            "update",
            "--ver",
            "1.3.0",
            "--upstream",
            "https://example.org/pkg-1.3.0.tar.gz",
            "stone.yaml",
            "-w",
            "--build",
            "--local",
        ]
    );
    assert_eq!(UpdateCommand::program(), "boulder");
}

#[test]
fn newer_archive_release_end_to_end() {
    let m = manifest("1.2.0", Some(vec![archive("https://example.org/pkg-1.2.0.tar.gz", "abcd1234")]));
    let package = Package::at("/r/p/pkg".to_string());
    let first = m.first().unwrap();
    let latest = package.get_latest(&monitoring(Some(7)), first, &m.version, answer("1.3.0"));
    assert_eq!(latest.latest_identity, "https://example.org/pkg-1.3.0.tar.gz");
    assert_eq!(latest.latest_version, "1.3.0");
    assert_eq!(decide(&m, &latest), update("1.3.0", "https://example.org/pkg-1.3.0.tar.gz"));
    assert_eq!(
        package.update(&m, &monitoring(Some(7)), answer("1.3.0")),
        Some(update("1.3.0", "https://example.org/pkg-1.3.0.tar.gz"))
    );
}

#[test]
fn unchanged_release_end_to_end() {
    let m = manifest("1.2.0", Some(vec![archive("https://example.org/pkg-1.2.0.tar.gz", "abcd1234")]));
    let package = Package::at("/r/p/pkg".to_string());
    let first = m.first().unwrap();
    let latest = package.get_latest(&monitoring(Some(7)), first, &m.version, answer("1.2.0"));
    assert_eq!(decide(&m, &latest), Decision::NoOp);
    assert_eq!(package.update(&m, &monitoring(Some(7)), answer("1.2.0")), Some(Decision::NoOp));
}

#[test]
fn newer_repository_release_is_skipped_for_want_of_a_hash() {
    let m = manifest(
        "1.2.0",
        Some(vec![repository("https://github.com/pop-os/cosmic-applets.git", "0123abcd")]),
    );
    let package = Package::at("/r/c/cosmic-applets".to_string());
    assert_eq!(package.update(&m, &monitoring(Some(377113)), answer("1.3.0")), Some(Decision::Skip));
    assert_eq!(package.update(&m, &monitoring(Some(377113)), answer("1.2.0")), Some(Decision::NoOp));
}

#[test]
fn untracked_package_is_skipped() {
    let m = manifest("1.2.0", Some(vec![archive("https://example.org/pkg-1.2.0.tar.gz", "abcd1234")]));
    let package = Package::at("/r/p/pkg".to_string());
    assert_eq!(package.update(&m, &monitoring(None), None), Some(Decision::Skip));
    assert_eq!(package.update(&m, &monitoring(None), answer("1.3.0")), Some(Decision::Skip));
}

#[test]
fn failed_lookup_is_skipped() {
    let m = manifest("1.2.0", Some(vec![archive("https://example.org/pkg-1.2.0.tar.gz", "abcd1234")]));
    let package = Package::at("/r/p/pkg".to_string());
    assert_eq!(package.update(&m, &monitoring(Some(7)), None), Some(Decision::Skip));
}

#[test]
fn package_without_upstreams_is_skipped() {
    let package = Package::at("/r/p/pkg".to_string());
    assert_eq!(package.update(&manifest("1.2.0", None), &monitoring(Some(7)), answer("1.3.0")), Some(Decision::Skip));
}

#[test]
fn handled_package_is_not_handled_again() {
    let m = manifest("1.2.0", Some(vec![archive("https://example.org/pkg-1.2.0.tar.gz", "abcd1234")]));
    let mut package = Package::at("/r/p/pkg".to_string());
    package.updated = true;
    assert_eq!(package.update(&m, &monitoring(Some(7)), answer("1.3.0")), None);
}

#[test]
fn one_unreadable_package_leaves_the_others_as_they_were() {
    let documents = |with_broken: bool| -> Vec<Result<(Manifest, Option<ApiProject>), String>> {
        let mut all = vec![
            Ok((
                manifest("1.2.0", Some(vec![archive("https://example.org/a-1.2.0.tar.gz", "aaaa")])),
                answer("1.3.0"),
            )),
            Ok((
                manifest("2.0.0", Some(vec![archive("https://example.org/b-2.0.0.tar.gz", "bbbb")])),
                answer("2.0.0"),
            )),
            Ok((manifest("3.0.0", None), answer("3.1.0"))),
        ];
        if with_broken {
            all.insert(1, Err("did not parse".to_string()));
        }
        all
    };
    let run = |inputs: Vec<Result<(Manifest, Option<ApiProject>), String>>| -> Vec<Option<Decision>> {
        inputs
            .into_iter()
            .enumerate()
            .filter_map(|(i, loaded)| {
                let package = Package::at(format!("/r/p/{i}"));
                match loaded {
                    Ok((m, a)) => Some(package.update(&m, &monitoring(Some(1)), a)),
                    Err(_) => None,
                }
            })
            .collect()
    };
    let expected = vec![
        Some(update("1.3.0", "https://example.org/a-1.3.0.tar.gz")),
        Some(Decision::NoOp),
        Some(Decision::Skip),
    ];
    assert_eq!(run(documents(false)), expected);
    assert_eq!(run(documents(true)), expected);
}
