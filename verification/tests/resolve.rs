use recipe_updater::manifest::{Manifest, Property, UpstreamEntry, UpstreamValue, YamlValue};
use recipe_updater::monitoring::{decimal_text, project_url, ApiProject, Monitoring, Releases};
use recipe_updater::repo_state::Package;
use recipe_updater::resolve::ResolvedUpstream;

fn package() -> Package {
    Package::at("/r/p/pkg".to_string())
}

fn monitoring(id: Option<u32>) -> Monitoring {
    Monitoring { releases: Releases { id, rss: None }, security: None }
}

fn archive() -> UpstreamEntry {
    UpstreamEntry {
        url: "https://example.org/pkg-1.2.0.tar.gz".to_string(),
        value: UpstreamValue::Simple("abcd1234".to_string()),
    }
}

fn repository() -> UpstreamEntry {
    UpstreamEntry {
        url: "https://github.com/pop-os/cosmic-applets.git".to_string(),
        value: UpstreamValue::Git("0123abcd".to_string()),
    }
}

fn answer(version: &str) -> Option<ApiProject> {
    Some(ApiProject { version: version.to_string(), homepage: None })
}

fn manifest(upstreams: Option<Vec<UpstreamEntry>>) -> Manifest {
    Manifest {
        name: "pkg".to_string(),
        version: "1.2.0".to_string(),
        release: Some(1),
        upstreams,
        homepage: None,
    }
}

fn resolved(version: &str, identity: &str) -> ResolvedUpstream {
    ResolvedUpstream { latest_version: version.to_string(), latest_identity: identity.to_string() }
}

#[test]
fn test_get_package_latest_info() {
    let cosmic_applets_path = dirs::home_dir()
        .expect("Failed to get home directory")
        .join("repos/aerynos/recipes/c/cosmic-applets");
    let package = Package::at(cosmic_applets_path.to_str().unwrap().to_string());
    assert_eq!(package.manifest, cosmic_applets_path.join("stone.yaml").to_str().unwrap());
    assert_eq!(package.monitoring, cosmic_applets_path.join("monitoring.yaml").to_str().unwrap());

    let monitoring = monitoring(Some(377113));
    let manifest = manifest(Some(vec![repository()]));

    if let Some(first_upstream) = manifest.upstreams.as_ref().and_then(|upstream| upstream.first()) {
        let latest =
            package.get_latest(&monitoring, first_upstream, &manifest.version, answer("1.2.0"));
        let (latest_vers, latest_hash) = (latest.latest_version, latest.latest_identity);

        assert!(!latest_vers.is_empty(), "Latest version should not be empty");
        assert!(!latest_hash.is_empty(), "Latest hash should not be empty for cosmic-applets");
        assert_eq!(
            monitoring.releases.id,
            Some(377113),
            "cosmic-applets should have a monitoring ID 377113"
        );
    }
}

#[test]
fn project_url_names_the_project() {
    assert_eq!(project_url(377113), "https://release-monitoring.org/api/project/377113");
    assert_eq!(project_url(0), "https://release-monitoring.org/api/project/0");
}

#[test]
fn decimal_text_agrees_with_std() {
    for n in [0u32, 1, 9, 10, 11, 99, 100, 101, 1000, 377113, 4294967295] {
        assert_eq!(decimal_text(n), n.to_string());
    }
    assert_eq!(decimal_text(4294967295), "4294967295");
    assert_eq!(decimal_text(7), "7");
    assert_eq!(decimal_text(120), "120");
}

#[test]
fn lookup_url_needs_an_identifier() {
    assert_eq!(monitoring(None).lookup_url(), None);
    assert_eq!(
        monitoring(Some(42)).lookup_url(),
        Some("https://release-monitoring.org/api/project/42".to_string())
    );
}

#[test]
fn nothing_is_asked_without_an_identifier() {
    let m = manifest(Some(vec![archive()]));
    assert_eq!(package().lookup_request(&m, &monitoring(None)), None);
}

#[test]
fn nothing_is_asked_without_an_upstream() {
    assert_eq!(package().lookup_request(&manifest(None), &monitoring(Some(1))), None);
    assert_eq!(package().lookup_request(&manifest(Some(Vec::new())), &monitoring(Some(1))), None);
}

#[test]
fn nothing_is_asked_for_a_handled_package() {
    let mut p = package();
    p.updated = true;
    assert_eq!(p.lookup_request(&manifest(Some(vec![archive()])), &monitoring(Some(1))), None);
}

#[test]
fn a_tracked_package_with_an_upstream_is_asked_for() {
    assert_eq!(
        package().lookup_request(&manifest(Some(vec![archive()])), &monitoring(Some(377113))),
        Some("https://release-monitoring.org/api/project/377113".to_string())
    );
}

#[test]
fn without_identifier_nothing_is_resolved() {
    let got = package().get_latest(&monitoring(None), &archive(), "1.2.0", None);
    assert_eq!(got, resolved("", ""));
    let got = package().get_latest(&monitoring(None), &archive(), "1.2.0", answer("1.3.0"));
    assert_eq!(got, resolved("", ""));
    assert_eq!(ResolvedUpstream::empty(), resolved("", ""));
}

#[test]
fn without_answer_nothing_is_resolved() {
    let got = package().get_latest(&monitoring(Some(1)), &archive(), "1.2.0", None);
    assert_eq!(got, resolved("", ""));
}

#[test]
fn unchanged_version_comes_with_the_current_hash() {
    let got = package().get_latest(&monitoring(Some(1)), &archive(), "1.2.0", answer("1.2.0"));
    assert_eq!(got, resolved("1.2.0", "abcd1234"));
    let got = package().get_latest(&monitoring(Some(1)), &repository(), "1.2.0", answer("1.2.0"));
    assert_eq!(got, resolved("1.2.0", "0123abcd"));
}

#[test]
fn new_version_of_an_archive_comes_with_its_url() {
    let got = package().get_latest(&monitoring(Some(1)), &archive(), "1.2.0", answer("1.3.0"));
    assert_eq!(got, resolved("1.3.0", "https://example.org/pkg-1.3.0.tar.gz"));
}

#[test]
fn new_version_of_a_repository_comes_without_hash() {
    let got = package().get_latest(&monitoring(Some(1)), &repository(), "1.2.0", answer("1.3.0"));
    assert_eq!(got, resolved("1.3.0", ""));
}

#[test]
fn current_hash_of_every_form() {
    let p = package();
    assert_eq!(p.get_current_hash(&archive()), "abcd1234");
    assert_eq!(p.get_current_hash(&repository()), "0123abcd");
    let extended = UpstreamEntry {
        url: "https://example.org/x".to_string(),
        value: UpstreamValue::Extended {
            hash: "eeee".to_string(),
            properties: vec![Property { key: "rename".to_string(), value: YamlValue::Null }],
        },
    };
    assert_eq!(p.get_current_hash(&extended), "eeee");
}

#[test]
fn git_hash_lookup_finds_nothing() {
    assert_eq!(package().get_git_hash("1.3.0", &repository()), "");
}
