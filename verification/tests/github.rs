use update_rs::github::{classify_status, GitHubAsset, GitHubRelease, StatusClass};
use update_rs::{GitHubSource, Release};

fn asset(name: &str, digest: Option<&str>) -> GitHubAsset {
    GitHubAsset {
        name: name.to_string(),
        digest: digest.map(|d| d.to_string()),
    }
}

fn github_release(tag: &str, assets: Vec<GitHubAsset>) -> GitHubRelease {
    GitHubRelease {
        name: "Version 2.0.0".to_string(),
        tag_name: tag.to_string(),
        body: "Example Release".to_string(),
        prerelease: false,
        assets,
    }
}

fn fixture() -> Vec<GitHubRelease> {
    vec![github_release(
        "v2.0.0",
        vec![
            asset("update-windows-amd64.exe", None),
            asset("update-linux-amd64", None),
            asset("update-darwin-amd64", None),
        ],
    )]
}

fn source(pattern: &str) -> GitHubSource {
    GitHubSource::new("sierrasoftworks/update-rs", pattern).with_release_tag_prefix("v")
}

#[test]
fn releases_from_response_select_matching_asset() {
    let releases = source("update-linux-amd64").get_releases_from_response(&fixture());
    assert_eq!(releases.len(), 1);
    let release = &releases[0];
    assert_eq!(release.id, "v2.0.0");
    assert_eq!(release.version.to_string(), "2.0.0");
    assert!(!release.prerelease);
    assert_ne!(release.changelog, "");
    let variant = release.get_variant().unwrap();
    assert_eq!(variant.name, "update-linux-amd64");
    assert!(variant.sha256.is_none());
}

#[test]
fn releases_from_response_with_glob_pattern() {
    let releases = source("*-windows-amd64.exe").get_releases_from_response(&fixture());
    assert_eq!(releases[0].get_variant().unwrap().name, "update-windows-amd64.exe");
}

#[test]
fn releases_from_response_without_matching_asset() {
    let releases = source("update-freebsd-amd64").get_releases_from_response(&fixture());
    assert_eq!(releases.len(), 1);
    assert!(releases[0].get_variant().is_none());
}

#[test]
fn releases_from_response_ignore_sidecar_files() {
    let body = vec![github_release(
        "v2.0.0",
        vec![
            asset("update-linux-amd64.sha256", None),
            asset("update-linux-amd64.sig", None),
            asset("update-linux-amd64", None),
        ],
    )];
    let releases = source("update-linux-amd64").get_releases_from_response(&body);
    assert_eq!(releases[0].get_variant().unwrap().name, "update-linux-amd64");
}

#[test]
fn releases_from_response_read_the_reported_digest() {
    let body = vec![github_release(
        "v2.0.0",
        vec![asset("update-linux-amd64", Some("sha256:ABCDEF0123"))],
    )];
    let releases = source("update-linux-amd64").get_releases_from_response(&body);
    assert_eq!(
        releases[0].get_variant().unwrap().sha256.as_deref(),
        Some("abcdef0123")
    );
    let other = vec![github_release(
        "v2.0.0",
        vec![asset("update-linux-amd64", Some("sha512:abc"))],
    )];
    let releases = source("update-linux-amd64").get_releases_from_response(&other);
    assert_eq!(releases[0].get_variant().unwrap().sha256, None);
}

#[test]
fn releases_from_response_skip_tags_that_are_not_versions() {
    let body = vec![
        github_release("v1.0.0", vec![]),
        github_release("nightly", vec![]),
        github_release("v1.1", vec![]),
        github_release("release-3.0.0", vec![]),
        github_release("v2.0.0-beta.1", vec![]),
    ];
    let releases = source("*").get_releases_from_response(&body);
    let ids: Vec<&str> = releases.iter().map(|r| r.id.as_str()).collect();
    assert_eq!(ids, vec!["v1.0.0", "v2.0.0-beta.1"]);
    let latest = Release::get_latest(&releases.iter().collect::<Vec<_>>()).unwrap();
    assert_eq!(latest.id, "v2.0.0-beta.1");

    let no_prefix = GitHubSource::new("o/r", "*").get_releases_from_response(&body);
    assert!(no_prefix.is_empty(), "no tag parses without the prefix stripped");
}

#[test]
fn uris_and_description() {
    let src = source("update-linux-amd64");
    assert_eq!(
        src.releases_uri(),
        "https://api.github.com/repos/sierrasoftworks/update-rs/releases"
    );
    let releases = src.get_releases_from_response(&fixture());
    let latest = &releases[0];
    let variant = latest.get_variant().unwrap();
    assert_eq!(
        src.binary_uri(latest, variant),
        "https://github.com/sierrasoftworks/update-rs/releases/download/v2.0.0/update-linux-amd64"
    );
    assert_eq!(src.describe(), "GitHub - sierrasoftworks/update-rs (update-linux-amd64)");
    assert_eq!(GitHubSource::default().describe(), "GitHub -  (*)");
}

#[test]
fn github_endpoints_lose_trailing_slashes() {
    let src = GitHubSource::new("o/r", "*")
        .with_github_endpoints("http://127.0.0.1:8080//", "http://127.0.0.1:8081/api/");
    assert_eq!(src.releases_uri(), "http://127.0.0.1:8081/api/repos/o/r/releases");
}

#[test]
fn statuses_are_classified() {
    assert_eq!(classify_status(200), StatusClass::Success);
    assert_eq!(classify_status(404), StatusClass::NotFound);
    assert_eq!(classify_status(403), StatusClass::RateLimited);
    assert_eq!(classify_status(429), StatusClass::RateLimited);
    assert_eq!(classify_status(500), StatusClass::Unexpected);
    assert_eq!(classify_status(201), StatusClass::Unexpected);
}
