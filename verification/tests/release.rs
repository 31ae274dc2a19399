use update_rs::{Release, ReleaseVariant, ReleaseVersion};

fn variant(name: &str) -> ReleaseVariant {
    ReleaseVariant {
        name: name.to_string(),
        sha256: None,
    }
}

fn release(id: &str, version: &str) -> Release {
    Release {
        id: id.to_string(),
        changelog: "".to_string(),
        version: ReleaseVersion::parse(version).unwrap(),
        prerelease: false,
        variant: None,
    }
}

#[test]
fn test_get_latest() {
    assert_eq!(Release::get_latest(&[]), None);

    let releases = [
        release("1", "1.1.7"),
        release("0", "1.0.0"),
        release("3", "2.3.1"),
        release("2", "2.1.0"),
    ];

    assert_eq!(
        Release::get_latest(&releases.iter().collect::<Vec<_>>()).map(|r| r.id.as_str()),
        Some("3")
    );
}

#[test]
fn get_latest_keeps_the_first_of_equal_versions() {
    let releases = [
        release("a", "1.0.0"),
        release("b", "2.0.0"),
        release("c", "2.0.0"),
        release("d", "1.9.9"),
    ];
    assert_eq!(Release::get_latest(&releases.iter().collect::<Vec<_>>()).map(|r| r.id.as_str()), Some("b"));
}

#[test]
fn get_latest_orders_prereleases_below_releases() {
    let releases = [
        release("rc", "2.0.0-rc.1"),
        release("final", "2.0.0"),
        release("beta", "2.0.0-beta.11"),
    ];
    assert_eq!(Release::get_latest(&releases.iter().collect::<Vec<_>>()).map(|r| r.id.as_str()), Some("final"));
    let pre = [release("b2", "1.0.0-beta.2"), release("b11", "1.0.0-beta.11")];
    assert_eq!(Release::get_latest(&pre.iter().collect::<Vec<_>>()).map(|r| r.id.as_str()), Some("b11"));
}

#[test]
fn get_latest_over_releases_with_a_variant() {
    let mut newest = release("3", "3.0.0");
    newest.variant = None;
    let mut older = release("2", "2.0.0");
    older.variant = Some(variant("app-linux-amd64"));
    let releases = vec![release("1", "1.0.0"), older, newest];
    let with_variant: Vec<&Release> = releases.iter().filter(|r| r.get_variant().is_some()).collect();
    assert_eq!(Release::get_latest(&with_variant).map(|r| r.id.as_str()), Some("2"));
    let none: Vec<&Release> = releases.iter().filter(|r| r.id == "none").collect();
    assert_eq!(Release::get_latest(&none), None);
}

#[test]
fn test_get_variant() {
    let mut with = release("v1", "1.0.0");
    with.variant = Some(variant("myapp-linux-amd64"));
    assert_eq!(with.get_variant(), Some(&variant("myapp-linux-amd64")));

    let without = release("v1", "1.0.0");
    assert_eq!(without.get_variant(), None);
}

#[test]
fn versions_parse_compare_and_print() {
    let v = ReleaseVersion::parse("1.2.3-beta.1+build.5").unwrap();
    assert_eq!((v.major(), v.minor(), v.patch()), (1, 2, 3));
    assert_eq!(v.pre(), "beta.1");
    assert_eq!(v.build(), "build.5");
    assert_eq!(v.to_string(), "1.2.3-beta.1+build.5");
    assert_eq!(ReleaseVersion::parse("10.0.0").unwrap().to_string(), "10.0.0");

    assert!(ReleaseVersion::parse("1.0").is_none());
    assert!(ReleaseVersion::parse("v1.0.0").is_none());
    assert!(ReleaseVersion::parse("1.0.01").is_none());

    let a = ReleaseVersion::parse("1.9.0").unwrap();
    let b = ReleaseVersion::parse("1.10.0").unwrap();
    assert_eq!(a.compare(&b), -1);
    assert_eq!(b.compare(&a), 1);
    assert_eq!(a.compare(&a), 0);
}

#[test]
fn releases_are_equal_by_id_and_print_beta() {
    let a = release("v1", "1.0.0");
    let b = release("v1", "2.0.0");
    let c = release("v2", "1.0.0");
    assert!(a == b);
    assert!(a != c);
    assert_eq!(a.to_string(), "v1");
    let mut beta = release("v2", "2.0.0-rc.1");
    beta.prerelease = true;
    assert_eq!(beta.to_string(), "v2-beta");
    assert_eq!(variant("app-linux-amd64").to_string(), "app-linux-amd64");
}
