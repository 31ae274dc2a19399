use update_rs::glob;

#[test]
fn literal() {
    assert!(glob::matches("myapp-linux-amd64", "myapp-linux-amd64"));
    assert!(!glob::matches("myapp-linux-amd64", "myapp-linux-arm64"));
    assert!(!glob::matches("myapp-linux-amd64", "myapp-linux-amd64.exe"));
}

#[test]
fn anchored_to_whole_name() {
    assert!(glob::matches("app-linux-amd64", "app-linux-amd64"));
    assert!(!glob::matches("app-linux-amd64", "app-linux-amd64.sha256"));
    assert!(!glob::matches("app-linux-amd64", "app-linux-amd64.sig"));
    assert!(!glob::matches("app-linux-amd64", "prefix-app-linux-amd64"));
    assert!(!glob::matches("app-linux-amd64", "app-linux-amd6"));
    assert!(glob::matches("app-linux-amd64*", "app-linux-amd64.sha256"));
    assert!(glob::matches("*app-linux-amd64", "prefix-app-linux-amd64"));
}

#[test]
fn star() {
    assert!(glob::matches("*", "anything"));
    assert!(glob::matches("*-linux-amd64", "myapp-linux-amd64"));
    assert!(glob::matches("myapp-*-amd64", "myapp-linux-amd64"));
    assert!(glob::matches("myapp-*", "myapp-windows-amd64.exe"));
    assert!(glob::matches("myapp-linux-amd64*", "myapp-linux-amd64"));
    assert!(!glob::matches("*-linux-amd64", "myapp-linux-arm64"));
}

#[test]
fn question_mark() {
    assert!(glob::matches("v?.?.?", "v1.2.3"));
    assert!(glob::matches("myapp-linux-amd6?", "myapp-linux-amd64"));
    assert!(!glob::matches("myapp-linux-amd6?", "myapp-linux-amd644"));
    assert!(!glob::matches("?", ""));
}

#[test]
fn empty() {
    assert!(glob::matches("", ""));
    assert!(!glob::matches("", "x"));
    assert!(glob::matches("**", ""));
}

#[test]
fn star_needs_backtracking() {
    // The first `-` is not the one that the rest of the pattern needs.
    assert!(glob::matches("*-amd64", "my-app-amd64"));
    assert!(glob::matches("a*b*c", "axxbyybzzc"));
    assert!(!glob::matches("a*b*c", "axxbyyczzb"));
    assert!(glob::matches("*?", "x"));
    assert!(!glob::matches("*??", "x"));
}

#[test]
fn star_matches_a_literal_star_too() {
    // A `*` in the pattern is a wildcard even against a `*` in the name.
    assert!(glob::matches("*a", "*xa"));
    assert!(glob::matches("*", "*"));
}

#[test]
fn law_cases_lone_wildcards() {
    assert!(glob::matches("*", ""));
    assert!(glob::matches("?", "x"));
    assert!(!glob::matches("?", "xy"));
}

#[test]
fn law_case_trailing_star_accepts_extensions() {
    assert!(glob::matches("app-?-x", "app-1-x"));
    assert!(glob::matches("app-?-x*", "app-1-x.sig"));
    assert!(glob::matches("app-?-x*", "app-1-x"));
}
