use update_rs::naming;

#[test]
fn go_translations() {
    assert_eq!(naming::go_os("macos"), "darwin");
    assert_eq!(naming::go_os("linux"), "linux");
    assert_eq!(naming::go_arch("x86_64"), "amd64");
    assert_eq!(naming::go_arch("aarch64"), "arm64");
    assert_eq!(naming::go_arch("riscv64"), "riscv64");
}

#[test]
fn go_starts_with_prefix_and_has_no_rust_arch() {
    // On Linux x86-64.
    let name = naming::go("myapp", "linux", "x86_64", "");
    assert!(name.starts_with("myapp-"), "got {name}");
    assert!(!name.contains("x86_64"), "got {name}");
    assert!(!name.contains("aarch64"), "got {name}");
    assert!(name.contains("-linux-") && !name.ends_with(".exe"), "got {name}");

    // On macOS and Windows.
    let mac = naming::go("myapp", "macos", "aarch64", "");
    assert!(mac.contains("-darwin-"), "got {mac}");
    assert!(!mac.contains("aarch64"), "got {mac}");
    let win = naming::go("myapp", "windows", "x86_64", ".exe");
    assert!(win.ends_with(".exe"), "got {win}");
}

#[test]
fn go_names_follow_go_conventions() {
    assert_eq!(naming::go("myapp", "linux", "x86_64", ""), "myapp-linux-amd64");
    assert_eq!(naming::go("myapp", "windows", "x86_64", ".exe"), "myapp-windows-amd64.exe");
    assert_eq!(naming::go("myapp", "macos", "aarch64", ""), "myapp-darwin-arm64");
    assert_eq!(naming::go("myapp", "linux", "i686", ""), "myapp-linux-386");
    assert_eq!(naming::go("myapp", "linux", "powerpc64", ""), "myapp-linux-ppc64");
}

#[test]
fn rust_uses_the_target_triple() {
    let name = naming::rust("myapp", "x86_64-unknown-linux-gnu", "");
    assert!(name.starts_with("myapp-"), "got {name}");
    assert!(name.contains("x86_64-unknown-linux-gnu"), "got {name}");
    assert!(name.contains("x86_64"), "got {name}");

    let win = naming::rust("myapp", "x86_64-pc-windows-msvc", ".exe");
    assert_eq!(win, "myapp-x86_64-pc-windows-msvc.exe");
}
