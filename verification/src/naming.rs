//! Release-asset names for a platform, following one of two common schemes.
//!
//! The platform is described by plain values (the Rust spellings of the
//! operating system, the architecture, the target triple, and the executable
//! suffix); the caller supplies the ones of the platform it runs on.
//! The names contain no wildcards (they match exactly one asset), but they are
//! valid glob patterns.
use vstd::prelude::*;
use crate::text::{push_str, same_text, string_of};

verus! {

/// Go's `GOOS` spelling of a Rust operating-system name (`macos` is `darwin`).
pub open spec fn go_os_name(os: Seq<char>) -> Seq<char> {
    if os == "macos"@ {
        "darwin"@
    } else {
        os
    }
}

/// Go's `GOARCH` spelling of a Rust architecture name.
pub open spec fn go_arch_name(arch: Seq<char>) -> Seq<char> {
    if arch == "x86_64"@ {
        "amd64"@
    } else if arch == "i686"@ {
        "386"@
    } else if arch == "aarch64"@ {
        "arm64"@
    } else if arch == "powerpc64"@ {
        "ppc64"@
    } else {
        arch
    }
}

/// Translate a Rust operating-system name into Go's `GOOS` naming.
pub fn go_os(os: &str) -> (r: &str)
    ensures
        r@ == go_os_name(os@),
{
    if same_text(os, "macos") {
        "darwin"
    } else {
        os
    }
}

/// Translate a Rust architecture name into Go's `GOARCH` naming
/// (e.g. `x86_64` is `amd64`, `aarch64` is `arm64`).
pub fn go_arch(arch: &str) -> (r: &str)
    ensures
        r@ == go_arch_name(arch@),
{
    if same_text(arch, "x86_64") {
        "amd64"
    } else if same_text(arch, "i686") {
        "386"
    } else if same_text(arch, "aarch64") {
        "arm64"
    } else if same_text(arch, "powerpc64") {
        "ppc64"
    } else {
        arch
    }
}

/// A Go-style asset name: `{prefix}-{os}-{arch}{exe_suffix}`, with the Go
/// spellings of the operating system and architecture.
///
/// For example `go("myapp", "linux", "x86_64", "")` is `myapp-linux-amd64`.
pub fn go(prefix: &str, os: &str, arch: &str, exe_suffix: &str) -> (r: String)
    ensures
        r@ == prefix@ + seq!['-'] + go_os_name(os@) + seq!['-'] + go_arch_name(arch@)
            + exe_suffix@,
{
    let mut out: Vec<char> = Vec::new();
    push_str(&mut out, prefix);
    out.push('-');
    push_str(&mut out, go_os(os));
    out.push('-');
    push_str(&mut out, go_arch(arch));
    push_str(&mut out, exe_suffix);
    proof {
        assert(out@ =~= prefix@ + seq!['-'] + go_os_name(os@) + seq!['-'] + go_arch_name(arch@)
            + exe_suffix@);
    }
    string_of(out.as_slice())
}

/// A Rust-style asset name: `{prefix}-{target}{exe_suffix}`, with the full
/// Rust target triple (e.g. `myapp-x86_64-unknown-linux-gnu`).
pub fn rust(prefix: &str, target: &str, exe_suffix: &str) -> (r: String)
    ensures
        r@ == prefix@ + seq!['-'] + target@ + exe_suffix@,
{
    let mut out: Vec<char> = Vec::new();
    push_str(&mut out, prefix);
    out.push('-');
    push_str(&mut out, target);
    push_str(&mut out, exe_suffix);
    proof {
        assert(out@ =~= prefix@ + seq!['-'] + target@ + exe_suffix@);
    }
    string_of(out.as_slice())
}

/// Go naming never keeps the Rust spelling of the common 64-bit architectures.
pub proof fn law_go_arch_drops_rust_spellings(arch: Seq<char>)
    ensures
        go_arch_name(arch) != "x86_64"@,
        go_arch_name(arch) != "aarch64"@,
{
    reveal_strlit("x86_64");
    reveal_strlit("aarch64");
    reveal_strlit("amd64");
    reveal_strlit("arm64");
    reveal_strlit("i686");
    reveal_strlit("386");
    reveal_strlit("powerpc64");
    reveal_strlit("ppc64");
    assert("x86_64"@.len() == 6 && "aarch64"@.len() == 7);
    assert("amd64"@.len() == 5 && "arm64"@.len() == 5 && "ppc64"@.len() == 5 && "386"@.len() == 3);
}

/// Go naming renames exactly four Rust architectures (`x86_64` is `amd64`,
/// `i686` is `386`, `aarch64` is `arm64`, `powerpc64` is `ppc64`) and keeps
/// every other architecture as it is (so 32-bit `arm` stays `arm`); likewise
/// only `macos` is renamed among operating systems (to `darwin`).
pub proof fn law_go_renames_only_known_names(arch: Seq<char>, os: Seq<char>)
    ensures
        go_arch_name("x86_64"@) == "amd64"@,
        go_arch_name("i686"@) == "386"@,
        go_arch_name("aarch64"@) == "arm64"@,
        go_arch_name("powerpc64"@) == "ppc64"@,
        arch != "x86_64"@ && arch != "i686"@ && arch != "aarch64"@ && arch != "powerpc64"@
            ==> go_arch_name(arch) == arch,
        go_os_name("macos"@) == "darwin"@,
        os != "macos"@ ==> go_os_name(os) == os,
{
    reveal_strlit("x86_64");
    reveal_strlit("i686");
    reveal_strlit("aarch64");
    reveal_strlit("powerpc64");
    assert("x86_64"@.len() == 6 && "i686"@.len() == 4);
    assert("aarch64"@.len() == 7 && "powerpc64"@.len() == 9);
}

} // verus!
