//! Releases, their downloadable variants, and the semantic versions that order them.
use vstd::prelude::*;
use crate::text::string_of;

verus! {

/// Declares `semver::Version`, which [`ReleaseVersion`] carries opaque.
#[verifier::external_type_specification]
#[verifier::external_body]
pub struct ExSemverVersion(semver::Version);

/// `Clone` of `semver::Version`, so that a [`ReleaseVersion`] can be cloned;
/// nothing is stated of the copy.
pub assume_specification[ <semver::Version as Clone>::clone ](v: &semver::Version) -> semver::Version;

/// The parts of a semantic version: `major.minor.patch[-pre][+build]`.
pub struct VersionView {
    pub major: u64,
    pub minor: u64,
    pub patch: u64,
    pub pre: Seq<char>,
    pub build: Seq<char>,
}

/// What `semver::Version::parse` gives for a text: the version's parts, or
/// `None` where the text is not a valid semantic version.
pub uninterp spec fn semver_parse(text: Seq<char>) -> Option<VersionView>;

/// The order of `semver::Version` (its `Ord`): negative, zero or positive as
/// the first version is older than, equal to or newer than the second.
pub uninterp spec fn semver_order(a: VersionView, b: VersionView) -> int;

/// The decimal digits of `n`, most significant first.
pub open spec fn decimal(n: nat) -> Seq<char>
    decreases n,
{
    if n < 10 {
        seq![(48 + n) as char]
    } else {
        decimal(n / 10).push((48 + n % 10) as char)
    }
}

/// The textual form of a version, as semver prints it.
pub open spec fn version_text(v: VersionView) -> Seq<char> {
    decimal(v.major as nat) + seq!['.'] + decimal(v.minor as nat) + seq!['.'] + decimal(
        v.patch as nat,
    ) + (if v.pre.len() == 0 {
        Seq::<char>::empty()
    } else {
        seq!['-'] + v.pre
    }) + (if v.build.len() == 0 {
        Seq::<char>::empty()
    } else {
        seq!['+'] + v.build
    })
}

/// A semantic version, as parsed by the `semver` crate.
///
/// It holds the parsed `semver::Version` (which orders and prints it) beside its
/// parts as plain values (which the contracts speak of); both are set together,
/// by [`ReleaseVersion::parse`] alone.
#[derive(Debug, Clone)]
pub struct ReleaseVersion {
    major: u64,
    minor: u64,
    patch: u64,
    pre: String,
    build: String,
    inner: semver::Version,
}

impl View for ReleaseVersion {
    type V = VersionView;

    closed spec fn view(&self) -> VersionView {
        VersionView {
            major: self.major,
            minor: self.minor,
            patch: self.patch,
            pre: self.pre@,
            build: self.build@,
        }
    }
}

/// Calls `semver::Version::parse`: the version's parts are those semver reads
/// from `text`, and `None` comes back exactly where semver rejects the text.
#[verifier::external_body]
fn parse_semver(text: &str) -> (r: Option<ReleaseVersion>)
    ensures
        r is Some <==> semver_parse(text@) is Some,
        r matches Some(v) ==> semver_parse(text@) == Some(v@),
{
    match semver::Version::parse(text) {
        Ok(v) => Some(
            ReleaseVersion {
                major: v.major,
                minor: v.minor,
                patch: v.patch,
                pre: v.pre.as_str().to_string(),
                build: v.build.as_str().to_string(),
                inner: v,
            },
        ),
        Err(_) => None,
    }
}

/// Calls `Ord::cmp` of `semver::Version`: -1, 0 or 1, the named order of the
/// two versions. `semver::Version` orders its fields in turn (major, then
/// minor, then patch, then the pre-release and build parts), and the order
/// is total (antisymmetric and transitive). How pre-release and build parts
/// compare is left to the name.
#[verifier::external_body]
fn compare_versions(a: &ReleaseVersion, b: &ReleaseVersion) -> (r: i8)
    ensures
        r == semver_order(a@, b@),
        -1 <= r <= 1,
        r == -semver_order(b@, a@),
        a@.major < b@.major ==> r == -1,
        a@.major > b@.major ==> r == 1,
        a@.major == b@.major && a@.minor < b@.minor ==> r == -1,
        a@.major == b@.major && a@.minor > b@.minor ==> r == 1,
        a@.major == b@.major && a@.minor == b@.minor && a@.patch < b@.patch ==> r == -1,
        a@.major == b@.major && a@.minor == b@.minor && a@.patch > b@.patch ==> r == 1,
        forall|x: VersionView| semver_order(x, b@) <= 0 && r > 0 ==> semver_order(x, a@) < 0,
{
    match a.inner.cmp(&b.inner) {
        std::cmp::Ordering::Less => -1,
        std::cmp::Ordering::Equal => 0,
        std::cmp::Ordering::Greater => 1,
    }
}

/// Calls semver's `Display` for `Version` (through `to_string`), which prints
/// `major.minor.patch`, then `-pre` and `+build` where those are not empty.
#[verifier::external_body]
fn print_version(v: &ReleaseVersion) -> (r: String)
    ensures
        r@ == version_text(v@),
{
    v.inner.to_string()
}

impl ReleaseVersion {
    /// Parse a semantic version such as `1.2.3` or `2.0.0-beta.1+build.5`.
    pub fn parse(text: &str) -> (r: Option<ReleaseVersion>)
        ensures
            r is Some <==> semver_parse(text@) is Some,
            r matches Some(v) ==> semver_parse(text@) == Some(v@),
    {
        parse_semver(text)
    }

    pub fn major(&self) -> (r: u64)
        ensures
            r == self@.major,
    {
        self.major
    }

    pub fn minor(&self) -> (r: u64)
        ensures
            r == self@.minor,
    {
        self.minor
    }

    pub fn patch(&self) -> (r: u64)
        ensures
            r == self@.patch,
    {
        self.patch
    }

    /// The pre-release part (after `-`), empty for a normal release.
    pub fn pre(&self) -> (r: &str)
        ensures
            r@ == self@.pre,
    {
        self.pre.as_str()
    }

    /// The build metadata (after `+`), empty when there is none.
    pub fn build(&self) -> (r: &str)
        ensures
            r@ == self@.build,
    {
        self.build.as_str()
    }

    /// Compare two versions by semver's order: -1, 0 or 1. The order goes by
    /// major, then minor, then patch version; swapping the two flips the sign.
    pub fn compare(&self, other: &ReleaseVersion) -> (r: i8)
        ensures
            r == semver_order(self@, other@),
            -1 <= r <= 1,
            r == -semver_order(other@, self@),
            self@.major < other@.major ==> r == -1,
            self@.major > other@.major ==> r == 1,
            self@.major == other@.major && self@.minor < other@.minor ==> r == -1,
            self@.major == other@.major && self@.minor > other@.minor ==> r == 1,
            self@.major == other@.major && self@.minor == other@.minor && self@.patch
                < other@.patch ==> r == -1,
            self@.major == other@.major && self@.minor == other@.minor && self@.patch
                > other@.patch ==> r == 1,
    {
        compare_versions(self, other)
    }

    /// The version as text, e.g. `1.2.3-beta+build`.
    pub fn to_string(&self) -> (r: String)
        ensures
            r@ == version_text(self@),
    {
        print_version(self)
    }
}

/// A downloadable binary belonging to a [`Release`]: a single release asset.
#[derive(Debug, Clone, PartialEq, Eq)]
pub struct ReleaseVariant {
    /// The release asset's file name, used to build the download URL.
    pub name: String,
    /// The expected SHA-256 digest of the asset as lowercase hex, when the
    /// source reports one; the download is checked against it.
    pub sha256: Option<String>,
}

pub struct ReleaseVariantView {
    pub name: Seq<char>,
    pub sha256: Option<Seq<char>>,
}

pub open spec fn opt_string_view(s: Option<String>) -> Option<Seq<char>> {
    match s {
        Some(x) => Some(x@),
        None => None,
    }
}

impl View for ReleaseVariant {
    type V = ReleaseVariantView;

    open spec fn view(&self) -> ReleaseVariantView {
        ReleaseVariantView { name: self.name@, sha256: opt_string_view(self.sha256) }
    }
}

impl ReleaseVariant {
    /// The variant as text: its asset name.
    pub fn to_string(&self) -> (r: String)
        ensures
            r@ == self.name@,
    {
        self.name.clone()
    }
}

/// A single release published by a source, with the binary (variant) the
/// source selected for this platform.
#[derive(Debug, Clone)]
pub struct Release {
    /// The release identifier, usually the Git tag (e.g. `v1.2.3`).
    pub id: String,
    /// The release notes associated with the release.
    pub changelog: String,
    /// The parsed semantic version, which decides which release is newest.
    pub version: ReleaseVersion,
    /// Whether this release is a pre-release.
    pub prerelease: bool,
    /// The asset selected for this platform, if any.
    pub variant: Option<ReleaseVariant>,
}

pub struct ReleaseView {
    pub id: Seq<char>,
    pub changelog: Seq<char>,
    pub version: VersionView,
    pub prerelease: bool,
    pub variant: Option<ReleaseVariantView>,
}

pub open spec fn opt_variant_view(v: Option<ReleaseVariant>) -> Option<ReleaseVariantView> {
    match v {
        Some(x) => Some(x@),
        None => None,
    }
}

impl View for Release {
    type V = ReleaseView;

    open spec fn view(&self) -> ReleaseView {
        ReleaseView {
            id: self.id@,
            changelog: self.changelog@,
            version: self.version@,
            prerelease: self.prerelease,
            variant: opt_variant_view(self.variant),
        }
    }
}

/// Release `i` of `releases` is the latest: no release is newer, and every
/// release before it is strictly older (ties go to the first).
pub open spec fn is_latest_at(releases: Seq<&Release>, i: int) -> bool {
    &&& 0 <= i < releases.len()
    &&& forall|j: int|
        0 <= j < releases.len() && j != i ==> semver_order(
            #[trigger] releases[j].version@,
            releases[i].version@,
        ) <= 0
    &&& forall|j: int|
        0 <= j < i ==> semver_order(#[trigger] releases[j].version@, releases[i].version@) < 0
}

impl Release {
    /// The variant (asset) selected for this platform, if the release has one.
    pub fn get_variant(&self) -> (r: Option<&ReleaseVariant>)
        ensures
            r is None <==> self.variant is None,
            r matches Some(v) ==> self.variant == Some(*v),
    {
        match &self.variant {
            Some(v) => Some(v),
            None => None,
        }
    }

    /// The release with the highest version, the first of equals, or `None`
    /// when there are no releases. The releases are given by reference, so a
    /// caller may pass any selection of them (those with a variant, say).
    pub fn get_latest<'a>(releases: &[&'a Release]) -> (r: Option<&'a Release>)
        ensures
            r is None <==> releases@.len() == 0,
            r matches Some(x) ==> exists|i: int| is_latest_at(releases@, i) && *x == releases@[i],
    {
        let mut latest: Option<&'a Release> = None;
        let ghost mut li: int = 0;
        let mut k: usize = 0;
        while k < releases.len()
            invariant
                k <= releases@.len(),
                latest is None <==> k == 0,
                latest matches Some(x) ==> {
                    &&& 0 <= li < k
                    &&& *x == releases@[li]
                    &&& forall|j: int|
                        0 <= j < k && j != li ==> semver_order(
                            #[trigger] releases@[j].version@,
                            releases@[li].version@,
                        ) <= 0
                    &&& forall|j: int|
                        0 <= j < li ==> semver_order(
                            #[trigger] releases@[j].version@,
                            releases@[li].version@,
                        ) < 0
                },
            decreases releases@.len() - k,
        {
            let r: &'a Release = releases[k];
            match latest {
                None => {
                    latest = Some(r);
                    proof {
                        li = k as int;
                    }
                },
                Some(lr) => {
                    let c = compare_versions(&r.version, &lr.version);
                    if c > 0 {
                        latest = Some(r);
                        proof {
                            li = k as int;
                        }
                    }
                },
            }
            k = k + 1;
        }
        proof {
            if let Some(x) = latest {
                assert(is_latest_at(releases@, li));
            }
        }
        latest
    }

    /// The release as text: its id, with `-beta` appended for a pre-release.
    pub fn to_string(&self) -> (r: String)
        ensures
            r@ == (if self.prerelease {
                self.id@ + seq!['-', 'b', 'e', 't', 'a']
            } else {
                self.id@
            }),
    {
        let mut cs = crate::text::chars_of(self.id.as_str());
        if self.prerelease {
            cs.push('-');
            cs.push('b');
            cs.push('e');
            cs.push('t');
            cs.push('a');
            proof {
                assert(cs@ =~= self.id@ + seq!['-', 'b', 'e', 't', 'a']);
            }
        }
        string_of(cs.as_slice())
    }
}

impl PartialEq for Release {
    fn eq(&self, other: &Release) -> (r: bool) {
        self.id == other.id
    }
}

impl vstd::std_specs::cmp::PartialEqSpecImpl for Release {
    open spec fn obeys_eq_spec() -> bool {
        true
    }

    open spec fn eq_spec(&self, other: &Release) -> bool {
        self.id@ == other.id@
    }
}

} // verus!
