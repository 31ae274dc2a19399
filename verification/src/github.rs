//! Releases published on GitHub: where to fetch them, how to read the
//! releases API's answer, and which asset of a release to download.
use vstd::prelude::*;
use crate::glob::glob_matches;
use crate::integrity::{parse_sha256_digest, sha256_from_digest_field};
use crate::release::{
    Release, ReleaseVariant, ReleaseVariantView, ReleaseVersion, ReleaseView, semver_parse,
};
use crate::text::{chars_of, push_str, string_of};

verus! {

/// A source of releases in a GitHub repository's releases API.
///
/// The asset to download is chosen by a glob pattern (`*` and `?`) matched
/// against each asset's whole file name; the first matching asset is taken.
/// `release_tag_prefix` is stripped from each tag before the rest is parsed as
/// a semantic version, and releases whose tags do not parse are left out.
#[derive(Debug)]
pub struct GitHubSource {
    github_endpoint: String,
    github_api: String,
    repo: String,
    asset_pattern: String,
    release_tag_prefix: String,
}

pub struct GitHubSourceView {
    pub github_endpoint: Seq<char>,
    pub github_api: Seq<char>,
    pub repo: Seq<char>,
    pub asset_pattern: Seq<char>,
    pub release_tag_prefix: Seq<char>,
}

impl View for GitHubSource {
    type V = GitHubSourceView;

    closed spec fn view(&self) -> GitHubSourceView {
        GitHubSourceView {
            github_endpoint: self.github_endpoint@,
            github_api: self.github_api@,
            repo: self.repo@,
            asset_pattern: self.asset_pattern@,
            release_tag_prefix: self.release_tag_prefix@,
        }
    }
}

/// A release as the GitHub releases API describes it.
#[derive(Debug, Clone)]
pub struct GitHubRelease {
    pub name: String,
    pub tag_name: String,
    pub body: String,
    pub prerelease: bool,
    pub assets: Vec<GitHubAsset>,
}

/// A release asset as the GitHub releases API describes it; `digest` is
/// `algorithm:hex` where GitHub reports one.
#[derive(Debug, Clone)]
pub struct GitHubAsset {
    pub name: String,
    pub digest: Option<String>,
}

pub struct GitHubAssetView {
    pub name: Seq<char>,
    pub digest: Option<Seq<char>>,
}

pub struct GitHubReleaseView {
    pub tag_name: Seq<char>,
    pub body: Seq<char>,
    pub prerelease: bool,
    pub assets: Seq<GitHubAssetView>,
}

impl View for GitHubAsset {
    type V = GitHubAssetView;

    open spec fn view(&self) -> GitHubAssetView {
        GitHubAssetView {
            name: self.name@,
            digest: match self.digest {
                Some(d) => Some(d@),
                None => None,
            },
        }
    }
}

impl View for GitHubRelease {
    type V = GitHubReleaseView;

    open spec fn view(&self) -> GitHubReleaseView {
        GitHubReleaseView {
            tag_name: self.tag_name@,
            body: self.body@,
            prerelease: self.prerelease,
            assets: self.assets@.map_values(|a: GitHubAsset| a@),
        }
    }
}

/// The variant an asset becomes: its name, and the SHA-256 it reports (if any).
pub open spec fn variant_of(asset: GitHubAssetView) -> ReleaseVariantView {
    ReleaseVariantView {
        name: asset.name,
        sha256: match asset.digest {
            Some(d) => sha256_from_digest_field(d),
            None => None,
        },
    }
}

/// The first asset whose name matches `pattern`, as a variant.
pub open spec fn select_variant(pattern: Seq<char>, assets: Seq<GitHubAssetView>) -> Option<
    ReleaseVariantView,
>
    decreases assets.len(),
{
    if assets.len() == 0 {
        None
    } else if glob_matches(pattern, assets[0].name) {
        Some(variant_of(assets[0]))
    } else {
        select_variant(pattern, assets.drop_first())
    }
}

/// The release a GitHub release becomes: kept when its tag starts with the
/// prefix and the rest of the tag is a semantic version.
pub open spec fn release_entry(source: GitHubSourceView, r: GitHubReleaseView) -> Option<
    ReleaseView,
> {
    let prefix = source.release_tag_prefix;
    if prefix.is_prefix_of(r.tag_name) && semver_parse(r.tag_name.skip(prefix.len() as int)) is Some {
        Some(
            ReleaseView {
                id: r.tag_name,
                changelog: r.body,
                version: semver_parse(r.tag_name.skip(prefix.len() as int))->0,
                prerelease: r.prerelease,
                variant: select_variant(source.asset_pattern, r.assets),
            },
        )
    } else {
        None
    }
}

/// The releases that GitHub releases become, in the order GitHub gave them.
pub open spec fn release_entries(source: GitHubSourceView, rs: Seq<GitHubReleaseView>) -> Seq<
    ReleaseView,
>
    decreases rs.len(),
{
    if rs.len() == 0 {
        Seq::empty()
    } else {
        release_entries(source, rs.drop_last()) + match release_entry(source, rs.last()) {
            Some(x) => seq![x],
            None => Seq::empty(),
        }
    }
}

/// `s` without its trailing `c` characters.
pub open spec fn trim_end_char(s: Seq<char>, c: char) -> Seq<char>
    decreases s.len(),
{
    if s.len() > 0 && s.last() == c {
        trim_end_char(s.drop_last(), c)
    } else {
        s
    }
}

/// The answer class of an HTTP status code, as the source handles it.
#[derive(Debug, Clone, Copy, PartialEq, Eq, Structural)]
pub enum StatusClass {
    /// 200: the body holds what was asked for.
    Success,
    /// 404: the repository or release asset does not exist.
    NotFound,
    /// 403 or 429: GitHub rate-limits the caller.
    RateLimited,
    /// Any other status.
    Unexpected,
}

/// Classify an HTTP status code of a GitHub answer.
pub fn classify_status(status: u16) -> (r: StatusClass)
    ensures
        status == 200 ==> r == StatusClass::Success,
        status == 404 ==> r == StatusClass::NotFound,
        status == 403 || status == 429 ==> r == StatusClass::RateLimited,
        status != 200 && status != 404 && status != 403 && status != 429 ==> r
            == StatusClass::Unexpected,
{
    if status == 200 {
        StatusClass::Success
    } else if status == 404 {
        StatusClass::NotFound
    } else if status == 403 || status == 429 {
        StatusClass::RateLimited
    } else {
        StatusClass::Unexpected
    }
}

fn owned(s: &str) -> (r: String)
    ensures
        r@ == s@,
{
    string_of(chars_of(s).as_slice())
}

fn without_trailing_slashes(s: &str) -> (r: String)
    ensures
        r@ == trim_end_char(s@, '/'),
{
    let cs = chars_of(s);
    let mut n: usize = cs.len();
    assert(cs@.take(n as int) =~= cs@);
    while n > 0 && cs[n - 1] == '/'
        invariant
            n <= cs.len(),
            trim_end_char(cs@, '/') == trim_end_char(cs@.take(n as int), '/'),
        decreases n,
    {
        assert(cs@.take(n as int).drop_last() =~= cs@.take(n - 1));
        n = n - 1;
    }
    let mut out: Vec<char> = Vec::new();
    let mut i: usize = 0;
    while i < n
        invariant
            i <= n <= cs.len(),
            out@ == cs@.take(i as int),
        decreases n - i,
    {
        out.push(cs[i]);
        assert(cs@.take(i + 1) =~= cs@.take(i as int).push(cs@[i as int]));
        i = i + 1;
    }
    string_of(out.as_slice())
}

impl GitHubSource {
    /// A source for the `owner/name` repository `repo`, selecting the asset to
    /// download with the glob `asset_pattern`, on github.com.
    pub fn new(repo: &str, asset_pattern: &str) -> (r: GitHubSource)
        ensures
            r@ == (GitHubSourceView {
                github_endpoint: "https://github.com"@,
                github_api: "https://api.github.com"@,
                repo: repo@,
                asset_pattern: asset_pattern@,
                release_tag_prefix: Seq::empty(),
            }),
    {
        GitHubSource {
            github_endpoint: owned("https://github.com"),
            github_api: owned("https://api.github.com"),
            repo: owned(repo),
            asset_pattern: owned(asset_pattern),
            release_tag_prefix: String::new(),
        }
    }

    /// Strip `prefix` from each release tag before parsing it as a semantic
    /// version (e.g. `"v"` for `vX.Y.Z` tags).
    pub fn with_release_tag_prefix(self, prefix: &str) -> (r: GitHubSource)
        ensures
            r@ == (GitHubSourceView { release_tag_prefix: prefix@, ..self@ }),
    {
        GitHubSource { release_tag_prefix: owned(prefix), ..self }
    }

    /// Use other web (`web`) and API (`api`) endpoints, such as a GitHub
    /// Enterprise instance; trailing slashes are removed.
    pub fn with_github_endpoints(self, web: &str, api: &str) -> (r: GitHubSource)
        ensures
            r@ == (GitHubSourceView {
                github_endpoint: trim_end_char(web@, '/'),
                github_api: trim_end_char(api@, '/'),
                ..self@
            }),
    {
        GitHubSource {
            github_endpoint: without_trailing_slashes(web),
            github_api: without_trailing_slashes(api),
            ..self
        }
    }

    /// The address of the repository's release list: `{api}/repos/{repo}/releases`.
    pub fn releases_uri(&self) -> (r: String)
        ensures
            r@ == self@.github_api + "/repos/"@ + self@.repo + "/releases"@,
    {
        let mut out: Vec<char> = Vec::new();
        push_str(&mut out, self.github_api.as_str());
        push_str(&mut out, "/repos/");
        push_str(&mut out, self.repo.as_str());
        push_str(&mut out, "/releases");
        string_of(out.as_slice())
    }

    /// The download address of a release's variant:
    /// `{web}/{repo}/releases/download/{release id}/{asset name}`.
    pub fn binary_uri(&self, release: &Release, variant: &ReleaseVariant) -> (r: String)
        ensures
            r@ == self@.github_endpoint + "/"@ + self@.repo + "/releases/download/"@ + release.id@
                + "/"@ + variant.name@,
    {
        let mut out: Vec<char> = Vec::new();
        push_str(&mut out, self.github_endpoint.as_str());
        push_str(&mut out, "/");
        push_str(&mut out, self.repo.as_str());
        push_str(&mut out, "/releases/download/");
        push_str(&mut out, release.id.as_str());
        push_str(&mut out, "/");
        push_str(&mut out, variant.name.as_str());
        string_of(out.as_slice())
    }

    /// The source as text: `GitHub - {repo} ({asset pattern})`.
    pub fn describe(&self) -> (r: String)
        ensures
            r@ == "GitHub - "@ + self@.repo + " ("@ + self@.asset_pattern + ")"@,
    {
        let mut out: Vec<char> = Vec::new();
        push_str(&mut out, "GitHub - ");
        push_str(&mut out, self.repo.as_str());
        push_str(&mut out, " (");
        push_str(&mut out, self.asset_pattern.as_str());
        push_str(&mut out, ")");
        string_of(out.as_slice())
    }

    /// The first asset of `release` whose name matches the asset pattern, with
    /// the SHA-256 digest GitHub reported for it (if any).
    pub fn get_variant_from_response(&self, release: &GitHubRelease) -> (r: Option<ReleaseVariant>)
        ensures
            match r {
                Some(v) => select_variant(self@.asset_pattern, release@.assets) == Some(v@),
                None => select_variant(self@.asset_pattern, release@.assets) is None,
            },
    {
        let ghost all = release@.assets;
        let mut i: usize = 0;
        assert(all.skip(0) =~= all);
        while i < release.assets.len()
            invariant
                i <= release.assets.len(),
                all == release.assets@.map_values(|a: GitHubAsset| a@),
                select_variant(self@.asset_pattern, all) == select_variant(
                    self@.asset_pattern,
                    all.skip(i as int),
                ),
            decreases release.assets.len() - i,
        {
            let asset = &release.assets[i];
            assert(all.skip(i as int)[0] == asset@);
            if crate::glob::matches(self.asset_pattern.as_str(), asset.name.as_str()) {
                let sha256 = match &asset.digest {
                    Some(d) => parse_sha256_digest(d.as_str()),
                    None => None,
                };
                return Some(ReleaseVariant { name: asset.name.clone(), sha256 });
            }
            assert(all.skip(i as int).drop_first() =~= all.skip(i + 1));
            i = i + 1;
        }
        None
    }

    /// The release a GitHub release becomes, or `None` when its tag does not
    /// start with the tag prefix or the rest of it is not a semantic version.
    fn release_from_response(&self, r: &GitHubRelease) -> (out: Option<Release>)
        ensures
            match out {
                Some(x) => release_entry(self@, r@) == Some(x@),
                None => release_entry(self@, r@) is None,
            },
    {
        let tag = chars_of(r.tag_name.as_str());
        let prefix = chars_of(self.release_tag_prefix.as_str());
        if tag.len() < prefix.len() {
            return None;
        }
        let mut i: usize = 0;
        while i < prefix.len()
            invariant
                prefix.len() <= tag.len(),
                tag@ == r.tag_name@,
                prefix@ == self@.release_tag_prefix,
                i <= prefix.len(),
                forall|k: int| 0 <= k < i ==> prefix@[k] == tag@[k],
            decreases prefix.len() - i,
        {
            if prefix[i] != tag[i] {
                proof {
                    if prefix@.is_prefix_of(tag@) {
                        assert(prefix@[i as int] == tag@.subrange(0, prefix@.len() as int)[i as int]);
                    }
                }
                return None;
            }
            i = i + 1;
        }
        assert(prefix@ =~= tag@.take(prefix.len() as int));
        let mut rest: Vec<char> = Vec::new();
        let mut j: usize = prefix.len();
        while j < tag.len()
            invariant
                prefix.len() <= j <= tag.len(),
                rest@ == tag@.subrange(prefix.len() as int, j as int),
            decreases tag.len() - j,
        {
            rest.push(tag[j]);
            assert(tag@.subrange(prefix.len() as int, j + 1) =~= tag@.subrange(
                prefix.len() as int,
                j as int,
            ).push(tag@[j as int]));
            j = j + 1;
        }
        assert(rest@ =~= r.tag_name@.skip(prefix.len() as int));
        let version_text = string_of(rest.as_slice());
        match ReleaseVersion::parse(version_text.as_str()) {
            Some(version) => Some(
                Release {
                    id: r.tag_name.clone(),
                    changelog: r.body.clone(),
                    version,
                    prerelease: r.prerelease,
                    variant: self.get_variant_from_response(r),
                },
            ),
            None => None,
        }
    }

    /// The releases in the releases API's answer, in order: those whose tag
    /// starts with the tag prefix and whose rest of the tag is a semantic
    /// version, each with the asset the pattern selects.
    pub fn get_releases_from_response(&self, releases: &[GitHubRelease]) -> (r: Vec<Release>)
        ensures
            r@.map_values(|x: Release| x@) == release_entries(
                self@,
                releases@.map_values(|g: GitHubRelease| g@),
            ),
    {
        let ghost all = releases@.map_values(|g: GitHubRelease| g@);
        let mut output: Vec<Release> = Vec::new();
        let mut i: usize = 0;
        while i < releases.len()
            invariant
                i <= releases.len(),
                all == releases@.map_values(|g: GitHubRelease| g@),
                output@.map_values(|x: Release| x@) == release_entries(self@, all.take(i as int)),
            decreases releases.len() - i,
        {
            let entry = self.release_from_response(&releases[i]);
            assert(all.take(i + 1).drop_last() =~= all.take(i as int));
            assert(all.take(i + 1).last() == releases@[i as int]@);
            match entry {
                Some(x) => {
                    output.push(x);
                    assert(output@.map_values(|x: Release| x@) =~= release_entries(
                        self@,
                        all.take(i + 1),
                    ));
                },
                None => {
                    assert(release_entries(self@, all.take(i + 1)) =~= release_entries(
                        self@,
                        all.take(i as int),
                    ));
                },
            }
            i = i + 1;
        }
        assert(all.take(releases.len() as int) =~= all);
        output
    }
}

/// With a pattern that has no wildcards, the only asset that can be selected is
/// the one named exactly like the pattern (never a checksum or signature file
/// beside it), and it is selected whenever the release has it.
pub proof fn law_exact_pattern_selects_only_that_name(
    pattern: Seq<char>,
    assets: Seq<GitHubAssetView>,
)
    requires
        forall|i: int| 0 <= i < pattern.len() ==> #[trigger] pattern[i] != '*' && pattern[i] != '?',
    ensures
        select_variant(pattern, assets) matches Some(v) ==> v.name == pattern,
        (exists|k: int| 0 <= k < assets.len() && #[trigger] assets[k].name == pattern)
            ==> select_variant(pattern, assets) is Some,
    decreases assets.len(),
{
    if assets.len() > 0 {
        crate::glob::law_literal_pattern_matches_only_itself(pattern, assets[0].name);
        law_exact_pattern_selects_only_that_name(pattern, assets.drop_first());
        if exists|k: int| 0 <= k < assets.len() && #[trigger] assets[k].name == pattern {
            let k = choose|k: int| 0 <= k < assets.len() && #[trigger] assets[k].name == pattern;
            if k > 0 {
                assert(assets.drop_first()[k - 1].name == pattern);
            }
        }
    }
}

/// The asset selected is the first one whose name matches the pattern: one is
/// selected exactly when some asset matches, and then it is a matching asset
/// with no matching asset before it, with its own name and the SHA-256 its
/// digest field reports.
pub proof fn law_selects_the_first_matching_asset(pattern: Seq<char>, assets: Seq<GitHubAssetView>)
    ensures
        select_variant(pattern, assets) is Some <==> exists|k: int|
            0 <= k < assets.len() && glob_matches(pattern, #[trigger] assets[k].name),
        select_variant(pattern, assets) matches Some(v) ==> exists|k: int|
            {
                &&& 0 <= k < assets.len()
                &&& glob_matches(pattern, #[trigger] assets[k].name)
                &&& v.name == assets[k].name
                &&& v.sha256 == match assets[k].digest {
                    Some(d) => sha256_from_digest_field(d),
                    None => None,
                }
                &&& forall|j: int| 0 <= j < k ==> !glob_matches(pattern, #[trigger] assets[j].name)
            },
    decreases assets.len(),
{
    if assets.len() > 0 {
        let rest = assets.drop_first();
        law_selects_the_first_matching_asset(pattern, rest);
        if glob_matches(pattern, assets[0].name) {
            assert(glob_matches(pattern, assets[0].name));
        } else {
            if exists|k: int| 0 <= k < assets.len() && glob_matches(pattern, #[trigger] assets[k].name) {
                let k = choose|k: int|
                    0 <= k < assets.len() && glob_matches(pattern, #[trigger] assets[k].name);
                assert(rest[k - 1] == assets[k]);
                assert(glob_matches(pattern, rest[k - 1].name));
            }
            if let Some(v) = select_variant(pattern, rest) {
                let k = choose|k: int|
                    {
                        &&& 0 <= k < rest.len()
                        &&& glob_matches(pattern, #[trigger] rest[k].name)
                        &&& v.name == rest[k].name
                        &&& v.sha256 == match rest[k].digest {
                            Some(d) => sha256_from_digest_field(d),
                            None => None,
                        }
                        &&& forall|j: int| 0 <= j < k ==> !glob_matches(pattern, #[trigger] rest[j].name)
                    };
                assert(assets[k + 1] == rest[k]);
                assert forall|j: int| 0 <= j < k + 1 implies !glob_matches(
                    pattern,
                    #[trigger] assets[j].name,
                ) by {
                    if j > 0 {
                        assert(assets[j] == rest[j - 1]);
                    }
                }
                assert(glob_matches(pattern, assets[k + 1].name));
            }
        }
    }
}

/// Each release read from the API comes from one GitHub release of the
/// answer: its id is that release's tag, its changelog that release's body
/// (the release notes), its pre-release flag that release's flag, and its
/// variant the asset the pattern selects among that release's assets.
pub proof fn law_releases_keep_tag_notes_and_flag(source: GitHubSourceView, rs: Seq<GitHubReleaseView>)
    ensures
        forall|k: int|
            0 <= k < release_entries(source, rs).len() ==> exists|i: int|
                #![trigger rs[i]]
                {
                    let e = #[trigger] release_entries(source, rs)[k];
                    &&& 0 <= i < rs.len()
                    &&& e.id == rs[i].tag_name
                    &&& e.changelog == rs[i].body
                    &&& e.prerelease == rs[i].prerelease
                    &&& e.variant == select_variant(source.asset_pattern, rs[i].assets)
                },
    decreases rs.len(),
{
    if rs.len() > 0 {
        let prev = rs.drop_last();
        law_releases_keep_tag_notes_and_flag(source, prev);
        let before = release_entries(source, prev);
        assert forall|k: int| 0 <= k < release_entries(source, rs).len() implies exists|i: int|
            #![trigger rs[i]]
            {
                let e = #[trigger] release_entries(source, rs)[k];
                &&& 0 <= i < rs.len()
                &&& e.id == rs[i].tag_name
                &&& e.changelog == rs[i].body
                &&& e.prerelease == rs[i].prerelease
                &&& e.variant == select_variant(source.asset_pattern, rs[i].assets)
            } by {
            if k < before.len() {
                assert(release_entries(source, rs)[k] == before[k]);
                let i = choose|i: int|
                    #![trigger prev[i]]
                    {
                        let e = before[k];
                        &&& 0 <= i < prev.len()
                        &&& e.id == prev[i].tag_name
                        &&& e.changelog == prev[i].body
                        &&& e.prerelease == prev[i].prerelease
                        &&& e.variant == select_variant(source.asset_pattern, prev[i].assets)
                    };
                assert(prev[i] == rs[i]);
            } else {
                let i = rs.len() - 1;
                assert(rs[i] == rs.last());
            }
        }
    }
}

/// Every release read from the API keeps its tag as its id, that tag starts
/// with the tag prefix, and its version is what the rest of the tag parses to;
/// no more releases come out than went in.
pub proof fn law_releases_come_from_prefixed_version_tags(
    source: GitHubSourceView,
    rs: Seq<GitHubReleaseView>,
)
    ensures
        release_entries(source, rs).len() <= rs.len(),
        forall|k: int|
            0 <= k < release_entries(source, rs).len() ==> {
                let e = #[trigger] release_entries(source, rs)[k];
                &&& source.release_tag_prefix.is_prefix_of(e.id)
                &&& semver_parse(e.id.skip(source.release_tag_prefix.len() as int)) == Some(
                    e.version,
                )
            },
    decreases rs.len(),
{
    if rs.len() > 0 {
        law_releases_come_from_prefixed_version_tags(source, rs.drop_last());
        let before = release_entries(source, rs.drop_last());
        assert forall|k: int| 0 <= k < release_entries(source, rs).len() implies {
            let e = #[trigger] release_entries(source, rs)[k];
            &&& source.release_tag_prefix.is_prefix_of(e.id)
            &&& semver_parse(e.id.skip(source.release_tag_prefix.len() as int)) == Some(e.version)
        } by {
            if k < before.len() {
                assert(release_entries(source, rs)[k] == before[k]);
            }
        }
    }
}

impl Default for GitHubSource {
    /// A source with no repository that accepts any asset (`*`).
    fn default() -> (r: GitHubSource)
        ensures
            r@ == (GitHubSourceView {
                github_endpoint: "https://github.com"@,
                github_api: "https://api.github.com"@,
                repo: Seq::empty(),
                asset_pattern: "*"@,
                release_tag_prefix: Seq::empty(),
            }),
    {
        let r = GitHubSource::new("", "*");
        proof {
            reveal_strlit("");
            assert(""@ =~= Seq::<char>::empty());
        }
        r
    }
}

} // verus!
