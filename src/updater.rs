//! Decisions of the self-update: whether a release is newer than this build
//! and which of its assets is the Linux binary.

use vstd::prelude::*;
use crate::text::{lower_of, lowercase, seq_contains, seq_ends_with, text_contains, text_ends_with};

verus! {

/// Whether semver accepts the text as a version.
pub uninterp spec fn semver_parses(s: Seq<char>) -> bool;

/// Whether the version that the first text spells comes after the one that
/// the second spells, in semver's order.
pub uninterp spec fn semver_newer(a: Seq<char>, b: Seq<char>) -> bool;

/// Relies on semver's Version::parse, which accepts or refuses the text by
/// its characters alone.
#[verifier::external_body]
fn semver_valid(s: &str) -> (r: bool)
    ensures
        r == semver_parses(s@),
{
    semver::Version::parse(s).is_ok()
}

/// Relies on semver's Version::parse and the order of `Version`
/// (precedence, then build metadata), which depend on the two texts alone.
#[verifier::external_body]
fn semver_greater(a: &str, b: &str) -> (r: bool)
    requires
        semver_parses(a@),
        semver_parses(b@),
    ensures
        r == semver_newer(a@, b@),
{
    semver::Version::parse(a).unwrap() > semver::Version::parse(b).unwrap()
}

/// The version of this build.
pub const CURRENT_VERSION: &'static str = "0.1.0";

/// The version of this build.
pub fn current_version() -> (r: &'static str)
    ensures
        r@ == CURRENT_VERSION@,
{
    CURRENT_VERSION
}

/// A downloadable file of a release.
#[derive(Debug, Clone)]
pub struct GitHubAsset {
    pub name: String,
    pub browser_download_url: String,
    pub size: u64,
}

/// A release tag or version that semver cannot read.
#[derive(Debug, Clone, Copy, PartialEq, Eq, Structural)]
pub enum VersionError {
    BadVersion,
}

/// The text without its leading `v`s.
pub open spec fn without_v(s: Seq<char>) -> Seq<char>
    decreases s.len(),
{
    if s.len() > 0 && s[0] == 'v' {
        without_v(s.drop_first())
    } else {
        s
    }
}

/// The version text of a release tag: the tag without its leading `v`s.
pub fn version_text(tag: &str) -> (r: String)
    ensures
        r@ == without_v(tag@),
{
    let n = tag.unicode_len();
    let mut i: usize = 0;
    assert(tag@.subrange(0, n as int) == tag@);
    while i < n && tag.get_char(i) == 'v'
        invariant
            i <= n == tag@.len(),
            without_v(tag@) == without_v(tag@.subrange(i as int, n as int)),
        decreases n - i,
    {
        proof {
            assert(tag@.subrange(i as int, n as int).drop_first() == tag@.subrange(i + 1, n as int));
        }
        i += 1;
    }
    String::from_str(tag.substring_char(i, n))
}

/// The tag of the latest release when it is newer than `current`, `None` when
/// it is not; an error when either cannot be read as a version.
pub fn newer_release(tag: &str, current: &str) -> (r: Result<Option<String>, VersionError>)
    ensures
        r.is_err() <==> !(semver_parses(without_v(tag@)) && semver_parses(current@)),
        match r {
            Ok(Some(t)) => t@ == tag@ && semver_newer(without_v(tag@), current@),
            Ok(None) => !semver_newer(without_v(tag@), current@),
            Err(_) => true,
        },
{
    let text = version_text(tag);
    if !(semver_valid(text.as_str()) && semver_valid(current)) {
        return Err(VersionError::BadVersion);
    }
    if semver_greater(text.as_str(), current) {
        Ok(Some(String::from_str(tag)))
    } else {
        Ok(None)
    }
}

/// Number of asset name patterns.
pub const BINARY_PATTERNS: usize = 6;

/// The asset name patterns, in order of preference.
pub open spec fn binary_pattern(i: int) -> Seq<char> {
    if i == 0 {
        "scope-linux-x86_64"@
    } else if i == 1 {
        "scope-linux-amd64"@
    } else if i == 2 {
        "scope-x86_64-linux"@
    } else if i == 3 {
        "scope_amd64"@
    } else if i == 4 {
        "scope-linux"@
    } else {
        "scope"@
    }
}

fn binary_pattern_at(i: usize) -> (r: &'static str)
    requires
        i < BINARY_PATTERNS,
    ensures
        r@ == binary_pattern(i as int),
{
    if i == 0 {
        "scope-linux-x86_64"
    } else if i == 1 {
        "scope-linux-amd64"
    } else if i == 2 {
        "scope-x86_64-linux"
    } else if i == 3 {
        "scope_amd64"
    } else if i == 4 {
        "scope-linux"
    } else {
        "scope"
    }
}

/// Whether the asset's name, in lower case, holds the pattern and is not a
/// Debian package or a tarball.
pub open spec fn asset_fits(a: GitHubAsset, pattern: Seq<char>) -> bool {
    let l = lower_of(a.name@);
    seq_contains(l, pattern) && !seq_ends_with(l, ".deb"@) && !seq_ends_with(l, ".tar.gz"@)
}

/// The first asset from position `j` on that fits the pattern.
pub open spec fn first_fitting(assets: Seq<GitHubAsset>, pattern: Seq<char>, j: int) -> Option<int>
    decreases assets.len() - j,
{
    if j < 0 || j >= assets.len() {
        None
    } else if asset_fits(assets[j], pattern) {
        Some(j)
    } else {
        first_fitting(assets, pattern, j + 1)
    }
}

/// The first asset from position `j` on named exactly `scope`.
pub open spec fn first_plain(assets: Seq<GitHubAsset>, j: int) -> Option<int>
    decreases assets.len() - j,
{
    if j < 0 || j >= assets.len() {
        None
    } else if assets[j].name@ == "scope"@ {
        Some(j)
    } else {
        first_plain(assets, j + 1)
    }
}

/// The asset chosen by the patterns from the `i`-th on, in order of
/// preference, then by the exact name `scope`.
pub open spec fn chosen_asset(assets: Seq<GitHubAsset>, i: int) -> Option<int>
    decreases BINARY_PATTERNS - i,
{
    if i >= BINARY_PATTERNS {
        first_plain(assets, 0)
    } else {
        match first_fitting(assets, binary_pattern(i), 0) {
            Some(j) => Some(j),
            None => chosen_asset(assets, i + 1),
        }
    }
}

fn fits(a: &GitHubAsset, pattern: &str) -> (r: bool)
    ensures
        r == asset_fits(*a, pattern@),
{
    let l = lowercase(a.name.as_str());
    text_contains(l.as_str(), pattern) && !text_ends_with(l.as_str(), ".deb") && !text_ends_with(
        l.as_str(),
        ".tar.gz",
    )
}

/// Position of the release asset that is the Linux binary: the first that
/// fits the most preferred pattern, else one named exactly `scope`.
pub fn find_linux_binary(assets: &Vec<GitHubAsset>) -> (r: Option<usize>)
    ensures
        match r {
            Some(j) => chosen_asset(assets@, 0) == Some(j as int),
            None => chosen_asset(assets@, 0).is_none(),
        },
{
    let n = assets.len();
    let mut i: usize = 0;
    while i < BINARY_PATTERNS
        invariant
            i <= BINARY_PATTERNS,
            n == assets@.len(),
            chosen_asset(assets@, 0) == chosen_asset(assets@, i as int),
        decreases BINARY_PATTERNS - i,
    {
        let pattern = binary_pattern_at(i);
        let mut j: usize = 0;
        while j < n
            invariant
                j <= n == assets@.len(),
                i < BINARY_PATTERNS,
                pattern@ == binary_pattern(i as int),
                chosen_asset(assets@, 0) == chosen_asset(assets@, i as int),
                first_fitting(assets@, pattern@, 0) == first_fitting(assets@, pattern@, j as int),
            decreases n - j,
        {
            if fits(&assets[j], pattern) {
                assert(first_fitting(assets@, pattern@, j as int) == Some(j as int));
                assert(chosen_asset(assets@, i as int) == Some(j as int));
                return Some(j);
            }
            j += 1;
        }
        i += 1;
    }
    assert(chosen_asset(assets@, 0) == first_plain(assets@, 0));
    let plain = String::from_str("scope");
    let mut j: usize = 0;
    while j < n
        invariant
            j <= n == assets@.len(),
            plain@ == "scope"@,
            chosen_asset(assets@, 0) == first_plain(assets@, 0),
            first_plain(assets@, 0) == first_plain(assets@, j as int),
        decreases n - j,
    {
        if assets[j].name == plain {
            return Some(j);
        }
        j += 1;
    }
    None
}

} // verus!
