//! Names and versions of AppImages, read from their file names.

use vstd::prelude::*;
use crate::text::{seq_ends_with, text_ends_with};
use crate::updates::opt_view;

verus! {

/// Group 1 of the first match of the regular expression `pattern` in `text`;
/// `None` when the pattern is invalid, nothing matches or the group took part
/// in no match.
pub uninterp spec fn regex_group_one(pattern: Seq<char>, text: Seq<char>) -> Option<Seq<char>>;

/// `text` with the first match of the regular expression `pattern` removed;
/// `None` when the pattern is invalid.
pub uninterp spec fn regex_without_first(pattern: Seq<char>, text: Seq<char>) -> Option<Seq<char>>;

/// Relies on regex's Regex::new, Regex::captures and Captures::get: group 1
/// of the leftmost-first match, which depends on the pattern and the text alone.
#[verifier::external_body]
fn first_group(pattern: &str, text: &str) -> (r: Option<String>)
    ensures
        opt_view(r) == regex_group_one(pattern@, text@),
{
    let re = regex::Regex::new(pattern).ok()?;
    re.captures(text).and_then(|c| c.get(1)).map(|m| m.as_str().to_string())
}

/// Relies on regex's Regex::new and Regex::replace with an empty replacement:
/// the first match taken out, which depends on the pattern and the text alone.
#[verifier::external_body]
fn without_first_match(pattern: &str, text: &str) -> (r: Option<String>)
    ensures
        opt_view(r) == regex_without_first(pattern@, text@),
{
    regex::Regex::new(pattern).ok().map(|re| re.replace(text, "").to_string())
}

/// `s` with every trailing repetition of `suffix` taken off.
pub open spec fn trim_suffix_all(s: Seq<char>, suffix: Seq<char>) -> Seq<char>
    decreases s.len(),
{
    if suffix.len() > 0 && seq_ends_with(s, suffix) {
        trim_suffix_all(s.subrange(0, s.len() - suffix.len()), suffix)
    } else {
        s
    }
}

/// `s` with every trailing repetition of `suffix` taken off.
pub fn trim_suffix(s: &str, suffix: &str) -> (r: String)
    ensures
        r@ == trim_suffix_all(s@, suffix@),
{
    let mut cur = String::from_str(s);
    if suffix.unicode_len() == 0 {
        return cur;
    }
    let k = suffix.unicode_len();
    while text_ends_with(cur.as_str(), suffix)
        invariant
            trim_suffix_all(cur@, suffix@) == trim_suffix_all(s@, suffix@),
            k == suffix@.len() > 0,
        decreases cur@.len(),
    {
        let n = cur.as_str().unicode_len();
        let shorter = String::from_str(cur.as_str().substring_char(0, n - k));
        cur = shorter;
    }
    cur
}

/// The file name without its AppImage extension.
pub open spec fn app_stem(filename: Seq<char>) -> Seq<char> {
    trim_suffix_all(trim_suffix_all(filename, ".AppImage"@), ".appimage"@)
}

fn stem(filename: &str) -> (r: String)
    ensures
        r@ == app_stem(filename@),
{
    let a = trim_suffix(filename, ".AppImage");
    trim_suffix(a.as_str(), ".appimage")
}

/// Number of version patterns.
pub const VERSION_PATTERNS: usize = 3;

/// Number of suffix patterns taken off names.
pub const NAME_PATTERNS: usize = 4;

/// The version patterns, tried in order: `App-1.2.3`, `App_v1.2.3`, a
/// trailing version.
pub open spec fn version_pattern(i: int) -> Seq<char> {
    if i == 0 {
        "-(\\d+\\.\\d+\\.?\\d*)[-_]?"@
    } else if i == 1 {
        "_v?(\\d+\\.\\d+\\.?\\d*)[-_]?"@
    } else {
        "[_-](\\d+\\.\\d+\\.?\\d*)$"@
    }
}

/// The suffixes taken off names, in order: a version, then an architecture
/// or platform tag.
pub open spec fn name_pattern(i: int) -> Seq<char> {
    if i == 0 {
        "[-_]v?\\d+\\.\\d+.*$"@
    } else if i == 1 {
        "[-_]x86_64.*$"@
    } else if i == 2 {
        "[-_]amd64.*$"@
    } else {
        "[-_]linux.*$"@
    }
}

fn version_pattern_at(i: usize) -> (r: &'static str)
    requires
        i < VERSION_PATTERNS,
    ensures
        r@ == version_pattern(i as int),
{
    if i == 0 {
        "-(\\d+\\.\\d+\\.?\\d*)[-_]?"
    } else if i == 1 {
        "_v?(\\d+\\.\\d+\\.?\\d*)[-_]?"
    } else {
        "[_-](\\d+\\.\\d+\\.?\\d*)$"
    }
}

fn name_pattern_at(i: usize) -> (r: &'static str)
    requires
        i < NAME_PATTERNS,
    ensures
        r@ == name_pattern(i as int),
{
    if i == 0 {
        "[-_]v?\\d+\\.\\d+.*$"
    } else if i == 1 {
        "[-_]x86_64.*$"
    } else if i == 2 {
        "[-_]amd64.*$"
    } else {
        "[-_]linux.*$"
    }
}

/// The version group of the first version pattern, from the `i`-th on, that
/// matches; "unknown" when none does.
pub open spec fn version_from(stem: Seq<char>, i: int) -> Seq<char>
    decreases VERSION_PATTERNS - i,
{
    if i >= VERSION_PATTERNS {
        "unknown"@
    } else {
        match regex_group_one(version_pattern(i), stem) {
            Some(v) => v,
            None => version_from(stem, i + 1),
        }
    }
}

/// The stem after the first `n` suffix patterns were taken off in turn (an
/// invalid pattern leaves it as it is).
pub open spec fn name_after(stem: Seq<char>, n: int) -> Seq<char>
    decreases n,
{
    if n <= 0 {
        stem
    } else {
        let prev = name_after(stem, n - 1);
        match regex_without_first(name_pattern(n - 1), prev) {
            Some(v) => v,
            None => prev,
        }
    }
}

/// Version of an AppImage read from its file name, "unknown" when it shows
/// none.
pub fn extract_version(filename: &str) -> (r: String)
    ensures
        r@ == version_from(app_stem(filename@), 0),
{
    let name = stem(filename);
    let mut i: usize = 0;
    while i < VERSION_PATTERNS
        invariant
            i <= VERSION_PATTERNS,
            name@ == app_stem(filename@),
            version_from(name@, 0) == version_from(name@, i as int),
        decreases VERSION_PATTERNS - i,
    {
        if let Some(v) = first_group(version_pattern_at(i), name.as_str()) {
            return v;
        }
        i += 1;
    }
    String::from_str("unknown")
}

/// Name of an AppImage: its file name without extension, version and
/// architecture or platform tags.
pub fn extract_name(filename: &str) -> (r: String)
    ensures
        r@ == name_after(app_stem(filename@), NAME_PATTERNS as int),
{
    let name = stem(filename);
    let mut clean = String::from_str(name.as_str());
    let mut i: usize = 0;
    while i < NAME_PATTERNS
        invariant
            i <= NAME_PATTERNS,
            name@ == app_stem(filename@),
            clean@ == name_after(name@, i as int),
        decreases NAME_PATTERNS - i,
    {
        if let Some(v) = without_first_match(name_pattern_at(i), clean.as_str()) {
            clean = v;
        }
        i += 1;
    }
    clean
}

} // verus!
