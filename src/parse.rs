//! Reading the listings of the package managers' tools: lines, fields and
//! numbers, then one record per well-formed line; malformed lines are
//! skipped, never fatal.

use vstd::prelude::*;
use crate::package::{AppType, Package, PackageSource};
use crate::text::{lower_of, lowercase, seq_contains, seq_ends_with, text_contains, text_ends_with};

verus! {

/// Relies on str::chars: the characters of the text, in order.
#[verifier::external_body]
fn chars_of(s: &str) -> (r: Vec<char>)
    ensures
        r@ == s@,
{
    s.chars().collect()
}

/// Relies on collecting characters into a String: the same characters.
#[verifier::external_body]
fn string_of(cs: &[char]) -> (r: String)
    ensures
        r@ == cs@,
{
    cs.iter().collect()
}

/// The pieces of `s` between occurrences of `sep` (empty pieces kept).
pub open spec fn split_on(s: Seq<char>, sep: char) -> Seq<Seq<char>>
    decreases s.len(),
{
    if s.len() == 0 {
        seq![seq![]]
    } else {
        let p = split_on(s.drop_last(), sep);
        if s.last() == sep {
            p.push(seq![])
        } else {
            p.update(p.len() - 1, p.last().push(s.last()))
        }
    }
}

proof fn lemma_split_nonempty(s: Seq<char>, sep: char)
    ensures
        split_on(s, sep).len() >= 1,
    decreases s.len(),
{
    if s.len() > 0 {
        lemma_split_nonempty(s.drop_last(), sep);
    }
}

/// White space as Unicode's White_Space property has it (what
/// `char::is_whitespace` tests).
pub open spec fn is_space(c: char) -> bool {
    ('\t' <= c <= '\r') || c == ' ' || c == '\u{85}' || c == '\u{a0}' || c == '\u{1680}' || (
    '\u{2000}' <= c <= '\u{200a}') || c == '\u{2028}' || c == '\u{2029}' || c == '\u{202f}' || c
        == '\u{205f}' || c == '\u{3000}'
}

/// Whether the character is white space.
pub fn is_white(c: char) -> (r: bool)
    ensures
        r == is_space(c),
{
    ('\t' <= c && c <= '\r') || c == ' ' || c == '\u{85}' || c == '\u{a0}' || c == '\u{1680}' || (
    '\u{2000}' <= c && c <= '\u{200a}') || c == '\u{2028}' || c == '\u{2029}' || c == '\u{202f}'
        || c == '\u{205f}' || c == '\u{3000}'
}

/// The maximal runs of non-space characters of `s`.
pub open spec fn words(s: Seq<char>) -> Seq<Seq<char>>
    decreases s.len(),
{
    if s.len() == 0 {
        seq![]
    } else {
        let p = words(s.drop_last());
        if is_space(s.last()) {
            p
        } else if s.len() >= 2 && !is_space(s[s.len() - 2]) && p.len() > 0 {
            p.update(p.len() - 1, p.last().push(s.last()))
        } else {
            p.push(seq![s.last()])
        }
    }
}

/// A line without its trailing carriage return.
pub open spec fn strip_cr(l: Seq<char>) -> Seq<char> {
    if l.len() > 0 && l.last() == '\r' {
        l.drop_last()
    } else {
        l
    }
}

/// The lines of a text: pieces between line feeds, without a trailing
/// carriage return, and no empty last line after a final line feed.
pub open spec fn text_lines(s: Seq<char>) -> Seq<Seq<char>> {
    let parts = split_on(s, '\n');
    let kept = if s.len() == 0 || s.last() == '\n' {
        parts.drop_last()
    } else {
        parts
    };
    kept.map_values(|l: Seq<char>| strip_cr(l))
}

/// The value of a run of decimal digits, most significant first.
pub open spec fn digits_value(s: Seq<char>) -> nat
    decreases s.len(),
{
    if s.len() == 0 {
        0
    } else {
        digits_value(s.drop_last()) * 10 + (s.last() as u32 - '0' as u32) as nat
    }
}

/// Whether every character is a decimal digit.
pub open spec fn all_digits(s: Seq<char>) -> bool {
    forall|i: int| 0 <= i < s.len() ==> '0' <= #[trigger] s[i] <= '9'
}

/// The text without its leading `+`, if any.
pub open spec fn unsigned_digits(s: Seq<char>) -> Seq<char> {
    if s.len() > 0 && s[0] == '+' {
        s.drop_first()
    } else {
        s
    }
}

/// The unsigned number that the text spells (an optional `+`, then at least
/// one digit), if it fits in 64 bits.
pub open spec fn number_of(s: Seq<char>) -> Option<u64> {
    let d = unsigned_digits(s);
    if d.len() > 0 && all_digits(d) && digits_value(d) <= u64::MAX {
        Some(digits_value(d) as u64)
    } else {
        None
    }
}

/// Splits characters at every `sep`.
fn split_chars(s: &Vec<char>, sep: char) -> (r: Vec<Vec<char>>)
    ensures
        r@.map_values(|v: Vec<char>| v@) == split_on(s@, sep),
{
    let mut out: Vec<Vec<char>> = Vec::new();
    out.push(Vec::new());
    let n = s.len();
    let mut i: usize = 0;
    assert(s@.subrange(0, 0) =~= Seq::<char>::empty());
    assert(out@.map_values(|v: Vec<char>| v@) =~= split_on(s@.subrange(0, 0), sep));
    while i < n
        invariant
            i <= n == s@.len(),
            out@.len() >= 1,
            out@.map_values(|v: Vec<char>| v@) == split_on(s@.subrange(0, i as int), sep),
        decreases n - i,
    {
        let c = s[i];
        let ghost pre = s@.subrange(0, i as int);
        let ghost cur = s@.subrange(0, i + 1);
        assert(cur.drop_last() =~= pre);
        if c == sep {
            out.push(Vec::new());
            assert(out@.map_values(|v: Vec<char>| v@) =~= split_on(cur, sep));
        } else {
            let mut piece = out.pop().unwrap();
            piece.push(c);
            out.push(piece);
            assert(out@.map_values(|v: Vec<char>| v@) =~= split_on(cur, sep));
        }
        i += 1;
    }
    assert(s@.subrange(0, n as int) =~= s@);
    out
}


/// The views of a list of character vectors.
pub open spec fn views(v: Seq<Vec<char>>) -> Seq<Seq<char>> {
    v.map_values(|x: Vec<char>| x@)
}

/// Splits a text into its lines.
fn lines_of(s: &Vec<char>) -> (r: Vec<Vec<char>>)
    ensures
        views(r@) == text_lines(s@),
{
    let parts = split_chars(s, '\n');
    proof {
        lemma_split_nonempty(s@, '\n');
    }
    let mut parts = parts;
    let ghost all = views(parts@);
    if s.len() == 0 || s[s.len() - 1] == '\n' {
        parts.pop();
        assert(views(parts@) =~= all.drop_last());
    }
    let ghost kept = views(parts@);
    let mut out: Vec<Vec<char>> = Vec::new();
    let n = parts.len();
    let mut i: usize = 0;
    while i < n
        invariant
            i <= n == parts@.len(),
            kept == views(parts@),
            out@.len() == i,
            forall|k: int| 0 <= k < i ==> (#[trigger] out@[k])@ == strip_cr(kept[k]),
        decreases n - i,
    {
        let mut line = parts[i].clone();
        assert(line@ == kept[i as int]);
        if line.len() > 0 && line[line.len() - 1] == '\r' {
            line.pop();
            assert(line@ =~= kept[i as int].drop_last());
        }
        assert(line@ == strip_cr(kept[i as int]));
        out.push(line);
        i += 1;
    }
    assert(views(out@) =~= kept.map_values(|l: Seq<char>| strip_cr(l)));
    out
}

/// Splits characters into the maximal runs of non-space characters.
fn words_of(s: &Vec<char>) -> (r: Vec<Vec<char>>)
    ensures
        views(r@) == words(s@),
{
    let mut out: Vec<Vec<char>> = Vec::new();
    let n = s.len();
    let mut i: usize = 0;
    assert(s@.subrange(0, 0) =~= Seq::<char>::empty());
    while i < n
        invariant
            i <= n == s@.len(),
            views(out@) == words(s@.subrange(0, i as int)),
        decreases n - i,
    {
        let c = s[i];
        let ghost pre = s@.subrange(0, i as int);
        let ghost cur = s@.subrange(0, i + 1);
        assert(cur.drop_last() =~= pre);
        let space = is_white(c);
        if !space {
            let extend = i >= 1 && !is_white(s[i - 1]) && out.len() > 0;
            if extend {
                let mut w = out.pop().unwrap();
                w.push(c);
                out.push(w);
            } else {
                let mut w: Vec<char> = Vec::new();
                w.push(c);
                out.push(w);
            }
        }
        assert(views(out@) =~= words(cur));
        i += 1;
    }
    assert(s@.subrange(0, n as int) =~= s@);
    out
}

/// Reads an unsigned decimal number: an optional `+`, then digits only.
pub fn parse_number(s: &str) -> (r: Option<u64>)
    ensures
        r == number_of(s@),
{
    let cs = chars_of(s);
    number_in(&cs)
}

fn number_in(cs: &Vec<char>) -> (r: Option<u64>)
    ensures
        r == number_of(cs@),
{
    let ghost s = cs@;
    let n = cs.len();
    let start: usize = if n > 0 && cs[0] == '+' {
        1
    } else {
        0
    };
    let ghost d = unsigned_digits(s);
    assert(d =~= cs@.subrange(start as int, n as int));
    if start >= n {
        return None;
    }
    let mut value: u64 = 0;
    let mut overflow = false;
    let mut i: usize = start;
    assert(cs@.subrange(start as int, start as int) =~= Seq::<char>::empty());
    while i < n
        invariant
            start <= i <= n == cs@.len(),
            d == cs@.subrange(start as int, n as int),
            d == unsigned_digits(s),
            s == cs@,
            all_digits(cs@.subrange(start as int, i as int)),
            !overflow ==> value as nat == digits_value(cs@.subrange(start as int, i as int)),
            overflow ==> digits_value(cs@.subrange(start as int, i as int)) > u64::MAX,
        decreases n - i,
    {
        let c = cs[i];
        if !('0' <= c && c <= '9') {
            assert(!all_digits(d)) by {
                assert(d[i - start] == c);
            }
            assert(number_of(s).is_none());
            return None;
        }
        let ghost pre = cs@.subrange(start as int, i as int);
        let ghost cur = cs@.subrange(start as int, i + 1);
        assert(cur.drop_last() =~= pre);
        let digit = (c as u32 - '0' as u32) as u64;
        if !overflow {
            let next = (value as u128) * 10 + digit as u128;
            if next > u64::MAX as u128 {
                overflow = true;
            } else {
                value = next as u64;
            }
        }
        i += 1;
    }
    assert(cs@.subrange(start as int, n as int) == d);
    if overflow {
        None
    } else {
        Some(value)
    }
}


/// Whether `s` begins with `prefix`.
pub open spec fn seq_starts_with(s: Seq<char>, prefix: Seq<char>) -> bool {
    prefix.len() <= s.len() && s.subrange(0, prefix.len() as int) == prefix
}

/// The pieces joined by single spaces.
pub open spec fn joined(pieces: Seq<Seq<char>>) -> Seq<char>
    decreases pieces.len(),
{
    if pieces.len() == 0 {
        seq![]
    } else if pieces.len() == 1 {
        pieces[0]
    } else {
        joined(pieces.drop_last()) + seq![' '] + pieces.last()
    }
}

fn same_chars(a: &Vec<char>, b: &Vec<char>) -> (r: bool)
    ensures
        r == (a@ == b@),
{
    if a.len() != b.len() {
        return false;
    }
    let mut i: usize = 0;
    while i < a.len()
        invariant
            i <= a@.len() == b@.len(),
            forall|k: int| 0 <= k < i ==> a@[k] == b@[k],
        decreases a@.len() - i,
    {
        if a[i] != b[i] {
            return false;
        }
        i += 1;
    }
    assert(a@ =~= b@);
    true
}

fn begins_with(s: &Vec<char>, prefix: &str) -> (r: bool)
    ensures
        r == seq_starts_with(s@, prefix@),
{
    let p = chars_of(prefix);
    if p.len() > s.len() {
        return false;
    }
    let mut i: usize = 0;
    while i < p.len()
        invariant
            i <= p@.len() <= s@.len(),
            p@ == prefix@,
            forall|k: int| 0 <= k < i ==> s@[k] == p@[k],
        decreases p@.len() - i,
    {
        if s[i] != p[i] {
            assert(s@.subrange(0, p@.len() as int)[i as int] != p@[i as int]);
            return false;
        }
        i += 1;
    }
    assert(s@.subrange(0, p@.len() as int) =~= p@);
    true
}

fn join_pieces(pieces: &Vec<Vec<char>>, start: usize) -> (r: Vec<char>)
    requires
        start <= pieces@.len(),
    ensures
        r@ == joined(views(pieces@).subrange(start as int, pieces@.len() as int)),
{
    let n = pieces.len();
    let mut out: Vec<char> = Vec::new();
    let mut i: usize = start;
    assert(views(pieces@).subrange(start as int, start as int) =~= Seq::<Seq<char>>::empty());
    while i < n
        invariant
            start <= i <= n == pieces@.len(),
            out@ == joined(views(pieces@).subrange(start as int, i as int)),
        decreases n - i,
    {
        let ghost pre = views(pieces@).subrange(start as int, i as int);
        let ghost cur = views(pieces@).subrange(start as int, i + 1);
        assert(cur.drop_last() =~= pre);
        assert(cur.last() == pieces@[i as int]@);
        if i > start {
            out.push(' ');
        }
        let mut k: usize = 0;
        let ghost base = out@;
        while k < pieces[i].len()
            invariant
                k <= pieces@[i as int]@.len(),
                i < n == pieces@.len(),
                out@ == base + pieces@[i as int]@.subrange(0, k as int),
            decreases pieces@[i as int]@.len() - k,
        {
            out.push(pieces[i][k]);
            assert(pieces@[i as int]@.subrange(0, k + 1) =~= pieces@[i as int]@.subrange(0, k as int).push(pieces@[i as int]@[k as int]));
            k += 1;
        }
        assert(pieces@[i as int]@.subrange(0, k as int) =~= pieces@[i as int]@);
        if i == start {
            assert(cur.len() == 1);
            assert(out@ =~= joined(cur));
        } else {
            assert(out@ =~= joined(cur));
        }
        i += 1;
    }
    out
}

/// The listings that the package managers' tools print, one entry per line.
#[derive(Debug, Clone, Copy, PartialEq, Eq, Structural)]
pub enum Listing {
    /// `apt list --upgradable`: a header, then `name/suite version arch [...]`
    AptUpgradable,
    /// `snap refresh --list`: a header, then `name version ...`
    SnapRefresh,
    /// `flatpak remote-ls --updates --columns=name,version`: `name<TAB>version`
    FlatpakUpdates,
    /// `snap list`: a header, then `name version rev tracking ...`; the
    /// snaps of the system itself (`snapd`, `core*`, `bare*`) are left out
    SnapInstalled,
}

/// Number of header lines before the entries.
pub open spec fn header_lines(f: Listing) -> int {
    match f {
        Listing::FlatpakUpdates => 0,
        _ => 1,
    }
}

/// The (name, version) pair that a line of the listing gives, if it is well formed.
pub open spec fn listing_entry(f: Listing, line: Seq<char>) -> Option<(Seq<char>, Seq<char>)> {
    match f {
        Listing::AptUpgradable => if words(line).len() >= 2 {
            Some((split_on(line, '/')[0], words(line)[1]))
        } else {
            None
        },
        Listing::SnapRefresh => if words(line).len() >= 2 {
            Some((words(line)[0], words(line)[1]))
        } else {
            None
        },
        Listing::FlatpakUpdates => if split_on(line, '\t').len() >= 2 {
            Some((split_on(line, '\t')[0], split_on(line, '\t')[1]))
        } else {
            None
        },
        Listing::SnapInstalled => {
            let w = words(line);
            if w.len() >= 4 && !(w[0] == "snapd"@ || seq_starts_with(w[0], "core"@)
                || seq_starts_with(w[0], "bare"@)) {
                Some((w[0], w[1]))
            } else {
                None
            }
        },
    }
}

/// The entries of the first `n` lines, headers skipped.
pub open spec fn listing_entries(f: Listing, lines: Seq<Seq<char>>, n: int) -> Seq<(Seq<char>, Seq<char>)>
    decreases n,
{
    if n <= header_lines(f) || n > lines.len() {
        seq![]
    } else {
        let prev = listing_entries(f, lines, n - 1);
        match listing_entry(f, lines[n - 1]) {
            Some(e) => prev.push(e),
            None => prev,
        }
    }
}

/// The views of a list of string pairs.
pub open spec fn pair_views(s: Seq<(String, String)>) -> Seq<(Seq<char>, Seq<char>)> {
    s.map_values(|p: (String, String)| (p.0@, p.1@))
}

/// The (name, version) entries of a listing, in order; malformed lines are
/// skipped.
pub fn parse_listing(text: &str, format: Listing) -> (r: Vec<(String, String)>)
    ensures
        pair_views(r@) == listing_entries(format, text_lines(text@), text_lines(text@).len() as int),
{
    let cs = chars_of(text);
    let lines = lines_of(&cs);
    let n = lines.len();
    let skip: usize = match format {
        Listing::FlatpakUpdates => 0,
        _ => 1,
    };
    let mut out: Vec<(String, String)> = Vec::new();
    let mut i: usize = if skip < n { skip } else { n };
    let ghost ls = views(lines@);
    assert(pair_views(out@) =~= listing_entries(format, ls, i as int));
    while i < n
        invariant
            i <= n == lines@.len(),
            i >= skip || i == n,
            skip as int == header_lines(format),
            ls == views(lines@),
            pair_views(out@) == listing_entries(format, ls, i as int),
        decreases n - i,
    {
        let line = &lines[i];
        assert(line@ == ls[i as int]);
        let entry: Option<(String, String)> = match format {
            Listing::AptUpgradable => {
                let w = words_of(line);
                if w.len() >= 2 {
                    let parts = split_chars(line, '/');
                    proof {
                        lemma_split_nonempty(line@, '/');
                    }
                    Some((string_of(parts[0].as_slice()), string_of(w[1].as_slice())))
                } else {
                    None
                }
            },
            Listing::SnapRefresh => {
                let w = words_of(line);
                if w.len() >= 2 {
                    Some((string_of(w[0].as_slice()), string_of(w[1].as_slice())))
                } else {
                    None
                }
            },
            Listing::FlatpakUpdates => {
                let parts = split_chars(line, '\t');
                if parts.len() >= 2 {
                    Some((string_of(parts[0].as_slice()), string_of(parts[1].as_slice())))
                } else {
                    None
                }
            },
            Listing::SnapInstalled => {
                let w = words_of(line);
                if w.len() >= 4 && !(begins_with(&w[0], "snapd") && w[0].len() == 5 || begins_with(
                    &w[0],
                    "core",
                ) || begins_with(&w[0], "bare")) {
                    Some((string_of(w[0].as_slice()), string_of(w[1].as_slice())))
                } else {
                    None
                }
            },
        };
        proof {
            reveal_strlit("snapd");
            if format == Listing::SnapInstalled && words(line@).len() >= 4 {
                let w0 = words(line@)[0];
                assert((seq_starts_with(w0, "snapd"@) && w0.len() == 5) == (w0 == "snapd"@)) by {
                    assert("snapd"@.len() == 5);
                    if w0.len() == 5 && seq_starts_with(w0, "snapd"@) {
                        assert(w0 =~= w0.subrange(0, 5));
                    }
                    if w0 == "snapd"@ {
                        assert(w0.subrange(0, 5) =~= w0);
                    }
                }
            }
        }
        match entry {
            Some(e) => {
                out.push(e);
                assert(pair_views(out@) =~= listing_entries(format, ls, i + 1));
            },
            None => {
                assert(pair_views(out@) =~= listing_entries(format, ls, i + 1));
            },
        }
        i += 1;
    }
    out
}


/// Bytes in `kib` kibibytes, saturating at the largest `u64`.
pub open spec fn kib_to_bytes(kib: u64) -> u64 {
    if kib <= u64::MAX / 1024 {
        (kib * 1024) as u64
    } else {
        u64::MAX
    }
}

/// The record of a `dpkg-query` line (`name<TAB>version<TAB>KiB<TAB>summary`):
/// name, version, size in bytes (0 when unreadable) and summary (further
/// fields joined by spaces); `None` for a malformed line or a package not
/// installed by hand (when the list of those is not empty).
pub open spec fn dpkg_entry(line: Seq<char>, manual: Seq<Seq<char>>) -> Option<(Seq<char>, Seq<char>, u64, Seq<char>)> {
    let f = split_on(line, '\t');
    if f.len() >= 4 && (manual.len() == 0 || manual.contains(f[0])) {
        Some(
            (
                f[0],
                f[1],
                kib_to_bytes(
                    match number_of(f[2]) {
                        Some(k) => k,
                        None => 0,
                    },
                ),
                joined(f.subrange(3, f.len() as int)),
            ),
        )
    } else {
        None
    }
}

/// The records of the first `n` lines.
pub open spec fn dpkg_entries(lines: Seq<Seq<char>>, manual: Seq<Seq<char>>, n: int) -> Seq<(Seq<char>, Seq<char>, u64, Seq<char>)>
    decreases n,
{
    if n <= 0 || n > lines.len() {
        seq![]
    } else {
        let prev = dpkg_entries(lines, manual, n - 1);
        match dpkg_entry(lines[n - 1], manual) {
            Some(e) => prev.push(e),
            None => prev,
        }
    }
}

/// A package as a scan first makes it: nothing known beyond what the
/// listing gives.
pub open spec fn fresh_record(p: Package, source: PackageSource) -> bool {
    &&& p.source == source
    &&& p.has_update.is_none()
    &&& p.update_version.is_none()
    &&& !p.selected
}

fn contains_line(lines: &Vec<Vec<char>>, x: &Vec<char>) -> (r: bool)
    ensures
        r == views(lines@).contains(x@),
{
    let mut i: usize = 0;
    while i < lines.len()
        invariant
            i <= lines@.len(),
            forall|k: int| 0 <= k < i ==> views(lines@)[k] != x@,
        decreases lines@.len() - i,
    {
        if same_chars(&lines[i], x) {
            assert(views(lines@)[i as int] == x@);
            return true;
        }
        i += 1;
    }
    false
}

/// The packages of a `dpkg-query` listing, given the output of
/// `apt-mark showmanual`: only packages installed by hand are kept, unless
/// that list is empty. The application type is left unknown.
pub fn parse_dpkg_listing(listing: &str, manual: &str) -> (r: Vec<Package>)
    ensures
        r@.len() == dpkg_entries(text_lines(listing@), text_lines(manual@), text_lines(listing@).len() as int).len(),
        forall|i: int|
            0 <= i < r@.len() ==> {
                let e = dpkg_entries(text_lines(listing@), text_lines(manual@), text_lines(listing@).len() as int)[i];
                &&& (#[trigger] r@[i]).name@ == e.0
                &&& r@[i].version@ == e.1
                &&& r@[i].size_bytes == e.2
                &&& r@[i].description@ == e.3
                &&& r@[i].app_type == AppType::Unknown
                &&& r@[i].install_path.is_none()
                &&& fresh_record(r@[i], PackageSource::Apt)
            },
{
    let lines = lines_of(&chars_of(listing));
    let manual_lines = lines_of(&chars_of(manual));
    let ghost ls = views(lines@);
    let ghost ms = views(manual_lines@);
    let n = lines.len();
    let mut out: Vec<Package> = Vec::new();
    let mut i: usize = 0;
    while i < n
        invariant
            i <= n == lines@.len(),
            ls == views(lines@),
            ms == views(manual_lines@),
            out@.len() == dpkg_entries(ls, ms, i as int).len(),
            forall|k: int|
                0 <= k < out@.len() ==> {
                    let e = dpkg_entries(ls, ms, i as int)[k];
                    &&& (#[trigger] out@[k]).name@ == e.0
                    &&& out@[k].version@ == e.1
                    &&& out@[k].size_bytes == e.2
                    &&& out@[k].description@ == e.3
                    &&& out@[k].app_type == AppType::Unknown
                    &&& out@[k].install_path.is_none()
                    &&& fresh_record(out@[k], PackageSource::Apt)
                },
        decreases n - i,
    {
        let line = &lines[i];
        assert(line@ == ls[i as int]);
        let f = split_chars(line, '\t');
        let ghost prev = dpkg_entries(ls, ms, i as int);
        if f.len() >= 4 {
            let keep = manual_lines.len() == 0 || contains_line(&manual_lines, &f[0]);
            if keep {
                let kib = match number_in(&f[2]) {
                    Some(k) => k,
                    None => 0,
                };
                let bytes = if kib <= u64::MAX / 1024 {
                    kib * 1024
                } else {
                    u64::MAX
                };
                let mut p = Package::new(string_of(f[0].as_slice()), PackageSource::Apt);
                p.version = string_of(f[1].as_slice());
                p.size_bytes = bytes;
                p.description = string_of(join_pieces(&f, 3).as_slice());
                proof {
                    assert(views(f@).subrange(3, f@.len() as int) =~= split_on(line@, '\t').subrange(3, f@.len() as int));
                }
                out.push(p);
                assert(dpkg_entries(ls, ms, i + 1) == prev.push(dpkg_entry(line@, ms).unwrap()));
            }
        }
        i += 1;
    }
    out
}

/// The record of a line of `flatpak list --app` with the columns name,
/// application, version, size and description: the first four must be
/// there; the description may be missing.
pub open spec fn flatpak_entry(line: Seq<char>) -> Option<(Seq<char>, Seq<char>, Seq<char>, Seq<char>, Seq<char>)> {
    let f = split_on(line, '\t');
    if f.len() >= 4 {
        Some((f[0], f[1], f[2], f[3], if f.len() >= 5 { f[4] } else { seq![] }))
    } else {
        None
    }
}

/// The records of the first `n` lines.
pub open spec fn flatpak_entries(lines: Seq<Seq<char>>, n: int) -> Seq<(Seq<char>, Seq<char>, Seq<char>, Seq<char>, Seq<char>)>
    decreases n,
{
    if n <= 0 || n > lines.len() {
        seq![]
    } else {
        let prev = flatpak_entries(lines, n - 1);
        match flatpak_entry(lines[n - 1]) {
            Some(e) => prev.push(e),
            None => prev,
        }
    }
}

/// The applications of a `flatpak list` listing, each with its size column
/// as printed (it is read in floating point by the caller). Flatpaks are
/// graphical applications; the application ID is their install path.
pub fn parse_flatpak_listing(listing: &str) -> (r: Vec<(Package, String)>)
    ensures
        r@.len() == flatpak_entries(text_lines(listing@), text_lines(listing@).len() as int).len(),
        forall|i: int|
            0 <= i < r@.len() ==> {
                let e = flatpak_entries(text_lines(listing@), text_lines(listing@).len() as int)[i];
                &&& (#[trigger] r@[i]).0.name@ == e.0
                &&& r@[i].0.install_path.is_some()
                &&& r@[i].0.install_path.unwrap()@ == e.1
                &&& r@[i].0.version@ == e.2
                &&& r@[i].1@ == e.3
                &&& r@[i].0.description@ == e.4
                &&& r@[i].0.size_bytes == 0
                &&& r@[i].0.app_type == AppType::GUI
                &&& fresh_record(r@[i].0, PackageSource::Flatpak)
            },
{
    let lines = lines_of(&chars_of(listing));
    let ghost ls = views(lines@);
    let n = lines.len();
    let mut out: Vec<(Package, String)> = Vec::new();
    let mut i: usize = 0;
    while i < n
        invariant
            i <= n == lines@.len(),
            ls == views(lines@),
            out@.len() == flatpak_entries(ls, i as int).len(),
            forall|k: int|
                0 <= k < out@.len() ==> {
                    let e = flatpak_entries(ls, i as int)[k];
                    &&& (#[trigger] out@[k]).0.name@ == e.0
                    &&& out@[k].0.install_path.is_some()
                    &&& out@[k].0.install_path.unwrap()@ == e.1
                    &&& out@[k].0.version@ == e.2
                    &&& out@[k].1@ == e.3
                    &&& out@[k].0.description@ == e.4
                    &&& out@[k].0.size_bytes == 0
                    &&& out@[k].0.app_type == AppType::GUI
                    &&& fresh_record(out@[k].0, PackageSource::Flatpak)
                },
        decreases n - i,
    {
        let line = &lines[i];
        assert(line@ == ls[i as int]);
        let f = split_chars(line, '\t');
        let ghost prev = flatpak_entries(ls, i as int);
        if f.len() >= 4 {
            let mut p = Package::new(string_of(f[0].as_slice()), PackageSource::Flatpak);
            p.install_path = Some(string_of(f[1].as_slice()));
            p.version = string_of(f[2].as_slice());
            p.description = if f.len() >= 5 {
                string_of(f[4].as_slice())
            } else {
                String::new()
            };
            p.app_type = AppType::GUI;
            let size_text = string_of(f[3].as_slice());
            out.push((p, size_text));
            assert(flatpak_entries(ls, i + 1) == prev.push(flatpak_entry(line@).unwrap()));
        }
        i += 1;
    }
    out
}


/// The text without leading white space.
pub open spec fn trim_start(s: Seq<char>) -> Seq<char>
    decreases s.len(),
{
    if s.len() > 0 && is_space(s[0]) {
        trim_start(s.drop_first())
    } else {
        s
    }
}

/// The text without trailing white space.
pub open spec fn trim_end(s: Seq<char>) -> Seq<char>
    decreases s.len(),
{
    if s.len() > 0 && is_space(s.last()) {
        trim_end(s.drop_last())
    } else {
        s
    }
}

/// The text without every leading repetition of `prefix`.
pub open spec fn without_prefixes(s: Seq<char>, prefix: Seq<char>) -> Seq<char>
    decreases s.len(),
{
    if prefix.len() > 0 && seq_starts_with(s, prefix) {
        without_prefixes(s.subrange(prefix.len() as int, s.len() as int), prefix)
    } else {
        s
    }
}

/// The summary that `snap info` prints: the first line that begins with
/// `summary:`, without that label and the white space around the text.
pub open spec fn snap_summary(lines: Seq<Seq<char>>, i: int) -> Option<Seq<char>>
    decreases lines.len() - i,
{
    if i < 0 || i >= lines.len() {
        None
    } else if seq_starts_with(lines[i], "summary:"@) {
        Some(trim_end(trim_start(without_prefixes(lines[i], "summary:"@))))
    } else {
        snap_summary(lines, i + 1)
    }
}

fn trimmed(s: &Vec<char>) -> (r: Vec<char>)
    ensures
        r@ == trim_end(trim_start(s@)),
{
    let n = s.len();
    let mut a: usize = 0;
    assert(s@.subrange(0, n as int) =~= s@);
    while a < n && is_white(s[a])
        invariant
            a <= n == s@.len(),
            trim_start(s@) == trim_start(s@.subrange(a as int, n as int)),
        decreases n - a,
    {
        assert(s@.subrange(a as int, n as int).drop_first() =~= s@.subrange(a + 1, n as int));
        a += 1;
    }
    let ghost front = s@.subrange(a as int, n as int);
    assert(trim_start(front) == front);
    let mut b: usize = n;
    while b > a && is_white(s[b - 1])
        invariant
            a <= b <= n == s@.len(),
            front == s@.subrange(a as int, n as int),
            trim_end(front) == trim_end(s@.subrange(a as int, b as int)),
        decreases b - a,
    {
        assert(s@.subrange(a as int, b as int).drop_last() =~= s@.subrange(a as int, b - 1));
        b -= 1;
    }
    let mut out: Vec<char> = Vec::new();
    let mut k: usize = a;
    while k < b
        invariant
            a <= k <= b <= n == s@.len(),
            out@ == s@.subrange(a as int, k as int),
        decreases b - k,
    {
        out.push(s[k]);
        assert(s@.subrange(a as int, k + 1) =~= s@.subrange(a as int, k as int).push(s@[k as int]));
        k += 1;
    }
    assert(trim_end(s@.subrange(a as int, b as int)) == s@.subrange(a as int, b as int));
    out
}

/// The summary in the output of `snap info`, if it has one.
pub fn parse_snap_summary(info: &str) -> (r: Option<String>)
    ensures
        match r {
            Some(t) => snap_summary(text_lines(info@), 0) == Some(t@),
            None => snap_summary(text_lines(info@), 0).is_none(),
        },
{
    let lines = lines_of(&chars_of(info));
    let ghost ls = views(lines@);
    let label = chars_of("summary:");
    proof {
        reveal_strlit("summary:");
    }
    let n = lines.len();
    let mut i: usize = 0;
    while i < n
        invariant
            i <= n == lines@.len(),
            ls == views(lines@),
            label@ == "summary:"@,
            "summary:"@.len() == 8,
            ls == text_lines(info@),
            snap_summary(ls, 0) == snap_summary(ls, i as int),
        decreases n - i,
    {
        let line = &lines[i];
        assert(line@ == ls[i as int]);
        if begins_with(line, "summary:") {
            let mut rest: Vec<char> = line.clone();
            assert(rest@ == line@);
            while begins_with(&rest, "summary:")
                invariant
                    without_prefixes(rest@, "summary:"@) == without_prefixes(line@, "summary:"@),
                    "summary:"@.len() == 8,
                decreases rest@.len(),
            {
                let mut tail: Vec<char> = Vec::new();
                let mut j: usize = 8;
                while j < rest.len()
                    invariant
                        8 <= j <= rest@.len(),
                        tail@ == rest@.subrange(8, j as int),
                    decreases rest@.len() - j,
                {
                    tail.push(rest[j]);
                    assert(rest@.subrange(8, j + 1) =~= rest@.subrange(8, j as int).push(rest@[j as int]));
                    j += 1;
                }
                rest = tail;
            }
            let t = trimmed(&rest);
            return Some(string_of(t.as_slice()));
        }
        i += 1;
    }
    None
}

/// Number of dependency markers of a graphical application.
pub const GUI_MARKERS: usize = 5;

/// Number of name patterns of command-line packages.
pub const CLI_PATTERNS: usize = 8;

/// Number of snaps known to be graphical.
pub const GUI_SNAPS: usize = 11;

/// Libraries whose presence among a package's dependencies marks it as
/// graphical.
pub open spec fn gui_marker(i: int) -> Seq<char> {
    if i == 0 { "libgtk"@ } else if i == 1 { "libqt"@ } else if i == 2 { "libx11"@ } else if i == 3 { "wayland"@ } else { "libgl"@ }
}

/// Name beginnings or endings of command-line and support packages.
pub open spec fn cli_pattern(i: int) -> Seq<char> {
    if i == 0 { "lib"@ } else if i == 1 { "dev"@ } else if i == 2 { "doc"@ } else if i == 3 { "data"@ }
    else if i == 4 { "common"@ } else if i == 5 { "core"@ } else if i == 6 { "base"@ } else { "utils"@ }
}

/// Snaps known to be graphical, by a part of their name.
pub open spec fn gui_snap(i: int) -> Seq<char> {
    if i == 0 { "firefox"@ } else if i == 1 { "chromium"@ } else if i == 2 { "vlc"@ } else if i == 3 { "spotify"@ }
    else if i == 4 { "slack"@ } else if i == 5 { "discord"@ } else if i == 6 { "code"@ }
    else if i == 7 { "sublime-text"@ } else if i == 8 { "gimp"@ } else if i == 9 { "inkscape"@ } else { "blender"@ }
}

fn gui_marker_at(i: usize) -> (r: &'static str)
    requires i < GUI_MARKERS,
    ensures r@ == gui_marker(i as int),
{
    if i == 0 { "libgtk" } else if i == 1 { "libqt" } else if i == 2 { "libx11" } else if i == 3 { "wayland" } else { "libgl" }
}

fn cli_pattern_at(i: usize) -> (r: &'static str)
    requires i < CLI_PATTERNS,
    ensures r@ == cli_pattern(i as int),
{
    if i == 0 { "lib" } else if i == 1 { "dev" } else if i == 2 { "doc" } else if i == 3 { "data" }
    else if i == 4 { "common" } else if i == 5 { "core" } else if i == 6 { "base" } else { "utils" }
}

fn gui_snap_at(i: usize) -> (r: &'static str)
    requires i < GUI_SNAPS,
    ensures r@ == gui_snap(i as int),
{
    if i == 0 { "firefox" } else if i == 1 { "chromium" } else if i == 2 { "vlc" } else if i == 3 { "spotify" }
    else if i == 4 { "slack" } else if i == 5 { "discord" } else if i == 6 { "code" }
    else if i == 7 { "sublime-text" } else if i == 8 { "gimp" } else if i == 9 { "inkscape" } else { "blender" }
}

/// The application type of an APT package: graphical when it ships a
/// desktop entry or depends on a graphical library (dependencies compared in
/// lower case), command-line when its name begins or ends like a support
/// package, unknown otherwise.
pub open spec fn apt_type(name: Seq<char>, has_desktop_file: bool, depends: Seq<char>) -> AppType {
    if has_desktop_file || exists|i: int| 0 <= i < GUI_MARKERS && seq_contains(lower_of(depends), #[trigger] gui_marker(i)) {
        AppType::GUI
    } else if exists|i: int| 0 <= i < CLI_PATTERNS && (seq_starts_with(name, #[trigger] cli_pattern(i)) || seq_ends_with(name, cli_pattern(i))) {
        AppType::CLI
    } else {
        AppType::Unknown
    }
}

/// The application type of an APT package, from whether a desktop entry
/// exists for it and the text of its dependencies.
pub fn apt_app_type(name: &str, has_desktop_file: bool, depends: &str) -> (r: AppType)
    ensures
        r == apt_type(name@, has_desktop_file, depends@),
{
    if has_desktop_file {
        return AppType::GUI;
    }
    let deps = lowercase(depends);
    let mut i: usize = 0;
    while i < GUI_MARKERS
        invariant
            i <= GUI_MARKERS,
            !has_desktop_file,
            deps@ == lower_of(depends@),
            forall|k: int| 0 <= k < i ==> !seq_contains(lower_of(depends@), #[trigger] gui_marker(k)),
        decreases GUI_MARKERS - i,
    {
        if text_contains(deps.as_str(), gui_marker_at(i)) {
            return AppType::GUI;
        }
        i += 1;
    }
    let cs = chars_of(name);
    let mut j: usize = 0;
    while j < CLI_PATTERNS
        invariant
            j <= CLI_PATTERNS,
            !has_desktop_file,
            cs@ == name@,
            forall|k: int| 0 <= k < GUI_MARKERS ==> !seq_contains(lower_of(depends@), #[trigger] gui_marker(k)),
            forall|k: int| 0 <= k < j ==> !(seq_starts_with(name@, #[trigger] cli_pattern(k)) || seq_ends_with(name@, cli_pattern(k))),
        decreases CLI_PATTERNS - j,
    {
        let pattern = cli_pattern_at(j);
        if begins_with(&cs, pattern) || text_ends_with(name, pattern) {
            assert(seq_starts_with(name@, cli_pattern(j as int)) || seq_ends_with(name@, cli_pattern(j as int)));
            return AppType::CLI;
        }
        j += 1;
    }
    AppType::Unknown
}

/// The application type of a snap: graphical when it has a desktop entry or
/// its name holds the name of a known graphical snap, unknown otherwise.
pub open spec fn snap_type(name: Seq<char>, has_desktop_entry: bool) -> AppType {
    if has_desktop_entry || exists|i: int| 0 <= i < GUI_SNAPS && seq_contains(name, #[trigger] gui_snap(i)) {
        AppType::GUI
    } else {
        AppType::Unknown
    }
}

/// The application type of a snap, from whether a desktop entry exists for it.
pub fn snap_app_type(name: &str, has_desktop_entry: bool) -> (r: AppType)
    ensures
        r == snap_type(name@, has_desktop_entry),
{
    if has_desktop_entry {
        return AppType::GUI;
    }
    let mut i: usize = 0;
    while i < GUI_SNAPS
        invariant
            i <= GUI_SNAPS,
            forall|k: int| 0 <= k < i ==> !seq_contains(name@, #[trigger] gui_snap(k)),
        decreases GUI_SNAPS - i,
    {
        if text_contains(name, gui_snap_at(i)) {
            return AppType::GUI;
        }
        i += 1;
    }
    AppType::Unknown
}

} // verus!
