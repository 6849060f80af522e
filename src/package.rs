//! Packages, their sources and kinds, and the orders and filters over them.

use vstd::prelude::*;
use crate::text::{lemma_lex_less_asymmetric, lex_less, lower_of, lowercase, seq_contains, text_contains, text_less};

verus! {

broadcast use vstd::seq_lib::group_to_multiset_ensures;

/// Source of the package installation.
#[derive(Debug, Clone, Copy, PartialEq, Eq, Hash, Structural)]
pub enum PackageSource {
    Apt,
    Snap,
    Flatpak,
    AppImage,
    DebFile,
}

/// Position of a source in the order of declaration.
pub open spec fn source_rank(s: PackageSource) -> int {
    match s {
        PackageSource::Apt => 0,
        PackageSource::Snap => 1,
        PackageSource::Flatpak => 2,
        PackageSource::AppImage => 3,
        PackageSource::DebFile => 4,
    }
}

/// Short lower-case name of a source.
pub open spec fn source_label(s: PackageSource) -> Seq<char> {
    match s {
        PackageSource::Apt => "apt"@,
        PackageSource::Snap => "snap"@,
        PackageSource::Flatpak => "flatpak"@,
        PackageSource::AppImage => "appimage"@,
        PackageSource::DebFile => "deb"@,
    }
}

impl PackageSource {
    /// Short lower-case name of the source.
    pub fn label(&self) -> (r: &'static str)
        ensures
            r@ == source_label(*self),
    {
        match self {
            PackageSource::Apt => "apt",
            PackageSource::Snap => "snap",
            PackageSource::Flatpak => "flatpak",
            PackageSource::AppImage => "appimage",
            PackageSource::DebFile => "deb",
        }
    }

    /// Position of the source in the order of declaration.
    pub fn rank(&self) -> (r: u8)
        ensures
            r as int == source_rank(*self),
    {
        match self {
            PackageSource::Apt => 0,
            PackageSource::Snap => 1,
            PackageSource::Flatpak => 2,
            PackageSource::AppImage => 3,
            PackageSource::DebFile => 4,
        }
    }
}

/// Type of application (GUI or CLI).
#[derive(Debug, Clone, Copy, PartialEq, Eq, Structural)]
pub enum AppType {
    GUI,
    CLI,
    Unknown,
}

impl Default for AppType {
    fn default() -> (r: AppType)
        ensures
            r == AppType::Unknown,
    {
        AppType::Unknown
    }
}

impl AppType {
    /// Short name of the application type.
    pub fn label(&self) -> (r: &'static str)
        ensures
            r@ == match *self {
                AppType::GUI => "GUI"@,
                AppType::CLI => "CLI"@,
                AppType::Unknown => "???"@,
            },
    {
        match self {
            AppType::GUI => "GUI",
            AppType::CLI => "CLI",
            AppType::Unknown => "???",
        }
    }
}

/// An installed package.
#[derive(Debug, Clone)]
pub struct Package {
    /// Package name
    pub name: String,
    /// Installed version
    pub version: String,
    /// Package description
    pub description: String,
    /// Size in bytes
    pub size_bytes: u64,
    /// Source package manager
    pub source: PackageSource,
    /// GUI or CLI application
    pub app_type: AppType,
    /// Whether an update is available (`None`: not checked yet)
    pub has_update: Option<bool>,
    /// Version available for update
    pub update_version: Option<String>,
    /// Installation path (mainly for AppImages)
    pub install_path: Option<String>,
    /// Whether this package is selected (for batch operations)
    pub selected: bool,
}

/// The human-readable size text that humansize gives for `n` bytes in binary units.
pub uninterp spec fn binary_size_text(n: u64) -> Seq<char>;

/// Relies on humansize::format_size with the BINARY options: the text depends
/// on the number alone.
#[verifier::external_body]
fn format_binary_size(n: u64) -> (r: String)
    ensures
        r@ == binary_size_text(n),
{
    humansize::format_size(n, humansize::BINARY)
}

/// Whether `query` occurs, ignoring case, in the name or the description.
pub open spec fn spec_matches_search(p: Package, query: Seq<char>) -> bool {
    seq_contains(lower_of(p.name@), lower_of(query)) || seq_contains(
        lower_of(p.description@),
        lower_of(query),
    )
}

/// Whether an already lower-cased query occurs in an already lower-cased name
/// or description.
pub fn matches_folded(name_lower: &str, description_lower: &str, query_lower: &str) -> (r: bool)
    ensures
        r == (seq_contains(name_lower@, query_lower@) || seq_contains(
            description_lower@,
            query_lower@,
        )),
{
    text_contains(name_lower, query_lower) || text_contains(description_lower, query_lower)
}

impl Package {
    /// A package with the given name and source and every other field empty.
    pub fn new(name: String, source: PackageSource) -> (r: Package)
        ensures
            r.name == name,
            r.version@.len() == 0,
            r.description@.len() == 0,
            r.size_bytes == 0,
            r.source == source,
            r.app_type == AppType::Unknown,
            r.has_update.is_none(),
            r.update_version.is_none(),
            r.install_path.is_none(),
            !r.selected,
    {
        Package {
            name,
            version: String::new(),
            description: String::new(),
            size_bytes: 0,
            source,
            app_type: AppType::Unknown,
            has_update: None,
            update_version: None,
            install_path: None,
            selected: false,
        }
    }

    /// Human-readable size, in binary units.
    pub fn size_human(&self) -> (r: String)
        ensures
            r@ == binary_size_text(self.size_bytes),
    {
        format_binary_size(self.size_bytes)
    }

    /// Whether the package matches a search query, ignoring case, by name or
    /// by description.
    pub fn matches_search(&self, query: &str) -> (r: bool)
        ensures
            r == spec_matches_search(*self, query@),
    {
        let query_lower = lowercase(query);
        self.matches_lowered_query(query_lower.as_str())
    }

    /// Like `matches_search`, with the query already lower-cased.
    pub fn matches_lowered_query(&self, query_lower: &str) -> (r: bool)
        ensures
            r == (seq_contains(lower_of(self.name@), query_lower@) || seq_contains(
                lower_of(self.description@),
                query_lower@,
            )),
    {
        let name_lower = lowercase(self.name.as_str());
        let description_lower = lowercase(self.description.as_str());
        matches_folded(name_lower.as_str(), description_lower.as_str(), query_lower)
    }
}

/// Sort criteria for packages.
#[derive(Debug, Clone, Copy, PartialEq, Eq, Structural)]
pub enum SortCriteria {
    SizeDesc,
    SizeAsc,
    NameAsc,
    NameDesc,
    SourceAsc,
}

impl Default for SortCriteria {
    fn default() -> (r: SortCriteria)
        ensures
            r == SortCriteria::SizeDesc,
    {
        SortCriteria::SizeDesc
    }
}

impl SortCriteria {
    pub open spec fn spec_next(self) -> SortCriteria {
        match self {
            SortCriteria::SizeDesc => SortCriteria::SizeAsc,
            SortCriteria::SizeAsc => SortCriteria::NameAsc,
            SortCriteria::NameAsc => SortCriteria::NameDesc,
            SortCriteria::NameDesc => SortCriteria::SourceAsc,
            SortCriteria::SourceAsc => SortCriteria::SizeDesc,
        }
    }

    /// The criterion that follows this one, cyclically.
    pub fn next(self) -> (r: SortCriteria)
        ensures
            r == self.spec_next(),
    {
        match self {
            SortCriteria::SizeDesc => SortCriteria::SizeAsc,
            SortCriteria::SizeAsc => SortCriteria::NameAsc,
            SortCriteria::NameAsc => SortCriteria::NameDesc,
            SortCriteria::NameDesc => SortCriteria::SourceAsc,
            SortCriteria::SourceAsc => SortCriteria::SizeDesc,
        }
    }

    /// Text shown for the criterion.
    pub fn label(&self) -> (r: &'static str)
        ensures
            r@ == match *self {
                SortCriteria::SizeDesc => "Size (largest first)"@,
                SortCriteria::SizeAsc => "Size (smallest first)"@,
                SortCriteria::NameAsc => "Name (A-Z)"@,
                SortCriteria::NameDesc => "Name (Z-A)"@,
                SortCriteria::SourceAsc => "Source"@,
            },
    {
        match self {
            SortCriteria::SizeDesc => "Size (largest first)",
            SortCriteria::SizeAsc => "Size (smallest first)",
            SortCriteria::NameAsc => "Name (A-Z)",
            SortCriteria::NameDesc => "Name (Z-A)",
            SortCriteria::SourceAsc => "Source",
        }
    }
}

/// Whether `a` belongs strictly before `b` under the criterion. Names are
/// compared case-insensitively; by source, ties are broken by name.
pub open spec fn precedes(a: Package, b: Package, c: SortCriteria) -> bool {
    match c {
        SortCriteria::SizeDesc => a.size_bytes > b.size_bytes,
        SortCriteria::SizeAsc => a.size_bytes < b.size_bytes,
        SortCriteria::NameAsc => lex_less(lower_of(a.name@), lower_of(b.name@)),
        SortCriteria::NameDesc => lex_less(lower_of(b.name@), lower_of(a.name@)),
        SortCriteria::SourceAsc => source_rank(a.source) < source_rank(b.source) || (source_rank(
            a.source,
        ) == source_rank(b.source) && lex_less(lower_of(a.name@), lower_of(b.name@))),
    }
}

/// No package is followed by one that belongs strictly before it.
pub open spec fn sorted_by(s: Seq<Package>, c: SortCriteria) -> bool {
    forall|i: int| 0 <= i < s.len() - 1 ==> !#[trigger] precedes(s[i + 1], s[i], c)
}

proof fn lemma_precedes_asymmetric(a: Package, b: Package, c: SortCriteria)
    ensures
        precedes(a, b, c) ==> !precedes(b, a, c),
{
    lemma_lex_less_asymmetric(lower_of(a.name@), lower_of(b.name@));
    lemma_lex_less_asymmetric(lower_of(b.name@), lower_of(a.name@));
}

fn name_less(a: &Package, b: &Package) -> (r: bool)
    ensures
        r == lex_less(lower_of(a.name@), lower_of(b.name@)),
{
    let la = lowercase(a.name.as_str());
    let lb = lowercase(b.name.as_str());
    text_less(la.as_str(), lb.as_str())
}

/// Whether `a` belongs strictly before `b` under the criterion.
pub fn package_precedes(a: &Package, b: &Package, c: SortCriteria) -> (r: bool)
    ensures
        r == precedes(*a, *b, c),
{
    match c {
        SortCriteria::SizeDesc => a.size_bytes > b.size_bytes,
        SortCriteria::SizeAsc => a.size_bytes < b.size_bytes,
        SortCriteria::NameAsc => name_less(a, b),
        SortCriteria::NameDesc => name_less(b, a),
        SortCriteria::SourceAsc => {
            let ra = a.source.rank();
            let rb = b.source.rank();
            if ra != rb {
                ra < rb
            } else {
                name_less(a, b)
            }
        },
    }
}

/// Neither package belongs strictly before the other under the criterion.
pub open spec fn equivalent(a: Package, b: Package, c: SortCriteria) -> bool {
    !precedes(a, b, c) && !precedes(b, a, c)
}

/// `after` takes its package at position `k` from position `perm[k]` of
/// `before`, each position once, and packages equivalent under the criterion
/// keep their relative order.
pub open spec fn stable_reorder(
    before: Seq<Package>,
    after: Seq<Package>,
    perm: Seq<int>,
    c: SortCriteria,
) -> bool {
    &&& perm.len() == after.len() == before.len()
    &&& forall|k: int|
        0 <= k < perm.len() ==> 0 <= #[trigger] perm[k] < before.len() && after[k] == before[perm[k]]
    &&& forall|k: int, l: int| 0 <= k < l < perm.len() ==> #[trigger] perm[k] != #[trigger] perm[l]
    &&& forall|k: int, l: int|
        0 <= k < l < perm.len() && equivalent(#[trigger] after[k], #[trigger] after[l], c) ==> perm[k]
            < perm[l]
}

/// Sorts packages by the criterion; packages that are equal under it keep
/// their relative order.
pub fn sort_packages(packages: &mut Vec<Package>, criteria: SortCriteria)
    ensures
        final(packages)@.to_multiset() == old(packages)@.to_multiset(),
        sorted_by(final(packages)@, criteria),
        exists|perm: Seq<int>| stable_reorder(old(packages)@, final(packages)@, perm, criteria),
{
    let n = packages.len();
    let ghost orig = packages@;
    let ghost mut perm: Seq<int> = Seq::new(n as nat, |k: int| k);
    if n < 2 {
        assert(stable_reorder(orig, packages@, perm, criteria));
        return ;
    }
    let mut i: usize = 1;
    while i < n
        invariant
            1 <= i <= n,
            n == packages.len(),
            orig == old(packages)@,
            packages@.to_multiset() == old(packages)@.to_multiset(),
            forall|k: int| 0 <= k < i - 1 ==> !#[trigger] precedes(packages@[k + 1], packages@[k], criteria),
            perm.len() == n,
            forall|k: int|
                0 <= k < n ==> 0 <= #[trigger] perm[k] < n && packages@[k] == orig[perm[k]],
            forall|k: int| 0 <= k < i ==> #[trigger] perm[k] < i,
            forall|k: int| i <= k < n ==> #[trigger] perm[k] == k,
            forall|k: int, l: int| 0 <= k < l < n ==> #[trigger] perm[k] != #[trigger] perm[l],
            forall|k: int, l: int|
                0 <= k < l < i && equivalent(#[trigger] packages@[k], #[trigger] packages@[l], criteria)
                    ==> perm[k] < perm[l],
        decreases n - i,
    {
        let mut j: usize = i;
        while j > 0 && package_precedes(&packages[i], &packages[j - 1], criteria)
            invariant
                0 <= j <= i < n,
                n == packages.len(),
                forall|k: int| j <= k < i ==> precedes(packages@[i as int], #[trigger] packages@[k], criteria),
            decreases j,
        {
            j -= 1;
        }
        let ghost before = packages@;
        let ghost old_perm = perm;
        assert(j == 0 || !precedes(before[i as int], before[j - 1], criteria));
        let x = packages.remove(i);
        packages.insert(j, x);
        proof {
            let after = packages@;
            assert(x == before[i as int]);
            assert(after =~= before.remove(i as int).insert(j as int, x));
            assert(before.to_multiset().remove(x).insert(x) =~= before.to_multiset());
            assert forall|k: int| 0 <= k < i as int implies !#[trigger] precedes(after[k + 1], after[k], criteria) by {
                    if k < j as int - 1 {
                        assert(after[k] == before[k] && after[k + 1] == before[k + 1]);
                        assert(!precedes(before[k + 1], before[k], criteria));
                    } else if k == j as int - 1 {
                        assert(after[k] == before[k] && after[k + 1] == x);
                        assert(!precedes(x, before[k], criteria));
                    } else if k == j as int {
                        assert(after[k] == x && after[k + 1] == before[k]);
                        lemma_precedes_asymmetric(x, before[k], criteria);
                        assert(precedes(x, before[k], criteria));
                    } else {
                        assert(after[k] == before[k - 1] && after[k + 1] == before[k]);
                        let m = k - 1;
                        assert(!precedes(before[m + 1], before[m], criteria));
                        assert(m + 1 == k);
                    }
            }
            perm = old_perm.remove(i as int).insert(j as int, i as int);
            assert(old_perm[i as int] == i);
            assert forall|k: int| 0 <= k < n implies 0 <= #[trigger] perm[k] < n && after[k] == orig[perm[k]] by {
                if k < j {
                    assert(perm[k] == old_perm[k] && after[k] == before[k]);
                } else if k == j {
                    assert(perm[k] == i);
                } else if k <= i {
                    assert(perm[k] == old_perm[k - 1] && after[k] == before[k - 1]);
                } else {
                    assert(perm[k] == old_perm[k] && after[k] == before[k]);
                }
            }
            assert forall|k: int| 0 <= k < i + 1 implies #[trigger] perm[k] < i + 1 by {
                if k < j {
                    assert(perm[k] == old_perm[k]);
                } else if k == j {
                } else {
                    assert(perm[k] == old_perm[k - 1]);
                }
            }
            assert forall|k: int| i + 1 <= k < n implies #[trigger] perm[k] == k by {
                assert(perm[k] == old_perm[k]);
            }
            assert forall|k: int, l: int| 0 <= k < l < n implies #[trigger] perm[k] != #[trigger] perm[l] by {
                let ok = if k < j { k } else if k == j { i as int } else if k <= i { k - 1 } else { k };
                let ol = if l < j { l } else if l == j { i as int } else if l <= i { l - 1 } else { l };
                assert(perm[k] == old_perm[ok]);
                assert(perm[l] == old_perm[ol]);
                assert(ok != ol);
            }
            assert forall|k: int, l: int|
                0 <= k < l < i + 1 && equivalent(#[trigger] after[k], #[trigger] after[l], criteria)
                    implies perm[k] < perm[l] by {
                if k == j as int {
                    assert(after[l] == before[l - 1]);
                    assert(precedes(before[i as int], before[l - 1], criteria));
                } else if l == j as int {
                    assert(perm[k] == old_perm[k]);
                    assert(old_perm[k] < i);
                } else {
                    let ok = if k < j { k } else { k - 1 };
                    let ol = if l < j { l } else { l - 1 };
                    assert(perm[k] == old_perm[ok] && after[k] == before[ok]);
                    assert(perm[l] == old_perm[ol] && after[l] == before[ol]);
                    assert(ok < ol);
                }
            }
        }
        i += 1;
    }
    assert(stable_reorder(orig, packages@, perm, criteria));
}

/// Filter mode for app type.
#[derive(Debug, Clone, Copy, PartialEq, Eq, Structural)]
pub enum AppTypeFilter {
    All,
    GuiOnly,
    CliOnly,
}

impl Default for AppTypeFilter {
    fn default() -> (r: AppTypeFilter)
        ensures
            r == AppTypeFilter::All,
    {
        AppTypeFilter::All
    }
}

impl AppTypeFilter {
    /// Whether an application type passes the filter.
    pub open spec fn spec_matches(self, t: AppType) -> bool {
        match self {
            AppTypeFilter::All => true,
            AppTypeFilter::GuiOnly => t == AppType::GUI,
            AppTypeFilter::CliOnly => t == AppType::CLI,
        }
    }

    pub open spec fn spec_next(self) -> AppTypeFilter {
        match self {
            AppTypeFilter::All => AppTypeFilter::GuiOnly,
            AppTypeFilter::GuiOnly => AppTypeFilter::CliOnly,
            AppTypeFilter::CliOnly => AppTypeFilter::All,
        }
    }

    /// The filter that follows this one, cyclically.
    pub fn next(self) -> (r: AppTypeFilter)
        ensures
            r == self.spec_next(),
    {
        match self {
            AppTypeFilter::All => AppTypeFilter::GuiOnly,
            AppTypeFilter::GuiOnly => AppTypeFilter::CliOnly,
            AppTypeFilter::CliOnly => AppTypeFilter::All,
        }
    }

    /// Text shown for the filter.
    pub fn label(&self) -> (r: &'static str)
        ensures
            r@ == match *self {
                AppTypeFilter::All => "All"@,
                AppTypeFilter::GuiOnly => "GUI Only"@,
                AppTypeFilter::CliOnly => "CLI Only"@,
            },
    {
        match self {
            AppTypeFilter::All => "All",
            AppTypeFilter::GuiOnly => "GUI Only",
            AppTypeFilter::CliOnly => "CLI Only",
        }
    }

    /// Whether an application type passes the filter.
    pub fn matches(&self, app_type: AppType) -> (r: bool)
        ensures
            r == self.spec_matches(app_type),
    {
        match self {
            AppTypeFilter::All => true,
            AppTypeFilter::GuiOnly => app_type == AppType::GUI,
            AppTypeFilter::CliOnly => app_type == AppType::CLI,
        }
    }
}

} // verus!
