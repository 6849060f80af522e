//! Application state: the package catalog, its filtered view, the selection
//! cursor and the view state machine.

use vstd::prelude::*;
use vstd::view::View as _;
use crate::package::{
    source_label,
    sort_packages, sorted_by, spec_matches_search, AppTypeFilter, Package, PackageSource,
    SortCriteria,
};
use crate::text::{lowercase, lower_of, pop_char, push_char};

verus! {

/// Progress of one batch update.
#[derive(Debug, Clone)]
pub struct UpdateProgress {
    /// Source being updated (None = all)
    pub source: Option<PackageSource>,
    /// Number of the package being updated (1-based once started)
    pub current: usize,
    /// Total packages to update
    pub total: usize,
    /// Name of the package being updated
    pub current_package: String,
    /// Number of successful updates
    pub success_count: usize,
    /// Failures, in order: (package name, error message)
    pub errors: Vec<(String, String)>,
    /// Whether the update was cancelled
    pub cancelled: bool,
}

impl UpdateProgress {
    /// A progress record with nothing scheduled.
    pub open spec fn is_fresh(self) -> bool {
        &&& self.source.is_none()
        &&& self.current == 0
        &&& self.total == 0
        &&& self.current_package@.len() == 0
        &&& self.success_count == 0
        &&& self.errors@.len() == 0
        &&& !self.cancelled
    }
}

impl UpdateProgress {
    /// Every finished item is counted once, as a success or a failure, and at
    /// most one item is in flight.
    pub open spec fn wf(self) -> bool {
        &&& self.success_count + self.errors@.len() <= self.current <= self.total
        &&& self.current <= self.success_count + self.errors@.len() + 1
    }

    /// Whether an item was started and its outcome not yet recorded.
    pub open spec fn in_flight(self) -> bool {
        self.current == self.success_count + self.errors@.len() + 1
    }

    /// Items never started: neither a success nor a failure.
    pub open spec fn spec_skipped(self) -> int {
        self.total - self.success_count - self.errors@.len()
    }

    /// Items never started: neither a success nor a failure.
    pub fn skipped(&self) -> (r: usize)
        requires
            self.wf(),
        ensures
            r == self.spec_skipped(),
    {
        self.total - self.success_count - self.errors.len()
    }
}

/// A batch update never gets past its total, and at the summary its
/// successes, failures and skipped items add up to the total.
pub proof fn lemma_batch_accounting(p: UpdateProgress)
    requires
        p.wf(),
    ensures
        p.current <= p.total,
        p.success_count + p.errors@.len() + p.spec_skipped() == p.total,
        p.spec_skipped() >= 0,
{
}

impl Default for UpdateProgress {
    fn default() -> (r: UpdateProgress)
        ensures
            r.is_fresh(),
    {
        UpdateProgress {
            source: None,
            current: 0,
            total: 0,
            current_package: String::new(),
            success_count: 0,
            errors: Vec::new(),
            cancelled: false,
        }
    }
}

/// The screens of the state machine.
#[derive(Debug, Clone, Copy, PartialEq, Eq, Structural)]
pub enum View {
    Main,
    Details,
    Confirm,
    UpdateSelect,
    UpdateBySource,
    UpdateProgress,
    UpdateSummary,
    CancelConfirm,
    Loading,
    Error,
}

/// The action that the confirmation dialog asks about.
#[derive(Debug, Clone, Copy, PartialEq, Eq, Structural)]
pub enum ConfirmAction {
    Uninstall,
    Update,
}

/// Sidebar sections.
#[derive(Debug, Clone, Copy, PartialEq, Eq, Structural)]
pub enum SidebarSection {
    Apps,
    Update,
    Install,
    Clean,
}

impl Default for SidebarSection {
    fn default() -> (r: SidebarSection)
        ensures
            r == SidebarSection::Apps,
    {
        SidebarSection::Apps
    }
}

impl SidebarSection {
    pub open spec fn spec_next(self) -> SidebarSection {
        match self {
            SidebarSection::Apps => SidebarSection::Update,
            SidebarSection::Update => SidebarSection::Install,
            SidebarSection::Install => SidebarSection::Clean,
            SidebarSection::Clean => SidebarSection::Apps,
        }
    }

    /// The section below this one, cyclically.
    pub fn next(self) -> (r: SidebarSection)
        ensures
            r == self.spec_next(),
    {
        match self {
            SidebarSection::Apps => SidebarSection::Update,
            SidebarSection::Update => SidebarSection::Install,
            SidebarSection::Install => SidebarSection::Clean,
            SidebarSection::Clean => SidebarSection::Apps,
        }
    }

    pub open spec fn spec_prev(self) -> SidebarSection {
        match self {
            SidebarSection::Apps => SidebarSection::Clean,
            SidebarSection::Update => SidebarSection::Apps,
            SidebarSection::Install => SidebarSection::Update,
            SidebarSection::Clean => SidebarSection::Install,
        }
    }

    /// The section above this one, cyclically.
    pub fn prev(self) -> (r: SidebarSection)
        ensures
            r == self.spec_prev(),
    {
        match self {
            SidebarSection::Apps => SidebarSection::Clean,
            SidebarSection::Update => SidebarSection::Apps,
            SidebarSection::Install => SidebarSection::Update,
            SidebarSection::Clean => SidebarSection::Install,
        }
    }

    /// Text shown for the section.
    pub fn label(&self) -> (r: &'static str)
        ensures
            r@ == match *self {
                SidebarSection::Apps => "Apps"@,
                SidebarSection::Update => "Update"@,
                SidebarSection::Install => "Install"@,
                SidebarSection::Clean => "Clean"@,
            },
    {
        match self {
            SidebarSection::Apps => "Apps",
            SidebarSection::Update => "Update",
            SidebarSection::Install => "Install",
            SidebarSection::Clean => "Clean",
        }
    }
}

/// Source filter tabs.
#[derive(Debug, Clone, Copy, PartialEq, Eq, Structural)]
pub enum SourceTab {
    All,
    Apt,
    Snap,
    Flatpak,
    AppImage,
}

impl Default for SourceTab {
    fn default() -> (r: SourceTab)
        ensures
            r == SourceTab::All,
    {
        SourceTab::All
    }
}

impl SourceTab {
    /// Whether packages of a source are shown under the tab; the APT tab also
    /// shows standalone Deb installs.
    pub open spec fn spec_matches(self, source: PackageSource) -> bool {
        match self {
            SourceTab::All => true,
            SourceTab::Apt => source == PackageSource::Apt || source == PackageSource::DebFile,
            SourceTab::Snap => source == PackageSource::Snap,
            SourceTab::Flatpak => source == PackageSource::Flatpak,
            SourceTab::AppImage => source == PackageSource::AppImage,
        }
    }

    pub open spec fn spec_next(self) -> SourceTab {
        match self {
            SourceTab::All => SourceTab::Apt,
            SourceTab::Apt => SourceTab::Snap,
            SourceTab::Snap => SourceTab::Flatpak,
            SourceTab::Flatpak => SourceTab::AppImage,
            SourceTab::AppImage => SourceTab::All,
        }
    }

    /// The tab to the right, cyclically.
    pub fn next(self) -> (r: SourceTab)
        ensures
            r == self.spec_next(),
    {
        match self {
            SourceTab::All => SourceTab::Apt,
            SourceTab::Apt => SourceTab::Snap,
            SourceTab::Snap => SourceTab::Flatpak,
            SourceTab::Flatpak => SourceTab::AppImage,
            SourceTab::AppImage => SourceTab::All,
        }
    }

    pub open spec fn spec_prev(self) -> SourceTab {
        match self {
            SourceTab::All => SourceTab::AppImage,
            SourceTab::Apt => SourceTab::All,
            SourceTab::Snap => SourceTab::Apt,
            SourceTab::Flatpak => SourceTab::Snap,
            SourceTab::AppImage => SourceTab::Flatpak,
        }
    }

    /// The tab to the left, cyclically.
    pub fn prev(self) -> (r: SourceTab)
        ensures
            r == self.spec_prev(),
    {
        match self {
            SourceTab::All => SourceTab::AppImage,
            SourceTab::Apt => SourceTab::All,
            SourceTab::Snap => SourceTab::Apt,
            SourceTab::Flatpak => SourceTab::Snap,
            SourceTab::AppImage => SourceTab::Flatpak,
        }
    }

    /// Text shown for the tab.
    pub fn label(&self) -> (r: &'static str)
        ensures
            r@ == match *self {
                SourceTab::All => "All"@,
                SourceTab::Apt => "APT"@,
                SourceTab::Snap => "Snap"@,
                SourceTab::Flatpak => "Flatpak"@,
                SourceTab::AppImage => "AppImage"@,
            },
    {
        match self {
            SourceTab::All => "All",
            SourceTab::Apt => "APT",
            SourceTab::Snap => "Snap",
            SourceTab::Flatpak => "Flatpak",
            SourceTab::AppImage => "AppImage",
        }
    }

    /// Whether packages of a source are shown under the tab.
    pub fn matches(&self, source: PackageSource) -> (r: bool)
        ensures
            r == self.spec_matches(source),
    {
        match self {
            SourceTab::All => true,
            SourceTab::Apt => source == PackageSource::Apt || source == PackageSource::DebFile,
            SourceTab::Snap => source == PackageSource::Snap,
            SourceTab::Flatpak => source == PackageSource::Flatpak,
            SourceTab::AppImage => source == PackageSource::AppImage,
        }
    }
}

/// Number of pending updates per source family; Deb installs count as APT.
#[derive(Debug, Clone, Copy, PartialEq, Eq, Structural)]
pub struct UpdateCounts {
    pub apt: usize,
    pub snap: usize,
    pub flatpak: usize,
}

/// Whether a package passes the source tab, the search text and the type filter.
pub open spec fn passes_filters(
    p: Package,
    tab: SourceTab,
    query: Seq<char>,
    filter: AppTypeFilter,
) -> bool {
    &&& tab.spec_matches(p.source)
    &&& (query.len() == 0 || spec_matches_search(p, query))
    &&& filter.spec_matches(p.app_type)
}

/// The positions among the first `n` packages that pass the filters, in order.
pub open spec fn filter_indices(
    pkgs: Seq<Package>,
    tab: SourceTab,
    query: Seq<char>,
    filter: AppTypeFilter,
    n: nat,
) -> Seq<usize>
    decreases n,
{
    if n == 0 {
        seq![]
    } else {
        let prev = filter_indices(pkgs, tab, query, filter, (n - 1) as nat);
        if passes_filters(pkgs[n - 1], tab, query, filter) {
            prev.push((n - 1) as usize)
        } else {
            prev
        }
    }
}

/// The filtered view holds exactly the positions `i` of the packages that pass
/// the source tab, the search and the type filter, each once, in the order of
/// the catalog.
pub proof fn lemma_filter_indices_exact(
    pkgs: Seq<Package>,
    tab: SourceTab,
    query: Seq<char>,
    filter: AppTypeFilter,
    n: nat,
)
    requires
        n <= pkgs.len(),
        n <= usize::MAX + 1,
    ensures
        forall|k: int|
            0 <= k < filter_indices(pkgs, tab, query, filter, n).len() ==> {
                let i = #[trigger] filter_indices(pkgs, tab, query, filter, n)[k];
                i < n && passes_filters(pkgs[i as int], tab, query, filter)
            },
        forall|i: int|
            0 <= i < n && passes_filters(#[trigger] pkgs[i], tab, query, filter)
                ==> filter_indices(pkgs, tab, query, filter, n).contains(i as usize),
        forall|k: int, l: int|
            0 <= k < l < filter_indices(pkgs, tab, query, filter, n).len()
                ==> #[trigger] filter_indices(pkgs, tab, query, filter, n)[k]
                < #[trigger] filter_indices(pkgs, tab, query, filter, n)[l],
    decreases n,
{
    if n > 0 {
        let m = (n - 1) as nat;
        lemma_filter_indices_exact(pkgs, tab, query, filter, m);
        let prev = filter_indices(pkgs, tab, query, filter, m);
        let cur = filter_indices(pkgs, tab, query, filter, n);
        if passes_filters(pkgs[m as int], tab, query, filter) {
            assert(cur == prev.push(m as usize));
            assert forall|i: int|
                0 <= i < n && passes_filters(#[trigger] pkgs[i], tab, query, filter) implies cur.contains(
                i as usize,
            ) by {
                if i < m {
                    let k = choose|k: int| 0 <= k < prev.len() && prev[k] == i as usize;
                    assert(cur[k] == i as usize);
                } else {
                    assert(cur[prev.len() as int] == i as usize);
                }
            }
        } else {
            assert forall|i: int|
                0 <= i < n && passes_filters(#[trigger] pkgs[i], tab, query, filter) implies cur.contains(
                i as usize,
            ) by {
                assert(i < m);
            }
        }
    }
}

/// The application state: the catalog, its filtered view, the cursor and
/// the view state machine.
pub struct App {
    /// All packages from all sources
    pub packages: Vec<Package>,
    /// Positions in `packages` that pass the current search and filters
    pub filtered_packages: Vec<usize>,
    /// Cursor into `filtered_packages`
    pub selected: usize,
    /// Current view
    pub view: View,
    /// Search query (always active)
    pub search_query: String,
    /// Sort criteria
    pub sort_criteria: SortCriteria,
    /// App type filter
    pub app_type_filter: AppTypeFilter,
    /// Source tab filter
    pub source_tab: SourceTab,
    /// Confirmation action pending
    pub confirm_action: Option<ConfirmAction>,
    /// Loading message
    pub loading_message: String,
    /// Error message
    pub error_message: String,
    /// Whether updates are being checked
    pub checking_updates: bool,
    /// Packages offered for a selected update
    pub update_selection: Vec<usize>,
    /// Scroll offset of the details view
    pub details_scroll: u16,
    /// The application should quit
    pub should_quit: bool,
    /// Sources whose scanner is running, each once
    pub scanning_sources: Vec<PackageSource>,
    /// Whether the initial scan is complete
    pub scan_complete: bool,
    /// Current sidebar section
    pub sidebar_section: SidebarSection,
    /// Whether the sidebar has the focus
    pub sidebar_focused: bool,
    /// Row in the update-by-source view (0 = APT, 1 = Snap, 2 = Flatpak, 3 = all)
    pub selected_update_source: usize,
    /// Update counts per source (None = not computed yet)
    pub update_source_counts: Option<UpdateCounts>,
    /// Progress of the running batch update
    pub update_progress: UpdateProgress,
    /// Whether updates have been checked
    pub updates_checked: bool,
    /// Toast message on display
    pub toast_message: Option<String>,
    /// When the toast disappears, in milliseconds since the Unix epoch
    pub toast_expires_at: Option<u128>,
    /// Packages scheduled for the running batch update, fixed when it starts
    pub update_queue: Vec<usize>,
    /// Cursor into `update_selection` in the update selection view
    pub update_cursor: usize,
}

impl App {
    /// Whether a package is shown under the current tab, search and filter.
    pub open spec fn shows(self, p: Package) -> bool {
        passes_filters(p, self.source_tab, self.search_query@, self.app_type_filter)
    }

    /// The filtered view that the current packages, tab, search and filter call for.
    pub open spec fn expected_filtered(self) -> Seq<usize> {
        filter_indices(
            self.packages@,
            self.source_tab,
            self.search_query@,
            self.app_type_filter,
            self.packages@.len(),
        )
    }

    /// The selection is a valid position in the filtered view, or zero when
    /// the view is empty.
    pub open spec fn selection_valid(self) -> bool {
        self.selected < self.filtered_packages@.len() || (self.filtered_packages@.len() == 0
            && self.selected == 0)
    }

    /// The filtered view is current and the selection is valid.
    pub open spec fn wf(self) -> bool {
        &&& self.filtered_packages@ == self.expected_filtered()
        &&& self.selection_valid()
    }

    /// `self` is `before` with the filtered view recomputed and the selection
    /// pulled back into range (to the last row when it would point past it).
    pub open spec fn refiltered_from(self, before: App) -> bool {
        &&& self.wf()
        &&& self == (App {
            filtered_packages: self.filtered_packages,
            selected: self.selected,
            ..before
        })
        &&& self.filtered_packages@ == before.expected_filtered()
        &&& before.selected < self.filtered_packages@.len() ==> self.selected == before.selected
        &&& before.selected >= self.filtered_packages@.len() ==> self.selected == self.last_row()
    }

    /// The largest valid selection: the last filtered position, or zero.
    pub open spec fn last_row(self) -> int {
        if self.filtered_packages@.len() == 0 {
            0
        } else {
            self.filtered_packages@.len() - 1
        }
    }

    /// An empty catalog on the package list, waiting for the first scan.
    pub fn new() -> (r: App)
        ensures
            r.wf(),
            r.packages@.len() == 0,
            r.filtered_packages@.len() == 0,
            r.selected == 0,
            r.view == View::Main,
            r.search_query@.len() == 0,
            r.sort_criteria == SortCriteria::SizeDesc,
            r.app_type_filter == AppTypeFilter::All,
            r.source_tab == SourceTab::All,
            r.confirm_action.is_none(),
            r.loading_message@ == "Scanning..."@,
            r.error_message@.len() == 0,
            !r.checking_updates,
            r.update_selection@.len() == 0,
            r.details_scroll == 0,
            !r.should_quit,
            r.scanning_sources@.len() == 0,
            !r.scan_complete,
            r.sidebar_section == SidebarSection::Apps,
            !r.sidebar_focused,
            r.selected_update_source == 0,
            r.update_source_counts.is_none(),
            r.update_progress.is_fresh(),
            !r.updates_checked,
            r.toast_message.is_none(),
            r.toast_expires_at.is_none(),
            r.update_queue@.len() == 0,
            r.update_cursor == 0,
    {
        App {
            packages: Vec::new(),
            filtered_packages: Vec::new(),
            selected: 0,
            view: View::Main,
            search_query: String::new(),
            sort_criteria: SortCriteria::default(),
            app_type_filter: AppTypeFilter::default(),
            source_tab: SourceTab::default(),
            confirm_action: None,
            loading_message: String::from_str("Scanning..."),
            error_message: String::new(),
            checking_updates: false,
            update_selection: Vec::new(),
            details_scroll: 0,
            should_quit: false,
            scanning_sources: Vec::new(),
            scan_complete: false,
            sidebar_section: SidebarSection::default(),
            sidebar_focused: false,
            selected_update_source: 0,
            update_source_counts: None,
            update_progress: UpdateProgress::default(),
            updates_checked: false,
            toast_message: None,
            toast_expires_at: None,
            update_queue: Vec::new(),
            update_cursor: 0,
        }
    }

    /// Recomputes the filtered view from the packages, the tab, the search and
    /// the type filter, and pulls the selection back into range: to the last
    /// row when it would point past the end.
    pub fn apply_filters(&mut self)
        ensures
            final(self).wf(),
            final(self).filtered_packages@ == old(self).expected_filtered(),
            old(self).selected < final(self).filtered_packages@.len() ==> final(self).selected
                == old(self).selected,
            old(self).selected >= final(self).filtered_packages@.len() ==> final(self).selected
                == final(self).last_row(),
            *final(self) == (App {
                filtered_packages: final(self).filtered_packages,
                selected: final(self).selected,
                ..*old(self)
            }),
    {
        let ghost before = *self;
        let query_empty = self.search_query.as_str().is_empty();
        let query_lower = lowercase(self.search_query.as_str());
        let mut filtered: Vec<usize> = Vec::new();
        let n = self.packages.len();
        let mut i: usize = 0;
        while i < n
            invariant
                n == self.packages@.len(),
                i <= n,
                query_empty == (self.search_query@.len() == 0),
                query_lower@ == lower_of(self.search_query@),
                filtered@ == filter_indices(
                    self.packages@,
                    self.source_tab,
                    self.search_query@,
                    self.app_type_filter,
                    i as nat,
                ),
                *self == *old(self),
            decreases n - i,
        {
            let p = &self.packages[i];
            let keep = self.source_tab.matches(p.source) && (query_empty
                || p.matches_lowered_query(query_lower.as_str())) && self.app_type_filter.matches(
                p.app_type,
            );
            if keep {
                filtered.push(i);
            }
            i += 1;
        }
        self.filtered_packages = filtered;
        if self.selected >= self.filtered_packages.len() {
            self.selected = self.filtered_packages.len().saturating_sub(1);
        }
        assert(self.refiltered_from(before));
    }
}


/// Family of a source for update counting: 0 for APT and Deb installs, 1 for
/// Snap, 2 for Flatpak, 3 for AppImage.
pub open spec fn source_family(s: PackageSource) -> int {
    match s {
        PackageSource::Apt | PackageSource::DebFile => 0,
        PackageSource::Snap => 1,
        PackageSource::Flatpak => 2,
        PackageSource::AppImage => 3,
    }
}

/// Whether a package is known to have an update.
pub open spec fn has_pending_update(p: Package) -> bool {
    p.has_update == Some(true)
}

/// Number of the first `n` packages of the family with a known update.
pub open spec fn count_pending(pkgs: Seq<Package>, family: int, n: nat) -> nat
    decreases n,
{
    if n == 0 {
        0
    } else {
        count_pending(pkgs, family, (n - 1) as nat) + if has_pending_update(pkgs[n - 1])
            && source_family(pkgs[n - 1].source) == family {
            1nat
        } else {
            0nat
        }
    }
}

/// Number of the first `n` packages with a known update.
pub open spec fn count_with_update(pkgs: Seq<Package>, n: nat) -> nat
    decreases n,
{
    if n == 0 {
        0
    } else {
        count_with_update(pkgs, (n - 1) as nat) + if has_pending_update(pkgs[n - 1]) {
            1nat
        } else {
            0nat
        }
    }
}

/// Number of the first `n` packages of the family.
pub open spec fn count_family(pkgs: Seq<Package>, family: int, n: nat) -> nat
    decreases n,
{
    if n == 0 {
        0
    } else {
        count_family(pkgs, family, (n - 1) as nat) + if source_family(pkgs[n - 1].source)
            == family {
            1nat
        } else {
            0nat
        }
    }
}

proof fn lemma_count_pending_bound(pkgs: Seq<Package>, family: int, n: nat)
    ensures
        count_pending(pkgs, family, n) <= n,
    decreases n,
{
    if n > 0 {
        lemma_count_pending_bound(pkgs, family, (n - 1) as nat);
    }
}

proof fn lemma_count_with_update_bound(pkgs: Seq<Package>, n: nat)
    ensures
        count_with_update(pkgs, n) <= n,
    decreases n,
{
    if n > 0 {
        lemma_count_with_update_bound(pkgs, (n - 1) as nat);
    }
}

proof fn lemma_count_family_bound(pkgs: Seq<Package>, family: int, n: nat)
    ensures
        count_family(pkgs, family, n) <= n,
    decreases n,
{
    if n > 0 {
        lemma_count_family_bound(pkgs, family, (n - 1) as nat);
    }
}

/// Whether a package is due in an update of `source` (`None`: every source);
/// an update of APT takes Deb installs too.
pub open spec fn due_for_update(p: Package, source: Option<PackageSource>) -> bool {
    &&& has_pending_update(p)
    &&& match source {
        None => true,
        Some(PackageSource::Apt) => p.source == PackageSource::Apt || p.source
            == PackageSource::DebFile,
        Some(s) => p.source == s,
    }
}

/// The positions among the first `n` packages that are due in an update of
/// `source`, in order.
pub open spec fn update_indices(pkgs: Seq<Package>, source: Option<PackageSource>, n: nat) -> Seq<
    usize,
>
    decreases n,
{
    if n == 0 {
        seq![]
    } else {
        let prev = update_indices(pkgs, source, (n - 1) as nat);
        if due_for_update(pkgs[n - 1], source) {
            prev.push((n - 1) as usize)
        } else {
            prev
        }
    }
}

/// The filtered view depends only on what the filters read of each package.
pub proof fn lemma_filter_indices_same(
    a: Seq<Package>,
    b: Seq<Package>,
    tab: SourceTab,
    query: Seq<char>,
    filter: AppTypeFilter,
    n: nat,
)
    requires
        n <= a.len(),
        n <= b.len(),
        forall|i: int|
            0 <= i < n ==> passes_filters(#[trigger] a[i], tab, query, filter) == passes_filters(
                b[i],
                tab,
                query,
                filter,
            ),
    ensures
        filter_indices(a, tab, query, filter, n) == filter_indices(b, tab, query, filter, n),
    decreases n,
{
    if n > 0 {
        lemma_filter_indices_same(a, b, tab, query, filter, (n - 1) as nat);
        assert(passes_filters(a[n - 1], tab, query, filter) == passes_filters(
            b[n - 1],
            tab,
            query,
            filter,
        ));
    }
}

/// The sources after those equal to `x` are taken out of the first `n`.
pub open spec fn without_source(s: Seq<PackageSource>, x: PackageSource, n: nat) -> Seq<
    PackageSource,
>
    decreases n,
{
    if n == 0 {
        seq![]
    } else {
        let prev = without_source(s, x, (n - 1) as nat);
        if s[n - 1] == x {
            prev
        } else {
            prev.push(s[n - 1])
        }
    }
}

/// The source names joined by ", ".
pub open spec fn join_labels(s: Seq<PackageSource>) -> Seq<char>
    decreases s.len(),
{
    if s.len() == 0 {
        seq![]
    } else if s.len() == 1 {
        source_label(s[0])
    } else {
        join_labels(s.drop_last()) + ", "@ + source_label(s.last())
    }
}

impl App {
    /// Shows a toast that disappears three seconds after `now_ms`
    /// (milliseconds since the Unix epoch).
    pub fn show_toast(&mut self, message: String, now_ms: u128)
        requires
            now_ms <= u128::MAX - 3000,
        ensures
            *final(self) == (App {
                toast_message: Some(message),
                toast_expires_at: Some((now_ms + 3000) as u128),
                ..*old(self)
            }),
    {
        self.toast_message = Some(message);
        self.toast_expires_at = Some(now_ms + 3000);
    }

    /// Clears the toast once `now_ms` has reached its expiry.
    pub fn check_toast_expiry(&mut self, now_ms: u128)
        ensures
            match old(self).toast_expires_at {
                Some(e) if now_ms >= e => *final(self) == (App {
                    toast_message: None,
                    toast_expires_at: None,
                    ..*old(self)
                }),
                _ => *final(self) == *old(self),
            },
    {
        if let Some(expires_at) = self.toast_expires_at {
            if now_ms >= expires_at {
                self.toast_message = None;
                self.toast_expires_at = None;
            }
        }
    }

    /// Opens the update-by-source view on its first row.
    pub fn show_update_by_source(&mut self)
        ensures
            *final(self) == (App {
                selected_update_source: 0,
                view: View::UpdateBySource,
                ..*old(self)
            }),
    {
        self.selected_update_source = 0;
        self.view = View::UpdateBySource;
    }

    /// Counts the packages with a known update per source family (AppImages
    /// have no central updates and are not counted).
    pub fn calculate_update_counts(&mut self)
        ensures
            *final(self) == (App {
                update_source_counts: Some(
                    UpdateCounts {
                        apt: count_pending(old(self).packages@, 0, old(self).packages@.len()) as usize,
                        snap: count_pending(old(self).packages@, 1, old(self).packages@.len()) as usize,
                        flatpak: count_pending(old(self).packages@, 2, old(self).packages@.len()) as usize,
                    },
                ),
                updates_checked: true,
                ..*old(self)
            }),
    {
        let mut apt: usize = 0;
        let mut snap: usize = 0;
        let mut flatpak: usize = 0;
        let n = self.packages.len();
        let mut i: usize = 0;
        while i < n
            invariant
                i <= n == self.packages@.len(),
                apt == count_pending(self.packages@, 0, i as nat),
                snap == count_pending(self.packages@, 1, i as nat),
                flatpak == count_pending(self.packages@, 2, i as nat),
            decreases n - i,
        {
            proof {
                lemma_count_pending_bound(self.packages@, 0, i as nat);
                lemma_count_pending_bound(self.packages@, 1, i as nat);
                lemma_count_pending_bound(self.packages@, 2, i as nat);
            }
            let p = &self.packages[i];
            if matches!(p.has_update, Some(true)) {
                match p.source {
                    PackageSource::Apt | PackageSource::DebFile => {
                        apt += 1;
                    },
                    PackageSource::Snap => {
                        snap += 1;
                    },
                    PackageSource::Flatpak => {
                        flatpak += 1;
                    },
                    PackageSource::AppImage => {},
                }
            }
            i += 1;
        }
        self.update_source_counts = Some(UpdateCounts { apt, snap, flatpak });
        self.updates_checked = true;
    }

    /// Total of the update counts, or zero when they were not computed.
    pub fn get_total_update_count(&self) -> (r: usize)
        requires
            match self.update_source_counts {
                Some(c) => c.apt + c.snap + c.flatpak <= usize::MAX,
                None => true,
            },
        ensures
            r == match self.update_source_counts {
                Some(c) => c.apt + c.snap + c.flatpak,
                None => 0,
            },
    {
        match self.update_source_counts {
            Some(c) => c.apt + c.snap + c.flatpak,
            None => 0,
        }
    }

    /// Positions of the packages due in an update of `source` (`None`: every
    /// source), in catalog order.
    pub fn get_packages_to_update(&self, source: Option<PackageSource>) -> (r: Vec<usize>)
        ensures
            r@ == update_indices(self.packages@, source, self.packages@.len()),
    {
        let mut out: Vec<usize> = Vec::new();
        let n = self.packages.len();
        let mut i: usize = 0;
        while i < n
            invariant
                i <= n == self.packages@.len(),
                out@ == update_indices(self.packages@, source, i as nat),
            decreases n - i,
        {
            let p = &self.packages[i];
            let due = matches!(p.has_update, Some(true)) && match source {
                None => true,
                Some(PackageSource::Apt) => p.source == PackageSource::Apt || p.source
                    == PackageSource::DebFile,
                Some(s) => p.source == s,
            };
            if due {
                out.push(i);
            }
            i += 1;
        }
        out
    }

    /// Forgets the progress of the last batch update.
    pub fn reset_update_progress(&mut self)
        ensures
            final(self).update_progress.is_fresh(),
            *final(self) == (App { update_progress: final(self).update_progress, ..*old(self) }),
    {
        self.update_progress = UpdateProgress::default();
    }

    /// Sorts the catalog by the current criterion and recomputes the filtered view.
    pub fn sort_packages(&mut self)
        ensures
            final(self).wf(),
            final(self).packages@.to_multiset() == old(self).packages@.to_multiset(),
            sorted_by(final(self).packages@, old(self).sort_criteria),
            final(self).refiltered_from(App { packages: final(self).packages, ..*old(self) }),
    {
        let criteria = self.sort_criteria;
        sort_packages(&mut self.packages, criteria);
        self.apply_filters();
    }

    /// Adds the packages of one scanner: the catalog is sorted again and the
    /// filtered view recomputed.
    pub fn add_packages(&mut self, new_packages: Vec<Package>)
        ensures
            final(self).wf(),
            final(self).packages@.to_multiset() == (old(self).packages@
                + new_packages@).to_multiset(),
            sorted_by(final(self).packages@, old(self).sort_criteria),
            final(self).refiltered_from(App { packages: final(self).packages, ..*old(self) }),
    {
        let mut new_packages = new_packages;
        self.packages.append(&mut new_packages);
        self.sort_packages();
    }

    /// Records that the scanner of `source` is running.
    pub fn scanner_started(&mut self, source: PackageSource)
        ensures
            *final(self) == (App {
                scanning_sources: final(self).scanning_sources,
                ..*old(self)
            }),
            final(self).scanning_sources@ == if old(self).scanning_sources@.contains(source) {
                old(self).scanning_sources@
            } else {
                old(self).scanning_sources@.push(source)
            },
    {
        let n = self.scanning_sources.len();
        let mut i: usize = 0;
        while i < n
            invariant
                i <= n == self.scanning_sources@.len(),
                forall|k: int| 0 <= k < i ==> self.scanning_sources@[k] != source,
            decreases n - i,
        {
            if self.scanning_sources[i] == source {
                return ;
            }
            i += 1;
        }
        self.scanning_sources.push(source);
    }

    /// Records that the scanner of `source` has finished.
    pub fn scanner_completed(&mut self, source: PackageSource)
        ensures
            *final(self) == (App {
                scanning_sources: final(self).scanning_sources,
                ..*old(self)
            }),
            final(self).scanning_sources@ == without_source(
                old(self).scanning_sources@,
                source,
                old(self).scanning_sources@.len(),
            ),
    {
        let mut kept: Vec<PackageSource> = Vec::new();
        let n = self.scanning_sources.len();
        let mut i: usize = 0;
        while i < n
            invariant
                i <= n == self.scanning_sources@.len(),
                kept@ == without_source(self.scanning_sources@, source, i as nat),
            decreases n - i,
        {
            let s = self.scanning_sources[i];
            if s != source {
                kept.push(s);
            }
            i += 1;
        }
        self.scanning_sources = kept;
    }

    /// Records that every scanner has finished.
    pub fn scanning_done(&mut self)
        ensures
            final(self).scanning_sources@.len() == 0,
            *final(self) == (App {
                scan_complete: true,
                scanning_sources: final(self).scanning_sources,
                ..*old(self)
            }),
    {
        self.scan_complete = true;
        self.scanning_sources = Vec::new();
    }

    /// Whether a scan is still going on.
    pub fn is_scanning(&self) -> (r: bool)
        ensures
            r == (!self.scan_complete || self.scanning_sources@.len() > 0),
    {
        !self.scan_complete || self.scanning_sources.len() > 0
    }

    /// The status line of the scan: empty once complete, otherwise the running
    /// sources.
    pub fn get_scan_status(&self) -> (r: String)
        ensures
            r@ == if self.scan_complete {
                seq![]
            } else if self.scanning_sources@.len() == 0 {
                "Starting scan..."@
            } else {
                "Scanning: "@ + join_labels(self.scanning_sources@)
            },
    {
        if self.scan_complete {
            return String::new();
        }
        let n = self.scanning_sources.len();
        if n == 0 {
            return String::from_str("Starting scan...");
        }
        let mut out = String::from_str("Scanning: ");
        out.append(self.scanning_sources[0].label());
        let mut i: usize = 1;
        while i < n
            invariant
                1 <= i <= n == self.scanning_sources@.len(),
                out@ == "Scanning: "@ + join_labels(self.scanning_sources@.subrange(0, i as int)),
            decreases n - i,
        {
            let ghost pre = self.scanning_sources@.subrange(0, i as int);
            out.append(", ");
            out.append(self.scanning_sources[i].label());
            proof {
                let cur = self.scanning_sources@.subrange(0, i + 1);
                assert(cur.drop_last() == pre);
                assert(cur.last() == self.scanning_sources@[i as int]);
            }
            i += 1;
        }
        proof {
            assert(self.scanning_sources@.subrange(0, n as int) == self.scanning_sources@);
        }
        out
    }
}


impl App {
    /// The position in the catalog of the selected row, when there is one.
    pub open spec fn selected_index(self) -> Option<int> {
        if self.selected < self.filtered_packages@.len() && self.filtered_packages@[self.selected as int]
            < self.packages@.len() {
            Some(self.filtered_packages@[self.selected as int] as int)
        } else {
            None
        }
    }

    /// Switches to the next source tab.
    pub fn next_tab(&mut self)
        ensures
            final(self).refiltered_from(
                App {
                    source_tab: old(self).source_tab.spec_next(),
                    ..*old(self)
                },
            ),
    {
        self.source_tab = self.source_tab.next();
        self.apply_filters();
    }

    /// Switches to the previous source tab.
    pub fn prev_tab(&mut self)
        ensures
            final(self).refiltered_from(
                App {
                    source_tab: old(self).source_tab.spec_prev(),
                    ..*old(self)
                },
            ),
    {
        self.source_tab = self.source_tab.prev();
        self.apply_filters();
    }

    /// Types a character into the search.
    pub fn search_input(&mut self, c: char)
        ensures
            final(self).search_query@ == old(self).search_query@.push(c),
            final(self).refiltered_from(
                App {
                    search_query: final(self).search_query,
                    ..*old(self)
                },
            ),
    {
        push_char(&mut self.search_query, c);
        self.apply_filters();
    }

    /// Deletes the last character of the search, if any.
    pub fn search_backspace(&mut self)
        ensures
            final(self).search_query@ == if old(self).search_query@.len() == 0 {
                old(self).search_query@
            } else {
                old(self).search_query@.drop_last()
            },
            final(self).refiltered_from(App { search_query: final(self).search_query, ..*old(self) }),
    {
        pop_char(&mut self.search_query);
        self.apply_filters();
    }

    /// Empties the search.
    pub fn clear_search(&mut self)
        ensures
            final(self).search_query@.len() == 0,
            final(self).refiltered_from(
                App {
                    search_query: final(self).search_query,
                    ..*old(self)
                },
            ),
    {
        self.search_query = String::new();
        self.apply_filters();
    }

    /// The package under the cursor, if any.
    pub fn selected_package(&self) -> (r: Option<&Package>)
        ensures
            match self.selected_index() {
                Some(i) => r == Some(&self.packages@[i]),
                None => r.is_none(),
            },
    {
        if self.selected < self.filtered_packages.len() {
            let idx = self.filtered_packages[self.selected];
            if idx < self.packages.len() {
                return Some(&self.packages[idx]);
            }
        }
        None
    }

    /// Moves the cursor up one row, stopping at the top.
    pub fn select_previous(&mut self)
        ensures
            old(self).wf() ==> final(self).wf(),
            *final(self) == (App {
                selected: if old(self).selected > 0 {
                    (old(self).selected - 1) as usize
                } else {
                    0
                },
                ..*old(self)
            }),
    {
        if self.selected > 0 {
            self.selected -= 1;
        }
    }

    /// Moves the cursor down one row, stopping at the last.
    pub fn select_next(&mut self)
        ensures
            old(self).wf() ==> final(self).wf(),
            *final(self) == (App {
                selected: if old(self).selected < old(self).last_row() {
                    (old(self).selected + 1) as usize
                } else {
                    old(self).selected
                },
                ..*old(self)
            }),
    {
        if self.selected < self.filtered_packages.len().saturating_sub(1) {
            self.selected += 1;
        }
    }

    /// Moves the cursor to the top.
    pub fn select_first(&mut self)
        ensures
            old(self).wf() ==> final(self).wf(),
            *final(self) == (App { selected: 0, ..*old(self) }),
    {
        self.selected = 0;
    }

    /// Moves the cursor to the last row.
    pub fn select_last(&mut self)
        ensures
            old(self).wf() ==> final(self).wf(),
            *final(self) == (App { selected: old(self).last_row() as usize, ..*old(self) }),
    {
        self.selected = self.filtered_packages.len().saturating_sub(1);
    }

    /// Moves the cursor up by a page, stopping at the top.
    pub fn page_up(&mut self, page_size: usize)
        ensures
            old(self).wf() ==> final(self).wf(),
            *final(self) == (App {
                selected: if old(self).selected >= page_size {
                    (old(self).selected - page_size) as usize
                } else {
                    0
                },
                ..*old(self)
            }),
    {
        self.selected = self.selected.saturating_sub(page_size);
    }

    /// Moves the cursor down by a page, stopping at the last row.
    pub fn page_down(&mut self, page_size: usize)
        ensures
            old(self).wf() ==> final(self).wf(),
            *final(self) == (App {
                selected: if old(self).selected + page_size <= old(self).last_row() {
                    (old(self).selected + page_size) as usize
                } else {
                    old(self).last_row() as usize
                },
                ..*old(self)
            }),
    {
        let last = self.filtered_packages.len().saturating_sub(1);
        let target = self.selected.saturating_add(page_size);
        self.selected = if target < last {
            target
        } else {
            last
        };
    }

    /// Switches to the next sort criterion and sorts again.
    pub fn toggle_sort(&mut self)
        ensures
            final(self).wf(),
            final(self).packages@.to_multiset() == old(self).packages@.to_multiset(),
            sorted_by(final(self).packages@, old(self).sort_criteria.spec_next()),
            final(self).refiltered_from(
                App {
                    sort_criteria: old(self).sort_criteria.spec_next(),
                    packages: final(self).packages,
                    ..*old(self)
                },
            ),
    {
        self.sort_criteria = self.sort_criteria.next();
        self.sort_packages();
    }

    /// Switches to the next application type filter.
    pub fn toggle_filter(&mut self)
        ensures
            final(self).refiltered_from(
                App {
                    app_type_filter: old(self).app_type_filter.spec_next(),
                    ..*old(self)
                },
            ),
    {
        self.app_type_filter = self.app_type_filter.next();
        self.apply_filters();
    }

    /// Opens the details of the selected package; nothing happens when no
    /// package is selected.
    pub fn show_details(&mut self)
        ensures
            *final(self) == if old(self).selected_index().is_some() {
                App { details_scroll: 0, view: View::Details, ..*old(self) }
            } else {
                *old(self)
            },
    {
        if self.selected_package().is_some() {
            self.details_scroll = 0;
            self.view = View::Details;
        }
    }

    /// Goes back to the package list.
    pub fn hide_details(&mut self)
        ensures
            *final(self) == (App { view: View::Main, ..*old(self) }),
    {
        self.view = View::Main;
    }

    /// Asks to confirm the uninstall of the selected package; nothing happens
    /// when no package is selected.
    pub fn request_uninstall(&mut self)
        ensures
            *final(self) == if old(self).selected_index().is_some() {
                App {
                    confirm_action: Some(ConfirmAction::Uninstall),
                    view: View::Confirm,
                    ..*old(self)
                }
            } else {
                *old(self)
            },
    {
        if self.selected_package().is_some() {
            self.confirm_action = Some(ConfirmAction::Uninstall);
            self.view = View::Confirm;
        }
    }

    /// Asks to confirm the update of the selected package; only a package
    /// known to have an update can be updated.
    pub fn request_update(&mut self)
        ensures
            *final(self) == match old(self).selected_index() {
                Some(i) if has_pending_update(old(self).packages@[i]) => App {
                    confirm_action: Some(ConfirmAction::Update),
                    view: View::Confirm,
                    ..*old(self)
                },
                _ => *old(self),
            },
    {
        let due = match self.selected_package() {
            Some(pkg) => matches!(pkg.has_update, Some(true)),
            None => false,
        };
        if due {
            self.confirm_action = Some(ConfirmAction::Update);
            self.view = View::Confirm;
        }
    }

    /// Drops the pending confirmation and goes back to the package list.
    pub fn cancel_confirm(&mut self)
        ensures
            *final(self) == (App { confirm_action: None, view: View::Main, ..*old(self) }),
    {
        self.confirm_action = None;
        self.view = View::Main;
    }

    /// Offers every package with a known update for updating, all of them
    /// marked; stays on the current view when there is none.
    pub fn show_update_selection(&mut self)
        ensures
            old(self).wf() ==> final(self).wf(),
            final(self).update_selection@ == update_indices(
                old(self).packages@,
                None,
                old(self).packages@.len(),
            ),
            final(self).packages@.len() == old(self).packages@.len(),
            forall|i: int|
                0 <= i < old(self).packages@.len() ==> #[trigger] final(self).packages@[i] == if (
                final(self).update_selection@.len() > 0 && has_pending_update(
                    old(self).packages@[i],
                )) {
                    Package { selected: true, ..old(self).packages@[i] }
                } else {
                    old(self).packages@[i]
                },
            final(self).view == if final(self).update_selection@.len() > 0 {
                View::UpdateSelect
            } else {
                old(self).view
            },
            *final(self) == (App {
                update_selection: final(self).update_selection,
                packages: final(self).packages,
                view: final(self).view,
                ..*old(self)
            }),
    {
        self.update_selection = self.get_packages_to_update(None);
        if self.update_selection.len() > 0 {
            let n = self.packages.len();
            let mut i: usize = 0;
            while i < n
                invariant
                    i <= n == self.packages@.len() == old(self).packages@.len(),
                    self.update_selection@.len() > 0,
                    forall|k: int|
                        0 <= k < n ==> #[trigger] self.packages@[k] == if (k < i
                            && has_pending_update(old(self).packages@[k])) {
                            Package { selected: true, ..old(self).packages@[k] }
                        } else {
                            old(self).packages@[k]
                        },
                    self.update_selection@ == update_indices(old(self).packages@, None, n as nat),
                    *self == (App {
                        packages: self.packages,
                        update_selection: self.update_selection,
                        ..*old(self)
                    }),
                decreases n - i,
            {
                if matches!(self.packages[i].has_update, Some(true)) {
                    self.packages[i].selected = true;
                }
                i += 1;
            }
            self.view = View::UpdateSelect;
            proof {
                lemma_filter_indices_same(
                    old(self).packages@,
                    self.packages@,
                    self.source_tab,
                    self.search_query@,
                    self.app_type_filter,
                    n as nat,
                );
            }
        }
    }

    /// Counts of packages: in all, then APT (with Deb installs), Snap,
    /// Flatpak and AppImage.
    pub fn get_stats(&self) -> (r: (usize, usize, usize, usize, usize))
        ensures
            r.0 == self.packages@.len(),
            r.1 == count_family(self.packages@, 0, self.packages@.len()),
            r.2 == count_family(self.packages@, 1, self.packages@.len()),
            r.3 == count_family(self.packages@, 2, self.packages@.len()),
            r.4 == count_family(self.packages@, 3, self.packages@.len()),
    {
        let mut apt: usize = 0;
        let mut snap: usize = 0;
        let mut flatpak: usize = 0;
        let mut appimage: usize = 0;
        let n = self.packages.len();
        let mut i: usize = 0;
        while i < n
            invariant
                i <= n == self.packages@.len(),
                apt == count_family(self.packages@, 0, i as nat),
                snap == count_family(self.packages@, 1, i as nat),
                flatpak == count_family(self.packages@, 2, i as nat),
                appimage == count_family(self.packages@, 3, i as nat),
            decreases n - i,
        {
            proof {
                lemma_count_family_bound(self.packages@, 0, i as nat);
                lemma_count_family_bound(self.packages@, 1, i as nat);
                lemma_count_family_bound(self.packages@, 2, i as nat);
                lemma_count_family_bound(self.packages@, 3, i as nat);
            }
            match self.packages[i].source {
                PackageSource::Apt | PackageSource::DebFile => {
                    apt += 1;
                },
                PackageSource::Snap => {
                    snap += 1;
                },
                PackageSource::Flatpak => {
                    flatpak += 1;
                },
                PackageSource::AppImage => {
                    appimage += 1;
                },
            }
            i += 1;
        }
        (n, apt, snap, flatpak, appimage)
    }

    /// Number of packages with a known update.
    pub fn get_update_count(&self) -> (r: usize)
        ensures
            r == count_with_update(self.packages@, self.packages@.len()),
    {
        let mut count: usize = 0;
        let n = self.packages.len();
        let mut i: usize = 0;
        while i < n
            invariant
                i <= n == self.packages@.len(),
                count == count_with_update(self.packages@, i as nat),
            decreases n - i,
        {
            proof {
                lemma_count_with_update_bound(self.packages@, i as nat);
            }
            if matches!(self.packages[i].has_update, Some(true)) {
                count += 1;
            }
            i += 1;
        }
        count
    }

    /// Gives the focus to the sidebar or takes it back.
    pub fn toggle_sidebar_focus(&mut self)
        ensures
            *final(self) == (App { sidebar_focused: !old(self).sidebar_focused, ..*old(self) }),
    {
        self.sidebar_focused = !self.sidebar_focused;
    }

    /// Moves to the next sidebar section.
    pub fn next_sidebar_section(&mut self)
        ensures
            *final(self) == (App {
                sidebar_section: old(self).sidebar_section.spec_next(),
                ..*old(self)
            }),
    {
        self.sidebar_section = self.sidebar_section.next();
    }

    /// Moves to the previous sidebar section.
    pub fn prev_sidebar_section(&mut self)
        ensures
            *final(self) == (App {
                sidebar_section: old(self).sidebar_section.spec_prev(),
                ..*old(self)
            }),
    {
        self.sidebar_section = self.sidebar_section.prev();
    }
}


/// The packages of the three update families together are no more than the
/// catalog.
pub proof fn lemma_counts_within(pkgs: Seq<Package>)
    ensures
        count_pending(pkgs, 0, pkgs.len()) + count_pending(pkgs, 1, pkgs.len()) + count_pending(
            pkgs,
            2,
            pkgs.len(),
        ) <= pkgs.len(),
{
    lemma_counts_within_prefix(pkgs, pkgs.len());
}

proof fn lemma_counts_within_prefix(pkgs: Seq<Package>, n: nat)
    ensures
        count_pending(pkgs, 0, n) + count_pending(pkgs, 1, n) + count_pending(pkgs, 2, n) <= n,
    decreases n,
{
    if n > 0 {
        lemma_counts_within_prefix(pkgs, (n - 1) as nat);
    }
}


/// After the filtered view is recomputed, the selection is a valid row (or
/// zero on an empty view), and a selection that would point past the end
/// lands exactly on the last row.
pub proof fn lemma_selection_clamped(before: App, after: App)
    requires
        after.refiltered_from(before),
    ensures
        after.selected < after.filtered_packages@.len() || (after.filtered_packages@.len() == 0
            && after.selected == 0),
        before.selected >= after.filtered_packages@.len() ==> after.selected == if after.filtered_packages@.len() == 0 {
            0
        } else {
            after.filtered_packages@.len() - 1
        },
        before.selected < after.filtered_packages@.len() ==> after.selected == before.selected,
{
}

} // verus!
