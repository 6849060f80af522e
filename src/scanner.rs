//! Source scanners as tagged variants, the events of a streaming scan, and
//! the merging of per-source results into the catalog.

use vstd::prelude::*;
use crate::package::{Package, PackageSource};

verus! {

/// Scanner of APT/dpkg packages.
#[derive(Debug, Clone, Copy, PartialEq, Eq, Structural)]
pub struct AptScanner;

/// Scanner of Snap packages.
#[derive(Debug, Clone, Copy, PartialEq, Eq, Structural)]
pub struct SnapScanner;

/// Scanner of Flatpak applications.
#[derive(Debug, Clone, Copy, PartialEq, Eq, Structural)]
pub struct FlatpakScanner;

/// Scanner of AppImage files.
#[derive(Debug, Clone, Copy, PartialEq, Eq, Structural)]
pub struct AppImageScanner;

/// What every scanner tells about itself without running a tool.
pub trait PackageScanner {
    /// The source whose packages this scanner finds.
    fn source_type(&self) -> PackageSource;
}

impl AptScanner {
    pub fn new() -> (r: AptScanner) {
        AptScanner
    }
}

impl SnapScanner {
    pub fn new() -> (r: SnapScanner) {
        SnapScanner
    }
}

impl FlatpakScanner {
    pub fn new() -> (r: FlatpakScanner) {
        FlatpakScanner
    }
}

impl AppImageScanner {
    pub fn new() -> (r: AppImageScanner) {
        AppImageScanner
    }
}

impl PackageScanner for AptScanner {
    fn source_type(&self) -> PackageSource {
        PackageSource::Apt
    }
}

impl PackageScanner for SnapScanner {
    fn source_type(&self) -> PackageSource {
        PackageSource::Snap
    }
}

impl PackageScanner for FlatpakScanner {
    fn source_type(&self) -> PackageSource {
        PackageSource::Flatpak
    }
}

impl PackageScanner for AppImageScanner {
    fn source_type(&self) -> PackageSource {
        PackageSource::AppImage
    }
}

/// One scanner, selected at run time by source.
#[derive(Debug, Clone, Copy, PartialEq, Eq, Structural)]
pub enum Scanner {
    Apt(AptScanner),
    Snap(SnapScanner),
    Flatpak(FlatpakScanner),
    AppImage(AppImageScanner),
}

impl Scanner {
    /// The source whose packages the scanner finds.
    pub open spec fn spec_source(self) -> PackageSource {
        match self {
            Scanner::Apt(_) => PackageSource::Apt,
            Scanner::Snap(_) => PackageSource::Snap,
            Scanner::Flatpak(_) => PackageSource::Flatpak,
            Scanner::AppImage(_) => PackageSource::AppImage,
        }
    }

    /// The source whose packages the scanner finds.
    pub fn source_type(&self) -> (r: PackageSource)
        ensures
            r == self.spec_source(),
    {
        match self {
            Scanner::Apt(_) => PackageSource::Apt,
            Scanner::Snap(_) => PackageSource::Snap,
            Scanner::Flatpak(_) => PackageSource::Flatpak,
            Scanner::AppImage(_) => PackageSource::AppImage,
        }
    }

    /// Whether the source has a central channel to ask for updates
    /// (AppImages have none).
    pub fn checks_updates(&self) -> (r: bool)
        ensures
            r == (self.spec_source() != PackageSource::AppImage),
    {
        !matches!(self, Scanner::AppImage(_))
    }
}

/// The scanner that handles packages of a source; Deb installs go through APT.
pub fn get_scanner(source: PackageSource) -> (r: Scanner)
    ensures
        r.spec_source() == match source {
            PackageSource::DebFile => PackageSource::Apt,
            s => s,
        },
{
    match source {
        PackageSource::Apt | PackageSource::DebFile => Scanner::Apt(AptScanner::new()),
        PackageSource::Snap => Scanner::Snap(SnapScanner::new()),
        PackageSource::Flatpak => Scanner::Flatpak(FlatpakScanner::new()),
        PackageSource::AppImage => Scanner::AppImage(AppImageScanner::new()),
    }
}

/// Every scanner, one per source: APT, Snap, Flatpak, AppImage.
pub fn all_scanners() -> (r: Vec<Scanner>)
    ensures
        r@.len() == 4,
        r@[0].spec_source() == PackageSource::Apt,
        r@[1].spec_source() == PackageSource::Snap,
        r@[2].spec_source() == PackageSource::Flatpak,
        r@[3].spec_source() == PackageSource::AppImage,
{
    let mut v: Vec<Scanner> = Vec::new();
    v.push(Scanner::Apt(AptScanner::new()));
    v.push(Scanner::Snap(SnapScanner::new()));
    v.push(Scanner::Flatpak(FlatpakScanner::new()));
    v.push(Scanner::AppImage(AppImageScanner::new()));
    v
}

/// The scanners asked for updates: every one with a central update channel.
pub fn update_scanners() -> (r: Vec<Scanner>)
    ensures
        forall|i: int| 0 <= i < r@.len() ==> (#[trigger] r@[i]).spec_source() != PackageSource::AppImage,
        r@.len() == 3,
        r@[0].spec_source() == PackageSource::Apt,
        r@[1].spec_source() == PackageSource::Snap,
        r@[2].spec_source() == PackageSource::Flatpak,
{
    let all = all_scanners();
    let mut v: Vec<Scanner> = Vec::new();
    let mut i: usize = 0;
    while i < all.len()
        invariant
            i <= all@.len() == 4,
            all@[0].spec_source() == PackageSource::Apt,
            all@[1].spec_source() == PackageSource::Snap,
            all@[2].spec_source() == PackageSource::Flatpak,
            all@[3].spec_source() == PackageSource::AppImage,
            i <= 3 ==> v@ == all@.subrange(0, i as int),
            i == 4 ==> v@ == all@.subrange(0, 3),
        decreases all@.len() - i,
    {
        if all[i].checks_updates() {
            v.push(all[i]);
        }
        i += 1;
    }
    v
}

/// Message sent by the scanners during a streaming scan.
#[derive(Debug)]
pub enum ScanMessage {
    /// A batch of packages was found
    Packages(Vec<Package>),
    /// Scanner started for a source
    Started(PackageSource),
    /// Scanner completed for a source
    Completed(PackageSource),
    /// All scanning done
    Done,
}

/// The messages of one scanner's task, in the order they are sent.
pub open spec fn task_messages(
    source: PackageSource,
    available: bool,
    scanned: Option<Vec<Package>>,
) -> Seq<ScanMessage> {
    match scanned {
        Some(v) if available && v@.len() > 0 => seq![
            ScanMessage::Started(source),
            ScanMessage::Packages(v),
            ScanMessage::Completed(source),
        ],
        _ => seq![ScanMessage::Started(source), ScanMessage::Completed(source)],
    }
}

/// The messages one scanner's task sends, given whether its tool is there and
/// what its scan gave (`None`: the scan failed). A failed or empty scan sends
/// no batch; the source still starts and completes.
pub fn scan_task_messages(source: PackageSource, available: bool, scanned: Option<Vec<Package>>) -> (r: Vec<ScanMessage>)
    ensures
        r@ == task_messages(source, available, scanned),
{
    let mut out: Vec<ScanMessage> = Vec::new();
    out.push(ScanMessage::Started(source));
    if available {
        if let Some(v) = scanned {
            if v.len() > 0 {
                out.push(ScanMessage::Packages(v));
            }
        }
    }
    out.push(ScanMessage::Completed(source));
    proof {
        assert(out@ =~= task_messages(source, available, scanned));
    }
    out
}

/// The packages that one scanner contributes: none when its tool is missing or
/// its scan failed.
pub open spec fn contribution<T>(available: bool, scanned: Option<Vec<T>>) -> Seq<T> {
    match scanned {
        Some(v) if available => v@,
        _ => seq![],
    }
}

/// The concatenation of the contributions of the first `n` scanners.
pub open spec fn merged_contributions<T>(results: Seq<(bool, Option<Vec<T>>)>, n: nat) -> Seq<T>
    decreases n,
{
    if n == 0 {
        seq![]
    } else {
        merged_contributions(results, (n - 1) as nat) + contribution(
            results[n - 1].0,
            results[n - 1].1,
        )
    }
}

/// Merges the outcome of every scanner, each given as whether its tool is
/// there and what its scan gave (`None`: failed), into one list: a source that
/// is missing or fails contributes nothing and never aborts the others.
pub fn merge_scan_results(results: Vec<(bool, Option<Vec<Package>>)>) -> (r: Vec<Package>)
    ensures
        r@ == merged_contributions(results@, results@.len()),
{
    merge_outcomes(results)
}

/// Concatenates the results of every source that is available and succeeded,
/// in the order given.
pub fn merge_outcomes<T>(results: Vec<(bool, Option<Vec<T>>)>) -> (r: Vec<T>)
    ensures
        r@ == merged_contributions(results@, results@.len()),
{
    let ghost all = results@;
    let mut rest = results;
    let mut out: Vec<T> = Vec::new();
    let ghost mut i: int = 0;
    while rest.len() > 0
        invariant
            i + rest@.len() == all.len(),
            0 <= i,
            rest@ == all.subrange(i, all.len() as int),
            out@ == merged_contributions(all, i as nat),
        decreases rest@.len(),
    {
        let (available, scanned) = rest.remove(0);
        if available {
            if let Some(mut v) = scanned {
                out.append(&mut v);
            }
        }
        proof {
            assert(all[i] == (available, scanned));
            i = i + 1;
        }
    }
    out
}


/// The messages that task `t` sent, in the order received, in a stream of
/// (task, message) pairs.
pub open spec fn messages_of(stream: Seq<(nat, ScanMessage)>, t: nat) -> Seq<ScanMessage>
    decreases stream.len(),
{
    if stream.len() == 0 {
        seq![]
    } else {
        let prev = messages_of(stream.drop_last(), t);
        if stream.last().0 == t {
            prev.push(stream.last().1)
        } else {
            prev
        }
    }
}

/// How many messages of task `t` come before position `i` of the stream.
pub open spec fn rank(stream: Seq<(nat, ScanMessage)>, t: nat, i: int) -> int {
    messages_of(stream.subrange(0, i), t).len() as int
}

proof fn lemma_rank_index(stream: Seq<(nat, ScanMessage)>, t: nat, i: int)
    requires
        0 <= i < stream.len(),
        stream[i].0 == t,
    ensures
        rank(stream, t, i) < messages_of(stream, t).len(),
        messages_of(stream, t)[rank(stream, t, i)] == stream[i].1,
    decreases stream.len(),
{
    let last = stream.len() - 1;
    assert(stream.drop_last() == stream.subrange(0, last));
    if i < last {
        assert(stream.drop_last().subrange(0, i) == stream.subrange(0, i));
        lemma_rank_index(stream.drop_last(), t, i);
    }
}

proof fn lemma_rank_grows(stream: Seq<(nat, ScanMessage)>, t: nat, i: int, j: int)
    requires
        0 <= i < j <= stream.len(),
        stream[i].0 == t,
    ensures
        rank(stream, t, i) < rank(stream, t, j),
    decreases j - i,
{
    assert(stream.subrange(0, j).drop_last() == stream.subrange(0, j - 1));
    if j == i + 1 {
        assert(stream.subrange(0, j).last() == stream[i]);
    } else {
        lemma_rank_grows(stream, t, i, j - 1);
    }
}

proof fn lemma_message_sent(stream: Seq<(nat, ScanMessage)>, t: nat, k: int)
    requires
        0 <= k < messages_of(stream, t).len(),
    ensures
        exists|i: int| 0 <= i < stream.len() && #[trigger] stream[i] == (t, messages_of(stream, t)[k]),
    decreases stream.len(),
{
    let prev = messages_of(stream.drop_last(), t);
    if k < prev.len() {
        lemma_message_sent(stream.drop_last(), t, k);
        let i = choose|i: int| 0 <= i < stream.drop_last().len() && #[trigger] stream.drop_last()[i] == (t, prev[k]);
        assert(stream[i] == (t, messages_of(stream, t)[k]));
    } else {
        assert(stream[stream.len() - 1] == (t, messages_of(stream, t)[k]));
    }
}

/// In a received stream where every message is tagged with the task that
/// sent it, and the channel keeps each task's own messages in order: a
/// source's `Completed` comes after every other message of its task, its
/// `Started` and its batches included.
pub proof fn lemma_completed_last(
    stream: Seq<(nat, ScanMessage)>,
    t: nat,
    source: PackageSource,
    available: bool,
    scanned: Option<Vec<Package>>,
    i: int,
    j: int,
)
    requires
        messages_of(stream, t) == task_messages(source, available, scanned),
        0 <= i < stream.len(),
        0 <= j < stream.len(),
        stream[i] == (t, ScanMessage::Completed(source)),
        stream[j].0 == t,
        j != i,
    ensures
        j < i,
{
    let msgs = messages_of(stream, t);
    lemma_rank_index(stream, t, i);
    lemma_rank_index(stream, t, j);
    assert(rank(stream, t, i) == msgs.len() - 1);
    if j > i {
        lemma_rank_grows(stream, t, i, j);
    }
}

/// In the same setting, a source's `Started` comes before every other
/// message of its task.
pub proof fn lemma_started_first(
    stream: Seq<(nat, ScanMessage)>,
    t: nat,
    source: PackageSource,
    available: bool,
    scanned: Option<Vec<Package>>,
    i: int,
    j: int,
)
    requires
        messages_of(stream, t) == task_messages(source, available, scanned),
        0 <= i < stream.len(),
        0 <= j < stream.len(),
        stream[i] == (t, ScanMessage::Started(source)),
        stream[j].0 == t,
        j != i,
    ensures
        i < j,
{
    let msgs = messages_of(stream, t);
    lemma_rank_index(stream, t, i);
    lemma_rank_index(stream, t, j);
    assert(rank(stream, t, i) == 0);
    if j < i {
        lemma_rank_grows(stream, t, j, i);
    }
}

/// When `Done` is sent after every task has sent all its messages, each
/// task's `Completed` was received before `Done`.
pub proof fn lemma_done_after_completed(
    stream: Seq<(nat, ScanMessage)>,
    t: nat,
    source: PackageSource,
    available: bool,
    scanned: Option<Vec<Package>>,
    done_tag: nat,
)
    requires
        messages_of(stream, t) == task_messages(source, available, scanned),
    ensures
        exists|i: int|
            0 <= i < stream.push((done_tag, ScanMessage::Done)).len() - 1 && #[trigger] stream.push(
                (done_tag, ScanMessage::Done),
            )[i] == (t, ScanMessage::Completed(source)),
{
    let msgs = messages_of(stream, t);
    let k = msgs.len() - 1;
    lemma_message_sent(stream, t, k);
    let i = choose|i: int| 0 <= i < stream.len() && #[trigger] stream[i] == (t, msgs[k]);
    assert(stream.push((done_tag, ScanMessage::Done))[i] == stream[i]);
}


/// A scanner task sends its source's `Started` first and its `Completed`
/// last, each exactly once, and between them nothing but batches.
pub proof fn lemma_task_messages_shape(source: PackageSource, available: bool, scanned: Option<Vec<Package>>)
    ensures
        ({
            let m = task_messages(source, available, scanned);
            &&& 2 <= m.len() <= 3
            &&& m[0] == ScanMessage::Started(source)
            &&& m[m.len() - 1] == ScanMessage::Completed(source)
            &&& forall|k: int| 0 < k < m.len() - 1 ==> (#[trigger] m[k]) is Packages
        }),
{
}

} // verus!
