//! Update reconciliation: per-name results of the update checks merged into
//! the catalog's update flags.

use vstd::prelude::*;
use crate::package::Package;
use crate::scanner::{merge_outcomes, merged_contributions};

verus! {

/// The version offered for `name` by the last entry that names it, if any.
pub open spec fn offered_version(updates: Seq<(String, String)>, name: Seq<char>) -> Option<
    Seq<char>,
>
    decreases updates.len(),
{
    if updates.len() == 0 {
        None
    } else if updates.last().0@ == name {
        Some(updates.last().1@)
    } else {
        offered_version(updates.drop_last(), name)
    }
}

/// The view of an optional string.
pub open spec fn opt_view(s: Option<String>) -> Option<Seq<char>> {
    match s {
        Some(v) => Some(v@),
        None => None,
    }
}

/// `after` is `before` with its update flags settled against `updates`: a
/// package named in them has an update to the version last offered, any
/// other has none (its recorded update version is kept).
pub open spec fn reconciled(before: Package, after: Package, updates: Seq<(String, String)>) -> bool {
    match offered_version(updates, before.name@) {
        Some(v) => {
            &&& after == (Package {
                has_update: Some(true),
                update_version: after.update_version,
                ..before
            })
            &&& opt_view(after.update_version) == Some(v)
        },
        None => after == (Package { has_update: Some(false), ..before }),
    }
}

/// Every package of `after` is the one at the same position of `before`,
/// reconciled.
pub open spec fn all_reconciled(
    before: Seq<Package>,
    after: Seq<Package>,
    updates: Seq<(String, String)>,
) -> bool {
    &&& after.len() == before.len()
    &&& forall|i: int| 0 <= i < before.len() ==> reconciled(before[i], #[trigger] after[i], updates)
}

/// Running the reconciliation twice against the same update results leaves
/// every package's update flag and update version as the first run left them.
pub proof fn lemma_reconcile_idempotent(
    first: Seq<Package>,
    once: Seq<Package>,
    twice: Seq<Package>,
    updates: Seq<(String, String)>,
)
    requires
        all_reconciled(first, once, updates),
        all_reconciled(once, twice, updates),
    ensures
        twice.len() == once.len(),
        forall|i: int|
            0 <= i < once.len() ==> (#[trigger] twice[i]).has_update == once[i].has_update
                && opt_view(twice[i].update_version) == opt_view(once[i].update_version)
                && twice[i].name == once[i].name,
{
    assert forall|i: int| 0 <= i < once.len() implies (#[trigger] twice[i]).has_update
        == once[i].has_update && opt_view(twice[i].update_version) == opt_view(
        once[i].update_version,
    ) && twice[i].name == once[i].name by {
        assert(reconciled(first[i], once[i], updates));
        assert(reconciled(once[i], twice[i], updates));
    }
}

/// The version offered for `name`, searching from the last entry.
pub fn find_offered_version(updates: &Vec<(String, String)>, name: &String) -> (r: Option<usize>)
    ensures
        match r {
            Some(j) => j < updates@.len() && offered_version(updates@, name@) == Some(
                updates@[j as int].1@,
            ),
            None => offered_version(updates@, name@).is_none(),
        },
{
    let mut j: usize = updates.len();
    assert(updates@.subrange(0, j as int) == updates@);
    while j > 0
        invariant
            j <= updates@.len(),
            offered_version(updates@, name@) == offered_version(updates@.subrange(0, j as int), name@),
        decreases j,
    {
        let ghost pre = updates@.subrange(0, j as int);
        assert(pre.drop_last() == updates@.subrange(0, j - 1));
        if updates[j - 1].0 == *name {
            return Some(j - 1);
        }
        j -= 1;
    }
    None
}

/// Settles the update flag of every package against the merged update
/// results: each package is visited once, and none is left unknown.
pub fn reconcile_updates(packages: &mut Vec<Package>, updates: &Vec<(String, String)>)
    ensures
        all_reconciled(old(packages)@, final(packages)@, updates@),
{
    let n = packages.len();
    let mut i: usize = 0;
    while i < n
        invariant
            i <= n == packages@.len() == old(packages)@.len(),
            forall|k: int| 0 <= k < i ==> reconciled(old(packages)@[k], #[trigger] packages@[k], updates@),
            forall|k: int| i <= k < n ==> #[trigger] packages@[k] == old(packages)@[k],
        decreases n - i,
    {
        let found = find_offered_version(updates, &packages[i].name);
        match found {
            Some(j) => {
                let v = updates[j].1.clone();
                packages[i].has_update = Some(true);
                packages[i].update_version = Some(v);
            },
            None => {
                packages[i].has_update = Some(false);
            },
        }
        i += 1;
    }
}

/// Merges the update lists of every source that is available and answered;
/// a later entry for the same name wins in `reconcile_updates`.
pub fn merge_update_results(results: Vec<(bool, Option<Vec<(String, String)>>)>) -> (r: Vec<(String, String)>)
    ensures
        r@ == merged_contributions(results@, results@.len()),
{
    merge_outcomes(results)
}

} // verus!
