//! What merging a batch keeps of the registry: every entry has a positive
//! number, and no two entries have the same.

use vstd::prelude::*;
use crate::addon::{first_of_project, AddonView};
use crate::batch::{carried_over, ids_of, in_batch, in_either, numbered_all, reconciled};
use crate::ids::{numbered, smallest_unused, smallest_unused_is_unique, taken, uses};

verus! {

/// Every entry has a positive number, and no two entries have the same.
pub open spec fn well_numbered(registry: Seq<AddonView>) -> bool {
    &&& forall|i: int| 0 <= i < registry.len() ==> registry[i].id >= 1
    &&& forall|i: int, j: int|
        0 <= i < j < registry.len() ==> registry[i].id != registry[j].id
}

/// Each add-on of the batch has the number of the first entry of its project
/// in the registry, or none where the registry has no such entry.
pub open spec fn numbers_inherited(addons: Seq<AddonView>, installed: Seq<AddonView>) -> bool {
    forall|k: int|
        0 <= k < addons.len() ==> (#[trigger] addons[k]).id == match first_of_project(
            installed,
            addons[k].project,
        ) {
            Some(entry) => entry.id,
            None => 0,
        }
}

/// No two add-ons of the batch have the same project.
pub open spec fn projects_differ(addons: Seq<AddonView>) -> bool {
    forall|k: int, l: int|
        0 <= k < l < addons.len() ==> addons[k].project != addons[l].project
}

/// The first entry of a project is an entry of the registry, and of that
/// project.
pub proof fn first_of_project_is_entry(registry: Seq<AddonView>, project: Seq<char>)
    ensures
        match first_of_project(registry, project) {
            Some(entry) => entry.project == project && exists|i: int|
                0 <= i < registry.len() && registry[i] == entry,
            None => true,
        },
    decreases registry.len(),
{
    if registry.len() > 0 {
        if registry.first().project == project {
            assert(registry[0] == registry.first());
        } else {
            let rest = registry.drop_first();
            first_of_project_is_entry(rest, project);
            if first_of_project(rest, project) is Some {
                let i = choose|i: int|
                    0 <= i < rest.len() && rest[i] == first_of_project(rest, project)->0;
                assert(registry[i + 1] == rest[i]);
            }
        }
    }
}

/// What is carried over comes from the registry in its order, and none of it
/// has a project of the batch.
pub proof fn carried_over_in_order(installed: Seq<AddonView>, batch: Seq<AddonView>)
    ensures
        carried_over(installed, batch).len() <= installed.len(),
        forall|a: int|
            0 <= a < carried_over(installed, batch).len() ==> !in_batch(
                batch,
                (#[trigger] carried_over(installed, batch)[a]).project,
            ) && exists|i: int|
                0 <= i < installed.len() && installed[i] == carried_over(installed, batch)[a],
        forall|a: int, b: int|
            #![trigger carried_over(installed, batch)[a], carried_over(installed, batch)[b]]
            0 <= a < b < carried_over(installed, batch).len() ==> exists|i: int, j: int|
                0 <= i < j < installed.len() && installed[i] == carried_over(installed, batch)[a]
                    && installed[j] == carried_over(installed, batch)[b],
    decreases installed.len(),
{
    if installed.len() > 0 {
        let front = installed.drop_last();
        let before = carried_over(front, batch);
        let all = carried_over(installed, batch);
        let last = installed.len() - 1;
        carried_over_in_order(front, batch);
        assert forall|a: int| 0 <= a < all.len() implies !in_batch(
            batch,
            (#[trigger] all[a]).project,
        ) && exists|i: int| 0 <= i < installed.len() && installed[i] == all[a] by {
            if a < before.len() {
                assert(all[a] == before[a]);
                let i = choose|i: int| 0 <= i < front.len() && front[i] == before[a];
                assert(installed[i] == all[a]);
            } else {
                assert(installed[last] == all[a]);
            }
        }
        assert forall|a: int, b: int|
            #![trigger all[a], all[b]]
            0 <= a < b < all.len() implies exists|i: int, j: int|
            0 <= i < j < installed.len() && installed[i] == all[a] && installed[j] == all[b] by {
            if b < before.len() {
                assert(all[a] == before[a] && all[b] == before[b]);
                let (i, j) = choose|i: int, j: int|
                    0 <= i < j < front.len() && front[i] == before[a] && front[j] == before[b];
                assert(installed[i] == all[a] && installed[j] == all[b]);
            } else {
                assert(all[a] == before[a]);
                let i = choose|i: int| 0 <= i < front.len() && front[i] == before[a];
                assert(installed[i] == all[a] && installed[last] == all[b]);
            }
        }
    }
}

/// The numbers that a batch is given: each add-on stays what it was but for
/// its number, an add-on with a number keeps it, and one without gets a
/// positive number that was not taken and that no other add-on of the batch
/// is given.
pub proof fn numbers_given(batch: Seq<AddonView>, used: Seq<u32>)
    requires
        used.len() + batch.len() < u32::MAX,
    ensures
        numbered_all(batch, used).len() == batch.len(),
        forall|k: int|
            0 <= k < batch.len() ==> {
                let given = #[trigger] numbered_all(batch, used)[k];
                &&& given == (AddonView { id: given.id, ..batch[k] })
                &&& batch[k].id != 0 ==> given.id == batch[k].id
                &&& batch[k].id == 0 ==> given.id >= 1 && !uses(used, given.id as int)
            },
        forall|k: int, l: int|
            #![trigger numbered_all(batch, used)[k], numbered_all(batch, used)[l]]
            0 <= k < l < batch.len() && batch[k].id == 0 && batch[l].id == 0 ==> numbered_all(
                batch,
                used,
            )[k].id != numbered_all(batch, used)[l].id,
    decreases batch.len(),
{
    if batch.len() > 0 {
        let first = batch.first();
        let rest = batch.drop_first();
        let then = taken(first, used);
        let all = numbered_all(batch, used);
        let after = numbered_all(rest, then);
        smallest_unused_is_unique(used);
        numbers_given(rest, then);
        assert(all =~= seq![numbered(first, used)] + after);
        assert forall|n: int| uses(used, n) implies uses(then, n) by {
            let i = choose|i: int| 0 <= i < used.len() && used[i] == n;
            assert(then[i] == n);
        }
        if first.id == 0 {
            assert(then[used.len() as int] == smallest_unused(used));
            assert(uses(then, smallest_unused(used)));
        }
        assert forall|k: int| 0 <= k < batch.len() implies {
            let given = #[trigger] all[k];
            &&& given == (AddonView { id: given.id, ..batch[k] })
            &&& batch[k].id != 0 ==> given.id == batch[k].id
            &&& batch[k].id == 0 ==> given.id >= 1 && !uses(used, given.id as int)
        } by {
            if k > 0 {
                assert(all[k] == after[k - 1]);
                assert(batch[k] == rest[k - 1]);
            }
        }
        assert forall|k: int, l: int|
            #![trigger all[k], all[l]]
            0 <= k < l < batch.len() && batch[k].id == 0 && batch[l].id == 0 implies all[k].id
            != all[l].id by {
            assert(all[l] == after[l - 1]);
            assert(batch[l] == rest[l - 1]);
            if k > 0 {
                assert(all[k] == after[k - 1]);
                assert(batch[k] == rest[k - 1]);
            }
        }
    }
}

/// Merging a batch into a registry keeps the numbers apart: where every
/// entry of the registry has a positive number of its own, each add-on of the
/// batch has the number of the entry it replaces or none, and no two add-ons
/// of the batch have the same project, every entry of the new registry has a
/// positive number of its own again.
pub proof fn merge_keeps_numbers_apart(
    addons: Seq<AddonView>,
    failed: Seq<AddonView>,
    installed: Seq<AddonView>,
)
    requires
        well_numbered(installed),
        numbers_inherited(addons, installed),
        projects_differ(addons),
        addons.len() + installed.len() < u32::MAX,
    ensures
        well_numbered(reconciled(addons, failed, installed)),
{
    let used = ids_of(installed);
    let given = numbered_all(addons, used);
    let dropped = addons + failed;
    let kept = carried_over(installed, dropped);
    let merged = reconciled(addons, failed, installed);
    numbers_given(addons, used);
    carried_over_in_order(installed, dropped);
    assert forall|i: int| 0 <= i < installed.len() implies uses(
        used,
        (#[trigger] installed[i]).id as int,
    ) by {
        assert(used[i] == installed[i].id);
    }
    assert forall|k: int| 0 <= k < addons.len() implies (#[trigger] given[k]).id >= 1 && (
    addons[k].id != 0 ==> exists|i: int|
        0 <= i < installed.len() && installed[i].id == given[k].id && installed[i].project
            == addons[k].project) by {
        first_of_project_is_entry(installed, addons[k].project);
        let _ = addons[k];
    }
    assert forall|a: int| 0 <= a < kept.len() implies !in_batch(
        addons,
        (#[trigger] kept[a]).project,
    ) by {
        in_either(addons, failed, kept[a].project);
    }
    assert forall|i: int| 0 <= i < merged.len() implies merged[i].id >= 1 by {
        if i >= given.len() {
            let a = i - given.len();
            assert(merged[i] == kept[a]);
            let at = choose|at: int| 0 <= at < installed.len() && installed[at] == kept[a];
        }
    }
    assert forall|i: int, j: int| 0 <= i < j < merged.len() implies merged[i].id
        != merged[j].id by {
        if j < given.len() {
            let _ = (given[i], given[j], addons[i], addons[j]);
            if addons[i].id != 0 && addons[j].id != 0 {
                let x = choose|x: int|
                    0 <= x < installed.len() && installed[x].id == given[i].id
                        && installed[x].project == addons[i].project;
                let y = choose|y: int|
                    0 <= y < installed.len() && installed[y].id == given[j].id
                        && installed[y].project == addons[j].project;
                assert(x != y);
            } else if addons[i].id != 0 {
                let x = choose|x: int|
                    0 <= x < installed.len() && installed[x].id == given[i].id
                        && installed[x].project == addons[i].project;
                assert(uses(used, installed[x].id as int));
            } else if addons[j].id != 0 {
                let y = choose|y: int|
                    0 <= y < installed.len() && installed[y].id == given[j].id
                        && installed[y].project == addons[j].project;
                assert(uses(used, installed[y].id as int));
            }
        } else if i < given.len() {
            let b = j - given.len();
            assert(merged[j] == kept[b]);
            let _ = (given[i], addons[i]);
            let y = choose|y: int| 0 <= y < installed.len() && installed[y] == kept[b];
            if addons[i].id != 0 {
                let x = choose|x: int|
                    0 <= x < installed.len() && installed[x].id == given[i].id
                        && installed[x].project == addons[i].project;
                if x == y {
                    assert(addons[i].project == kept[b].project);
                    assert(in_batch(addons, kept[b].project));
                }
            } else {
                assert(uses(used, installed[y].id as int));
            }
        } else {
            let a = i - given.len();
            let b = j - given.len();
            assert(merged[i] == kept[a] && merged[j] == kept[b]);
            let (x, y) = choose|x: int, y: int|
                0 <= x < y < installed.len() && installed[x] == kept[a] && installed[y]
                    == kept[b];
        }
    }
}

} // verus!
