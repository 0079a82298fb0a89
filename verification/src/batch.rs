//! The stages of a batch: taking the latest metadata, keeping what has
//! changed, and merging what was installed into the registry.

use vstd::prelude::*;
use crate::addon::{addon_views, Addon, AddonView};
use crate::failure::Failure;
use crate::ids::{numbered, taken};
use crate::json::{Json, JsonView};
use crate::metadata::{download_of, name_of, read_download, read_name, read_version, version_of};

verus! {

/// An add-on with what its metadata address answered.
#[derive(Debug)]
pub struct Fetched {
    pub addon: Addon,
    /// The document, or nothing where no answer came or it was no JSON.
    pub document: Option<Json>,
}

/// What a [`Fetched`] stands for.
pub struct FetchedView {
    pub addon: AddonView,
    pub document: Option<JsonView>,
}

impl View for Fetched {
    type V = FetchedView;

    open spec fn view(&self) -> FetchedView {
        FetchedView {
            addon: self.addon@,
            document: match self.document {
                Some(document) => Some(document@),
                None => None,
            },
        }
    }
}

/// What each of `fetched` stands for.
pub open spec fn fetched_views(fetched: Seq<Fetched>) -> Seq<FetchedView> {
    Seq::new(fetched.len(), |i: int| fetched[i]@)
}

/// The add-on with the version, download address and name that `document`
/// gives it; none where the document lacks one of the three.
pub open spec fn refreshed(addon: AddonView, document: JsonView) -> Option<AddonView> {
    match (
        version_of(addon.kind, addon.project, document),
        download_of(addon.kind, addon.project, document),
        name_of(addon.kind, addon.project, document),
    ) {
        (Some(version), Some(url), Some(name)) => Some(
            AddonView {
                version: Some(version),
                download_url: Some(url),
                name: Some(name),
                ..addon
            },
        ),
        _ => None,
    }
}

/// What the metadata stage finds of one add-on.
#[derive(Clone, Copy, Debug, PartialEq, Eq, Structural)]
pub enum Finding {
    /// The add-on goes on to the download, with its latest metadata.
    Kept,
    /// Only changed add-ons are asked for, and the latest version is the one
    /// that the add-on has.
    Unchanged,
    /// The add-on is dropped: there is no document, or it is not what the
    /// source is bound to give.
    Failed(Failure),
}

/// What the metadata stage finds of one add-on.
pub open spec fn finding_of(fetched: FetchedView, only_changed: bool) -> Finding {
    match fetched.document {
        Some(document) => match refreshed(fetched.addon, document) {
            Some(addon) => if only_changed && addon.version == fetched.addon.version {
                Finding::Unchanged
            } else {
                Finding::Kept
            },
            None => Finding::Failed(Failure::UnexpectedMetadataShape),
        },
        None => Finding::Failed(Failure::UnreachableOrMalformedResponse),
    }
}

/// What the metadata stage makes of one add-on: the refreshed add-on, or
/// nothing where there is no document, the document is not what the source
/// is bound to give, or only changed add-ons are asked for and the version
/// is the one the add-on had.
pub open spec fn stage_outcome(fetched: FetchedView, only_changed: bool) -> Option<AddonView> {
    match fetched.document {
        Some(document) => match refreshed(fetched.addon, document) {
            Some(addon) => if only_changed && addon.version == fetched.addon.version {
                None
            } else {
                Some(addon)
            },
            None => None,
        },
        None => None,
    }
}

/// What the metadata stage makes of a batch: the outcomes of its add-ons,
/// in their order.
pub open spec fn stage(fetched: Seq<FetchedView>, only_changed: bool) -> Seq<AddonView>
    decreases fetched.len(),
{
    if fetched.len() == 0 {
        Seq::empty()
    } else {
        let before = stage(fetched.drop_last(), only_changed);
        match stage_outcome(fetched.last(), only_changed) {
            Some(addon) => before.push(addon),
            None => before,
        }
    }
}

/// One of `batch` has the project `project`.
pub open spec fn in_batch(batch: Seq<AddonView>, project: Seq<char>) -> bool {
    exists|i: int| 0 <= i < batch.len() && batch[i].project == project
}

/// The entries of `installed` that no add-on of `batch` replaces: those whose
/// project is not in the batch, in their order.
pub open spec fn carried_over(installed: Seq<AddonView>, batch: Seq<AddonView>) -> Seq<AddonView>
    decreases installed.len(),
{
    if installed.len() == 0 {
        Seq::empty()
    } else {
        let before = carried_over(installed.drop_last(), batch);
        if in_batch(batch, installed.last().project) {
            before
        } else {
            before.push(installed.last())
        }
    }
}

/// The numbers of the entries of a registry.
pub open spec fn ids_of(registry: Seq<AddonView>) -> Seq<u32> {
    Seq::new(registry.len(), |i: int| registry[i].id)
}

/// The add-ons of `batch` with their numbers, where `used` are taken at the
/// start and each number given is taken from then on.
pub open spec fn numbered_all(batch: Seq<AddonView>, used: Seq<u32>) -> Seq<AddonView>
    decreases batch.len(),
{
    if batch.len() == 0 {
        Seq::empty()
    } else {
        seq![numbered(batch.first(), used)] + numbered_all(
            batch.drop_first(),
            taken(batch.first(), used),
        )
    }
}

/// The registry after a batch: the installed add-ons of the batch with their
/// numbers, then the entries of the old registry whose project is neither
/// among them nor among the add-ons whose installation failed.
pub open spec fn reconciled(
    addons: Seq<AddonView>,
    failed: Seq<AddonView>,
    installed: Seq<AddonView>,
) -> Seq<AddonView> {
    numbered_all(addons, ids_of(installed)) + carried_over(installed, addons + failed)
}

impl Addon {
    /// Takes version, download address and name from `json`, all three or
    /// none, and says whether the version differs from the one the add-on had.
    pub fn refresh(&mut self, json: &Json) -> (r: Result<bool, Failure>)
        ensures
            match refreshed(old(self)@, json@) {
                Some(addon) => {
                    &&& r == Ok::<bool, Failure>(addon.version != old(self)@.version)
                    &&& final(self)@ == addon
                },
                None => {
                    &&& r == Err::<bool, Failure>(Failure::UnexpectedMetadataShape)
                    &&& final(self)@ == old(self)@
                },
            },
    {
        let version = read_version(&self.kind, self.project.as_str(), json);
        let url = read_download(&self.kind, self.project.as_str(), json);
        let name = read_name(&self.kind, self.project.as_str(), json);
        match (version, url, name) {
            (Some(version), Some(url), Some(name)) => {
                let changed = match &self.version {
                    Some(old_version) => *old_version != version,
                    None => true,
                };
                self.version = Some(version);
                self.download_url = Some(url);
                self.name = Some(name);
                Ok(changed)
            },
            _ => Err(Failure::UnexpectedMetadataShape),
        }
    }

    /// Whether one of `batch` speaks of this add-on.
    pub fn is_in(&self, batch: &Vec<Addon>) -> (r: bool)
        ensures
            r == in_batch(addon_views(batch@), self@.project),
    {
        let mut i: usize = 0;
        while i < batch.len()
            invariant
                i <= batch.len(),
                forall|j: int| 0 <= j < i ==> addon_views(batch@)[j].project != self@.project,
            decreases batch.len() - i,
        {
            if batch[i].project == self.project {
                assert(addon_views(batch@)[i as int].project == self@.project);
                return true;
            }
            i += 1;
        }
        false
    }
}

/// The metadata stage of one add-on: the refreshed add-on where it is kept,
/// else why it is not.
fn stage_one(fetched: &Fetched, only_changed: bool) -> (r: Result<Addon, Finding>)
    ensures
        match r {
            Ok(addon) => {
                &&& stage_outcome(fetched@, only_changed) == Some(addon@)
                &&& finding_of(fetched@, only_changed) == Finding::Kept
            },
            Err(finding) => {
                &&& stage_outcome(fetched@, only_changed) is None
                &&& finding_of(fetched@, only_changed) == finding
                &&& finding != Finding::Kept
            },
        },
{
    match &fetched.document {
        Some(document) => {
            let mut addon = fetched.addon.clone();
            match addon.refresh(document) {
                Ok(changed) => if only_changed && !changed {
                    Err(Finding::Unchanged)
                } else {
                    Ok(addon)
                },
                Err(e) => Err(Finding::Failed(e)),
            }
        },
        None => Err(Finding::Failed(Failure::UnreachableOrMalformedResponse)),
    }
}

/// What the metadata stage finds of `fetched`: whether the add-on goes on to
/// the download, and why not where it does not.
pub fn examine(fetched: &Fetched, only_changed: bool) -> (r: Finding)
    ensures
        r == finding_of(fetched@, only_changed),
        r == Finding::Kept <==> stage_outcome(fetched@, only_changed) is Some,
{
    match stage_one(fetched, only_changed) {
        Ok(_) => Finding::Kept,
        Err(finding) => finding,
    }
}

/// The metadata stage of a batch.
fn run_stage(fetched: &Vec<Fetched>, only_changed: bool) -> (r: Vec<Addon>)
    ensures
        addon_views(r@) == stage(fetched_views(fetched@), only_changed),
{
    let ghost all = fetched_views(fetched@);
    let mut out: Vec<Addon> = Vec::new();
    let mut i: usize = 0;
    assert(addon_views(out@) =~= stage(all.take(0), only_changed));
    while i < fetched.len()
        invariant
            i <= fetched.len(),
            all == fetched_views(fetched@),
            addon_views(out@) == stage(all.take(i as int), only_changed),
        decreases fetched.len() - i,
    {
        proof {
            assert(all.take(i + 1).drop_last() =~= all.take(i as int));
            assert(all.take(i + 1).last() == fetched@[i as int]@);
        }
        let ghost before = addon_views(out@);
        match stage_one(&fetched[i], only_changed) {
            Ok(addon) => {
                out.push(addon);
                assert(addon_views(out@) =~= before.push(addon@));
            },
            Err(_) => {},
        }
        i += 1;
    }
    assert(all.take(fetched.len() as int) =~= all);
    out
}

/// The metadata stage of an installation: each add-on whose document gives
/// version, download address and name comes back with them, in the order of
/// the batch. The others are dropped, one by one.
pub fn latest(addons: &Vec<Fetched>) -> (r: Vec<Addon>)
    ensures
        addon_views(r@) == stage(fetched_views(addons@), false),
{
    run_stage(addons, false)
}

/// The metadata stage of an update: like that of an installation, but an
/// add-on whose latest version is the one it had is dropped too.
pub fn update(addons: &Vec<Fetched>) -> (r: Vec<Addon>)
    ensures
        addon_views(r@) == stage(fetched_views(addons@), true),
{
    run_stage(addons, true)
}

/// The numbers of the entries of `registry`.
fn collect_ids(registry: &Vec<Addon>) -> (r: Vec<u32>)
    ensures
        r@ == ids_of(addon_views(registry@)),
{
    let mut ids: Vec<u32> = Vec::new();
    let mut i: usize = 0;
    while i < registry.len()
        invariant
            i <= registry.len(),
            ids@.len() == i,
            forall|j: int| 0 <= j < i ==> ids@[j] == registry@[j].id,
        decreases registry.len() - i,
    {
        ids.push(registry[i].id);
        i += 1;
    }
    assert(ids@ =~= ids_of(addon_views(registry@)));
    ids
}

/// Merges a batch into the registry. `addons` are the add-ons of the batch
/// that were installed, each with the number of the entry it replaces or
/// with none; `failed` are those whose installation failed. Every installed
/// add-on without a number gets the smallest one not taken, in the order of
/// the batch; the entries of `installed_addons` that the batch does not speak
/// of follow.
pub fn install(addons: Vec<Addon>, failed: &Vec<Addon>, installed_addons: Vec<Addon>) -> (r: Vec<
    Addon,
>)
    ensures
        addon_views(r@) == reconciled(
            addon_views(addons@),
            addon_views(failed@),
            addon_views(installed_addons@),
        ),
{
    let ghost batch = addon_views(addons@);
    let ghost registry = addon_views(installed_addons@);
    let ghost dropped = batch + addon_views(failed@);
    let mut ids = collect_ids(&installed_addons);
    let mut out: Vec<Addon> = Vec::new();
    let mut i: usize = 0;
    assert(batch.skip(0) =~= batch);
    assert(addon_views(out@) + numbered_all(batch, ids@) =~= numbered_all(batch, ids@));
    while i < addons.len()
        invariant
            i <= addons.len(),
            batch == addon_views(addons@),
            registry == addon_views(installed_addons@),
            out@.len() == i,
            addon_views(out@) + numbered_all(batch.skip(i as int), ids@) == numbered_all(
                batch,
                ids_of(registry),
            ),
        decreases addons.len() - i,
    {
        let ghost before = addon_views(out@);
        let ghost used = ids@;
        let mut addon = addons[i].clone();
        ids = addon.set_id(ids);
        out.push(addon);
        proof {
            let rest = batch.skip(i as int);
            assert(rest.first() == batch[i as int]);
            assert(rest.drop_first() =~= batch.skip(i + 1));
            assert(addon_views(out@) =~= before + seq![numbered(rest.first(), used)]);
            assert(addon_views(out@) + numbered_all(batch.skip(i + 1), ids@) =~= before
                + numbered_all(rest, used));
        }
        i += 1;
    }
    assert(addon_views(out@) =~= numbered_all(batch, ids_of(registry)));
    let ghost numbers = addon_views(out@);
    let mut j: usize = 0;
    assert(registry.take(0) =~= Seq::<AddonView>::empty());
    assert(addon_views(out@) =~= numbers + carried_over(registry.take(0), dropped));
    while j < installed_addons.len()
        invariant
            j <= installed_addons.len(),
            batch == addon_views(addons@),
            registry == addon_views(installed_addons@),
            dropped == batch + addon_views(failed@),
            addon_views(out@) == numbers + carried_over(registry.take(j as int), dropped),
        decreases installed_addons.len() - j,
    {
        let ghost before = addon_views(out@);
        let entry = &installed_addons[j];
        proof {
            assert(registry.take(j + 1).drop_last() =~= registry.take(j as int));
            assert(registry.take(j + 1).last() == entry@);
            in_either(batch, addon_views(failed@), entry@.project);
        }
        if !entry.is_in(&addons) && !entry.is_in(failed) {
            out.push(entry.clone());
            assert(addon_views(out@) =~= before.push(entry@));
            assert(addon_views(out@) =~= numbers + carried_over(registry.take(j + 1), dropped));
        }
        j += 1;
    }
    assert(registry.take(installed_addons.len() as int) =~= registry);
    out
}

/// A registry is carried over whole where the batch is empty.
pub proof fn empty_batch_carries_all(installed: Seq<AddonView>)
    ensures
        carried_over(installed, Seq::empty()) == installed,
    decreases installed.len(),
{
    if installed.len() > 0 {
        empty_batch_carries_all(installed.drop_last());
        assert(installed.drop_last().push(installed.last()) =~= installed);
    }
}

/// What is carried over goes by the projects of the batch, not by their
/// order or number: two batches with the same projects carry over the same.
pub proof fn carried_over_goes_by_projects(
    installed: Seq<AddonView>,
    first: Seq<AddonView>,
    second: Seq<AddonView>,
)
    requires
        forall|project: Seq<char>| in_batch(first, project) == in_batch(second, project),
    ensures
        carried_over(installed, first) == carried_over(installed, second),
    decreases installed.len(),
{
    if installed.len() > 0 {
        carried_over_goes_by_projects(installed.drop_last(), first, second);
    }
}

/// An add-on of the batch that has a number stands in the new registry as it
/// is, at its place in the batch.
pub proof fn numbered_all_keeps_numbers(batch: Seq<AddonView>, used: Seq<u32>, k: int)
    requires
        0 <= k < batch.len(),
        batch[k].id != 0,
    ensures
        numbered_all(batch, used).len() >= k + 1,
        numbered_all(batch, used)[k] == batch[k],
    decreases batch.len(),
{
    let rest = batch.drop_first();
    let after = numbered_all(rest, taken(batch.first(), used));
    assert(numbered_all(batch, used) =~= seq![numbered(batch.first(), used)] + after);
    if k > 0 {
        assert(rest[k - 1] == batch[k]);
        numbered_all_keeps_numbers(rest, taken(batch.first(), used), k - 1);
    }
}

/// A stage that keeps none of its add-ons gives an empty batch.
pub proof fn stage_without_outcomes(fetched: Seq<FetchedView>, only_changed: bool)
    requires
        forall|i: int| 0 <= i < fetched.len() ==> stage_outcome(fetched[i], only_changed) is None,
    ensures
        stage(fetched, only_changed) == Seq::<AddonView>::empty(),
    decreases fetched.len(),
{
    if fetched.len() > 0 {
        let front = fetched.drop_last();
        assert forall|i: int| 0 <= i < front.len() implies stage_outcome(front[i], only_changed)
            is None by {
            assert(front[i] == fetched[i]);
        }
        stage_without_outcomes(front, only_changed);
    }
}

/// An update in which no add-on has a new version leaves the registry what
/// it was: the batch is empty, and merging it gives the registry again.
pub proof fn update_without_changes(fetched: Seq<FetchedView>, installed: Seq<AddonView>)
    requires
        forall|i: int|
            0 <= i < fetched.len() ==> match #[trigger] fetched[i].document {
                Some(document) => version_of(
                    fetched[i].addon.kind,
                    fetched[i].addon.project,
                    document,
                ) == fetched[i].addon.version,
                None => true,
            },
    ensures
        stage(fetched, true) == Seq::<AddonView>::empty(),
        reconciled(stage(fetched, true), Seq::empty(), installed) == installed,
{
    assert forall|i: int| 0 <= i < fetched.len() implies stage_outcome(fetched[i], true)
        is None by {
        let _ = fetched[i].document;
    }
    stage_without_outcomes(fetched, true);
    empty_batch_carries_all(installed);
    assert(Seq::<AddonView>::empty() + Seq::<AddonView>::empty() =~= Seq::<AddonView>::empty());
    assert(Seq::<AddonView>::empty() + installed =~= installed);
}

/// A project is in two batches put together where it is in one of them.
pub proof fn in_either(first: Seq<AddonView>, second: Seq<AddonView>, project: Seq<char>)
    ensures
        in_batch(first + second, project) == (in_batch(first, project) || in_batch(
            second,
            project,
        )),
{
    let both = first + second;
    if in_batch(first, project) {
        let i = choose|i: int| 0 <= i < first.len() && first[i].project == project;
        assert(both[i].project == project);
    }
    if in_batch(second, project) {
        let i = choose|i: int| 0 <= i < second.len() && second[i].project == project;
        assert(both[first.len() + i].project == project);
    }
    if in_batch(both, project) {
        let i = choose|i: int| 0 <= i < both.len() && both[i].project == project;
        if i < first.len() {
            assert(first[i].project == project);
        } else {
            assert(second[i - first.len()].project == project);
        }
    }
}

} // verus!
