//! The mod resolution protocol: from a mod's key to a usable local mod, by
//! the least work that does it. The library decides each step from what
//! the store holds; the caller performs the step and asks again.
use vstd::prelude::*;
use vstd::string::StringExecFns;

use crate::app_state::StateData;
use crate::local_mod::LocalMod;
use crate::maps::KeyedMap;
use crate::mod_loaders::mod_loader::{
    loader_name, offers, operation_name, ModLoader, Operation,
};
use crate::remote_mod::RemoteMod;
use crate::result::{Error, ErrorView, Slot};

verus! {

/// How far a resolution has come.
#[derive(Clone, Copy, Debug, PartialEq, Eq, Structural)]
pub enum Stage {
    /// Nothing was done yet.
    Start,
    /// The loaders were scanned again and the store holds what they found.
    Rescanned,
    /// The mod was downloaded, and the loaders were scanned after that.
    Downloaded,
}

/// What the caller does next.
#[derive(Debug, PartialEq, Eq)]
pub enum Step {
    /// The resolution is over: this is the mod.
    Found(LocalMod),
    /// Scan every loader's local mods, write the union to the store, and
    /// ask again.
    Rescan,
    /// Have the owning loader download this remote mod, then scan and
    /// write as for `Rescan`, and ask again.
    Download(RemoteMod),
    /// The mod can only be installed by hand: open the folder of the
    /// loader with this name, where it is registered. The resolution is
    /// over and has failed with [`Error::ManualActionRequired`].
    OpenLoaderFolder(String),
    /// The resolution is over and has failed.
    Failed(Error),
}

/// The mathematical value of a [`Step`].
pub enum StepView {
    Found(LocalMod),
    Rescan,
    Download(RemoteMod),
    OpenLoaderFolder(Seq<char>),
    Failed(ErrorView),
}

impl View for Step {
    type V = StepView;

    open spec fn view(&self) -> StepView {
        match self {
            Step::Found(m) => StepView::Found(*m),
            Step::Rescan => StepView::Rescan,
            Step::Download(r) => StepView::Download(*r),
            Step::OpenLoaderFolder(l) => StepView::OpenLoaderFolder(l@),
            Step::Failed(e) => StepView::Failed(e@),
        }
    }
}

/// What a slot holds, as a map.
pub open spec fn held<V>(state: StateData<KeyedMap<V>>) -> Option<Map<Seq<char>, V>> {
    match state.data() {
        Some(m) => Some(m@),
        None => None,
    }
}

/// What to do about a mod that the local collection lacks even after a
/// scan: leave it to the user where the remote catalogue does not tell
/// from where to download it; else download it, where its loader is
/// registered and can.
pub open spec fn fallback(
    id: Seq<char>,
    remote: Option<Map<Seq<char>, RemoteMod>>,
    loaders: Map<Seq<char>, ModLoader>,
) -> (Stage, StepView) {
    match remote {
        None => (Stage::Rescanned, StepView::Failed(ErrorView::DataNotLoaded(Slot::RemoteMods))),
        Some(catalogue) => if !catalogue.contains_key(id) {
            (Stage::Rescanned, StepView::Failed(ErrorView::DataEntryNotFound(id)))
        } else {
            let remote_mod = catalogue[id];
            let loader = loader_name(remote_mod.common.loader_id);
            if remote_mod.data.latest_version is None {
                (Stage::Rescanned, StepView::OpenLoaderFolder(loader))
            } else if !loaders.contains_key(loader) {
                (Stage::Rescanned, StepView::Failed(ErrorView::DataEntryNotFound(loader)))
            } else if !offers(loaders[loader].capabilities, Operation::Download) {
                (
                    Stage::Rescanned,
                    StepView::Failed(
                        ErrorView::CapabilityNotSupported(
                            operation_name(Operation::Download),
                            loader_name(loaders[loader].data.id),
                        ),
                    ),
                )
            } else {
                (Stage::Downloaded, StepView::Download(remote_mod))
            }
        },
    }
}

/// The next stage and step of a resolution, from the stage it is in and
/// what the store holds now.
pub open spec fn next(
    stage: Stage,
    id: Seq<char>,
    local: Option<Map<Seq<char>, LocalMod>>,
    remote: Option<Map<Seq<char>, RemoteMod>>,
    loaders: Map<Seq<char>, ModLoader>,
) -> (Stage, StepView) {
    match local {
        None => (stage, StepView::Failed(ErrorView::DataNotLoaded(Slot::LocalMods))),
        Some(mods) => if mods.contains_key(id) {
            (stage, StepView::Found(mods[id]))
        } else {
            match stage {
                Stage::Start => (Stage::Rescanned, StepView::Rescan),
                Stage::Rescanned => fallback(id, remote, loaders),
                Stage::Downloaded => (
                    Stage::Downloaded,
                    StepView::Failed(ErrorView::DataEntryNotFound(id)),
                ),
            }
        },
    }
}

/// Decides the step for a mod that the local collection lacks even after
/// a scan.
pub fn fall_back(
    mod_id: &str,
    remote_mods: &StateData<KeyedMap<RemoteMod>>,
    mod_loaders: &KeyedMap<ModLoader>,
) -> (r: (Stage, Step))
    ensures
        (r.0, r.1@) == fallback(mod_id@, held(*remote_mods), mod_loaders@),
{
    let catalogue = match remote_mods.get_data() {
        Ok(catalogue) => catalogue,
        Err(_) => {
            return (Stage::Rescanned, Step::Failed(Error::DataNotLoaded(Slot::RemoteMods)));
        },
    };
    let remote_mod = match catalogue.get(mod_id) {
        Some(remote_mod) => remote_mod,
        None => {
            return (
                Stage::Rescanned,
                Step::Failed(Error::DataEntryNotFound(String::from_str(mod_id))),
            );
        },
    };
    let loader = remote_mod.common.loader_id.name();
    if remote_mod.data.latest_version.is_none() {
        return (Stage::Rescanned, Step::OpenLoaderFolder(String::from_str(loader)));
    }
    let mod_loader = match mod_loaders.get(loader) {
        Some(mod_loader) => mod_loader,
        None => {
            return (
                Stage::Rescanned,
                Step::Failed(Error::DataEntryNotFound(String::from_str(loader))),
            );
        },
    };
    match mod_loader.require(Operation::Download) {
        Ok(()) => (Stage::Downloaded, Step::Download(remote_mod.clone())),
        Err(error) => (Stage::Rescanned, Step::Failed(error)),
    }
}

/// Decides the next step of the resolution of `mod_id`. A mod that the
/// store holds is returned at once. Else the loaders are scanned once;
/// then the mod is downloaded where that is possible, and the loaders are
/// scanned once more; a mod still missing after that is not found.
pub fn refresh_and_get_local_mod(
    stage: Stage,
    mod_id: &str,
    local_mods: &StateData<KeyedMap<LocalMod>>,
    remote_mods: &StateData<KeyedMap<RemoteMod>>,
    mod_loaders: &KeyedMap<ModLoader>,
) -> (r: (Stage, Step))
    ensures
        (r.0, r.1@) == next(stage, mod_id@, held(*local_mods), held(*remote_mods), mod_loaders@),
{
    let mods = match local_mods.get_data() {
        Ok(mods) => mods,
        Err(_) => {
            return (stage, Step::Failed(Error::DataNotLoaded(Slot::LocalMods)));
        },
    };
    match mods.get(mod_id) {
        Some(local_mod) => (stage, Step::Found(local_mod.clone())),
        None => match stage {
            Stage::Start => (Stage::Rescanned, Step::Rescan),
            Stage::Rescanned => fall_back(mod_id, remote_mods, mod_loaders),
            Stage::Downloaded => (
                Stage::Downloaded,
                Step::Failed(Error::DataEntryNotFound(String::from_str(mod_id))),
            ),
        },
    }
}

/// How a resolution ends with a step, if it ends with it.
pub open spec fn outcome_of(step: StepView) -> Option<Result<LocalMod, ErrorView>> {
    match step {
        StepView::Found(m) => Some(Ok(m)),
        StepView::Rescan => None,
        StepView::Download(_) => None,
        StepView::OpenLoaderFolder(l) => Some(Err(ErrorView::ManualActionRequired(l))),
        StepView::Failed(e) => Some(Err(e)),
    }
}

/// The view of a mod or an error, where a resolution is over.
pub open spec fn outcome_view(o: Option<Result<LocalMod, Error>>) -> Option<
    Result<LocalMod, ErrorView>,
> {
    match o {
        Some(Ok(m)) => Some(Ok(m)),
        Some(Err(e)) => Some(Err(e@)),
        None => None,
    }
}

impl Step {
    /// The result of the resolution where this step ends it, and nothing
    /// where work is left. A mod that needs the user's hand ends the
    /// resolution with [`Error::ManualActionRequired`].
    pub fn outcome(&self) -> (r: Option<Result<LocalMod, Error>>)
        ensures
            outcome_view(r) == outcome_of(self@),
    {
        match self {
            Step::Found(m) => Some(Ok(m.clone())),
            Step::Rescan => None,
            Step::Download(_) => None,
            Step::OpenLoaderFolder(l) => Some(Err(Error::ManualActionRequired(l.clone()))),
            Step::Failed(e) => Some(Err(e.clone())),
        }
    }
}

/// The steps of a whole resolution, in a world where a scan of the
/// loaders finds `disk`, and a scan after a download finds `disk_after`.
pub open spec fn run(
    id: Seq<char>,
    cache: Option<Map<Seq<char>, LocalMod>>,
    disk: Map<Seq<char>, LocalMod>,
    disk_after: Map<Seq<char>, LocalMod>,
    remote: Option<Map<Seq<char>, RemoteMod>>,
    loaders: Map<Seq<char>, ModLoader>,
) -> Seq<StepView> {
    let first = next(Stage::Start, id, cache, remote, loaders);
    if first.1 is Rescan {
        let second = next(first.0, id, Some(disk), remote, loaders);
        if second.1 is Download {
            let third = next(second.0, id, Some(disk_after), remote, loaders);
            seq![first.1, second.1, third.1]
        } else {
            seq![first.1, second.1]
        }
    } else {
        seq![first.1]
    }
}

/// How many of the steps are downloads.
pub open spec fn downloads(steps: Seq<StepView>) -> nat
    decreases steps.len(),
{
    if steps.len() == 0 {
        0
    } else {
        downloads(steps.drop_last()) + if steps.last() is Download {
            1nat
        } else {
            0nat
        }
    }
}

/// The download count of up to three steps, written out.
proof fn lemma_downloads_of_few(steps: Seq<StepView>)
    requires
        steps.len() <= 3,
    ensures
        downloads(steps) == (if steps.len() > 0 && steps[0] is Download {
            1nat
        } else {
            0nat
        }) + (if steps.len() > 1 && steps[1] is Download {
            1nat
        } else {
            0nat
        }) + (if steps.len() > 2 && steps[2] is Download {
            1nat
        } else {
            0nat
        }),
    decreases steps.len(),
{
    if steps.len() > 0 {
        lemma_downloads_of_few(steps.drop_last());
    }
}

/// Every resolution ends: it takes at most three steps, its last step
/// and no other gives an outcome, and it downloads at most once.
pub proof fn lemma_run_ends(
    id: Seq<char>,
    cache: Option<Map<Seq<char>, LocalMod>>,
    disk: Map<Seq<char>, LocalMod>,
    disk_after: Map<Seq<char>, LocalMod>,
    remote: Option<Map<Seq<char>, RemoteMod>>,
    loaders: Map<Seq<char>, ModLoader>,
)
    ensures
        1 <= run(id, cache, disk, disk_after, remote, loaders).len() <= 3,
        outcome_of(run(id, cache, disk, disk_after, remote, loaders).last()) is Some,
        forall|i: int|
            0 <= i < run(id, cache, disk, disk_after, remote, loaders).len() - 1 ==> outcome_of(
                #[trigger] run(id, cache, disk, disk_after, remote, loaders)[i],
            ) is None,
        downloads(run(id, cache, disk, disk_after, remote, loaders)) <= 1,
{
    lemma_downloads_of_few(run(id, cache, disk, disk_after, remote, loaders));
}

/// A mod that the store lacks and a scan finds is resolved by the scan
/// alone: nothing is downloaded.
pub proof fn lemma_found_on_disk(
    id: Seq<char>,
    cache: Map<Seq<char>, LocalMod>,
    disk: Map<Seq<char>, LocalMod>,
    disk_after: Map<Seq<char>, LocalMod>,
    remote: Option<Map<Seq<char>, RemoteMod>>,
    loaders: Map<Seq<char>, ModLoader>,
)
    requires
        !cache.contains_key(id),
        disk.contains_key(id),
    ensures
        run(id, Some(cache), disk, disk_after, remote, loaders) == seq![
            StepView::Rescan,
            StepView::Found(disk[id]),
        ],
        downloads(run(id, Some(cache), disk, disk_after, remote, loaders)) == 0,
{
    lemma_downloads_of_few(run(id, Some(cache), disk, disk_after, remote, loaders));
}

/// A mod that is nowhere on disk and that the remote catalogue offers for
/// download is downloaded exactly once, and is then the result.
pub proof fn lemma_downloaded_once(
    id: Seq<char>,
    cache: Map<Seq<char>, LocalMod>,
    disk: Map<Seq<char>, LocalMod>,
    disk_after: Map<Seq<char>, LocalMod>,
    remote: Map<Seq<char>, RemoteMod>,
    loaders: Map<Seq<char>, ModLoader>,
)
    requires
        !cache.contains_key(id),
        !disk.contains_key(id),
        remote.contains_key(id),
        remote[id].data.latest_version is Some,
        loaders.contains_key(loader_name(remote[id].common.loader_id)),
        offers(
            loaders[loader_name(remote[id].common.loader_id)].capabilities,
            Operation::Download,
        ),
        disk_after.contains_key(id),
    ensures
        run(id, Some(cache), disk, disk_after, Some(remote), loaders) == seq![
            StepView::Rescan,
            StepView::Download(remote[id]),
            StepView::Found(disk_after[id]),
        ],
        downloads(run(id, Some(cache), disk, disk_after, Some(remote), loaders)) == 1,
{
    lemma_downloads_of_few(run(id, Some(cache), disk, disk_after, Some(remote), loaders));
}

/// A mod that is nowhere on disk and that the remote catalogue cannot
/// give for download is left to the user: the resolution fails with the
/// manual-action error of the owning loader, and nothing is downloaded.
pub proof fn lemma_manual_action(
    id: Seq<char>,
    cache: Map<Seq<char>, LocalMod>,
    disk: Map<Seq<char>, LocalMod>,
    disk_after: Map<Seq<char>, LocalMod>,
    remote: Map<Seq<char>, RemoteMod>,
    loaders: Map<Seq<char>, ModLoader>,
)
    requires
        !cache.contains_key(id),
        !disk.contains_key(id),
        remote.contains_key(id),
        remote[id].data.latest_version is None,
    ensures
        run(id, Some(cache), disk, disk_after, Some(remote), loaders) == seq![
            StepView::Rescan,
            StepView::OpenLoaderFolder(loader_name(remote[id].common.loader_id)),
        ],
        outcome_of(run(id, Some(cache), disk, disk_after, Some(remote), loaders).last()) == Some(
            Err::<LocalMod, ErrorView>(
                ErrorView::ManualActionRequired(loader_name(remote[id].common.loader_id)),
            ),
        ),
        downloads(run(id, Some(cache), disk, disk_after, Some(remote), loaders)) == 0,
{
    lemma_downloads_of_few(run(id, Some(cache), disk, disk_after, Some(remote), loaders));
}

/// A mod that the store holds is returned at once, whatever is on disk or
/// in the catalogue.
pub proof fn lemma_cache_hit(
    id: Seq<char>,
    cache: Map<Seq<char>, LocalMod>,
    disk: Map<Seq<char>, LocalMod>,
    disk_after: Map<Seq<char>, LocalMod>,
    remote: Option<Map<Seq<char>, RemoteMod>>,
    loaders: Map<Seq<char>, ModLoader>,
)
    requires
        cache.contains_key(id),
    ensures
        run(id, Some(cache), disk, disk_after, remote, loaders) == seq![StepView::Found(cache[id])],
{
}

} // verus!
