//! The command surface: what each request of the observer comes to, from
//! what the store holds. The caller performs the tasks that a command
//! names, in order, and stops at the first that fails.
use vstd::prelude::*;
use vstd::string::StringExecFns;

use crate::app_state::StateData;
use crate::events::{emit, views, AppEvent, AppEventView, FoundInstalledGame, GameAdded};
use crate::installed_game::InstalledGameView;
use crate::local_mod::LocalMod;
use crate::maps::KeyedMap;
use crate::mod_loaders::mod_loader::{
    get_data_map, loader_name, offers, operation_name, Capabilities, ModLoader, ModLoaderData,
    ModLoaderId, Operation,
};
use crate::paths::{file_stem, file_stem_of, opt_text};
use crate::providers::manual_provider::{
    add_game_named, added_game, found_views, known_after,
};
use crate::providers::provider::FoundGame;
use crate::remote_mod::RemoteMod;
use crate::resolve::held;
use crate::result::{Error, ErrorView, Slot};

verus! {

/// What the observer wants done with a mod.
#[derive(Clone, Copy, Debug, PartialEq, Eq, Structural)]
pub enum Intent {
    Install,
    Uninstall,
    Configure,
    RunWithoutGame,
    OpenInstalledModFolder,
}

/// One piece of outside work for a mod that was resolved.
#[derive(Clone, Copy, Debug, PartialEq, Eq, Structural)]
pub enum Task {
    Uninstall,
    Install,
    Configure,
    RunWithoutGame,
    OpenInstalledModFolder,
    /// Remove every mod from the game.
    UninstallAll,
    /// Look at the game again and tell the observer what it is now.
    RefreshGame,
}

/// The tasks of an intent, in order. A mod is always uninstalled before
/// it is installed, so that no file of an older version stays behind.
pub open spec fn plan_of(intent: Intent) -> Seq<Task> {
    match intent {
        Intent::Install => seq![Task::Uninstall, Task::Install, Task::RefreshGame],
        Intent::Uninstall => seq![Task::Uninstall, Task::RefreshGame],
        Intent::Configure => seq![Task::Configure],
        Intent::RunWithoutGame => seq![Task::RunWithoutGame],
        Intent::OpenInstalledModFolder => seq![Task::OpenInstalledModFolder],
    }
}

/// The operation that a loader must offer for a task, if it needs one.
pub open spec fn needed(task: Task) -> Option<Operation> {
    match task {
        Task::Uninstall => Some(Operation::Uninstall),
        Task::Install => Some(Operation::Install),
        Task::Configure => Some(Operation::Configure),
        Task::RunWithoutGame => Some(Operation::RunWithoutGame),
        Task::OpenInstalledModFolder => None,
        Task::UninstallAll => None,
        Task::RefreshGame => None,
    }
}

/// The first operation among the tasks that the loader does not offer.
pub open spec fn first_missing(capabilities: Capabilities, tasks: Seq<Task>) -> Option<Operation>
    decreases tasks.len(),
{
    if tasks.len() == 0 {
        None
    } else {
        match needed(tasks.first()) {
            Some(op) => if offers(capabilities, op) {
                first_missing(capabilities, tasks.drop_first())
            } else {
                Some(op)
            },
            None => first_missing(capabilities, tasks.drop_first()),
        }
    }
}

/// What an intent comes to for a mod of the loader `loader_id`: the plan,
/// or the error for a loader that is not registered or that lacks one of
/// the plan's operations.
pub open spec fn tasks_of(
    intent: Intent,
    loader_id: ModLoaderId,
    loaders: Map<Seq<char>, ModLoader>,
) -> Result<Seq<Task>, ErrorView> {
    let loader = loader_name(loader_id);
    if !loaders.contains_key(loader) {
        Err(ErrorView::DataEntryNotFound(loader))
    } else {
        match first_missing(loaders[loader].capabilities, plan_of(intent)) {
            Some(op) => Err(
                ErrorView::CapabilityNotSupported(
                    operation_name(op),
                    loader_name(loaders[loader].data.id),
                ),
            ),
            None => Ok(plan_of(intent)),
        }
    }
}

/// The views of a list of tasks or an error.
pub open spec fn tasks_result(r: Result<Vec<Task>, Error>) -> Result<Seq<Task>, ErrorView> {
    match r {
        Ok(tasks) => Ok(tasks@),
        Err(e) => Err(e@),
    }
}

impl Task {
    /// The operation that a loader must offer for it.
    pub fn operation(self) -> (r: Option<Operation>)
        ensures
            r == needed(self),
    {
        match self {
            Task::Uninstall => Some(Operation::Uninstall),
            Task::Install => Some(Operation::Install),
            Task::Configure => Some(Operation::Configure),
            Task::RunWithoutGame => Some(Operation::RunWithoutGame),
            Task::OpenInstalledModFolder => None,
            Task::UninstallAll => None,
            Task::RefreshGame => None,
        }
    }
}

/// The tasks of an intent, in order.
pub fn plan(intent: Intent) -> (r: Vec<Task>)
    ensures
        r@ == plan_of(intent),
{
    let mut tasks: Vec<Task> = Vec::new();
    match intent {
        Intent::Install => {
            tasks.push(Task::Uninstall);
            tasks.push(Task::Install);
            tasks.push(Task::RefreshGame);
        },
        Intent::Uninstall => {
            tasks.push(Task::Uninstall);
            tasks.push(Task::RefreshGame);
        },
        Intent::Configure => {
            tasks.push(Task::Configure);
        },
        Intent::RunWithoutGame => {
            tasks.push(Task::RunWithoutGame);
        },
        Intent::OpenInstalledModFolder => {
            tasks.push(Task::OpenInstalledModFolder);
        },
    }
    assert(tasks@ =~= plan_of(intent));
    tasks
}

/// The first operation among the tasks that the loader does not offer.
pub fn find_missing(loader: &ModLoader, tasks: &Vec<Task>) -> (r: Option<Operation>)
    ensures
        r == first_missing(loader.capabilities, tasks@),
{
    let mut i: usize = 0;
    assert(tasks@.skip(0) =~= tasks@);
    while i < tasks.len()
        invariant
            i <= tasks.len(),
            first_missing(loader.capabilities, tasks@) == first_missing(
                loader.capabilities,
                tasks@.skip(i as int),
            ),
        decreases tasks.len() - i,
    {
        proof {
            assert(tasks@.skip(i as int).drop_first() =~= tasks@.skip(i + 1));
            assert(tasks@.skip(i as int).first() == tasks@[i as int]);
        }
        match tasks[i].operation() {
            Some(op) => {
                if !loader.supports(op) {
                    return Some(op);
                }
            },
            None => {},
        }
        i += 1;
    }
    None
}

/// The tasks that carry out an intent for a resolved mod, checked against
/// what the mod's loader offers before any of them is begun.
pub fn tasks_for(intent: Intent, local_mod: &LocalMod, mod_loaders: &KeyedMap<ModLoader>) -> (r:
    Result<Vec<Task>, Error>)
    ensures
        tasks_result(r) == tasks_of(intent, local_mod.common.loader_id, mod_loaders@),
{
    let loader = match mod_loaders.get(local_mod.common.loader_id.name()) {
        Some(loader) => loader,
        None => {
            return Err(
                Error::DataEntryNotFound(String::from_str(local_mod.common.loader_id.name())),
            );
        },
    };
    let tasks = plan(intent);
    match find_missing(loader, &tasks) {
        Some(op) => Err(
            Error::CapabilityNotSupported(
                String::from_str(op.name()),
                String::from_str(loader.data.id.name()),
            ),
        ),
        None => Ok(tasks),
    }
}

/// Installing a mod: uninstall it, install it, refresh the game.
pub fn install_mod(local_mod: &LocalMod, mod_loaders: &KeyedMap<ModLoader>) -> (r: Result<
    Vec<Task>,
    Error,
>)
    ensures
        tasks_result(r) == tasks_of(Intent::Install, local_mod.common.loader_id, mod_loaders@),
{
    tasks_for(Intent::Install, local_mod, mod_loaders)
}

/// Uninstalling a mod: uninstall it, refresh the game.
pub fn uninstall_mod(local_mod: &LocalMod, mod_loaders: &KeyedMap<ModLoader>) -> (r: Result<
    Vec<Task>,
    Error,
>)
    ensures
        tasks_result(r) == tasks_of(Intent::Uninstall, local_mod.common.loader_id, mod_loaders@),
{
    tasks_for(Intent::Uninstall, local_mod, mod_loaders)
}

/// Configuring a mod.
pub fn configure_mod(local_mod: &LocalMod, mod_loaders: &KeyedMap<ModLoader>) -> (r: Result<
    Vec<Task>,
    Error,
>)
    ensures
        tasks_result(r) == tasks_of(Intent::Configure, local_mod.common.loader_id, mod_loaders@),
{
    tasks_for(Intent::Configure, local_mod, mod_loaders)
}

/// Running a mod that needs no game.
pub fn run_runnable_without_game(local_mod: &LocalMod, mod_loaders: &KeyedMap<ModLoader>) -> (r:
    Result<Vec<Task>, Error>)
    ensures
        tasks_result(r) == tasks_of(
            Intent::RunWithoutGame,
            local_mod.common.loader_id,
            mod_loaders@,
        ),
{
    tasks_for(Intent::RunWithoutGame, local_mod, mod_loaders)
}

/// Showing where a mod is installed in a game.
pub fn open_installed_mod_folder(local_mod: &LocalMod, mod_loaders: &KeyedMap<ModLoader>) -> (r:
    Result<Vec<Task>, Error>)
    ensures
        tasks_result(r) == tasks_of(
            Intent::OpenInstalledModFolder,
            local_mod.common.loader_id,
            mod_loaders@,
        ),
{
    tasks_for(Intent::OpenInstalledModFolder, local_mod, mod_loaders)
}

/// Removing every mod from a game: remove them, refresh the game. No mod
/// is resolved and no loader is asked.
pub fn uninstall_all_mods() -> (r: Vec<Task>)
    ensures
        r@ == seq![Task::UninstallAll, Task::RefreshGame],
{
    let mut tasks: Vec<Task> = Vec::new();
    tasks.push(Task::UninstallAll);
    tasks.push(Task::RefreshGame);
    assert(tasks@ =~= seq![Task::UninstallAll, Task::RefreshGame]);
    tasks
}

/// Where a command stands after some of its tasks.
#[derive(Debug, PartialEq, Eq)]
pub enum Progress {
    /// The task to perform next.
    Next(Task),
    /// Every task was performed: the command has succeeded.
    Finished,
    /// A task failed: the command is over and has failed with its error.
    /// No later task is begun.
    Failed(Error),
}

/// The mathematical value of a [`Progress`].
pub enum ProgressView {
    Next(Task),
    Finished,
    Failed(ErrorView),
}

impl View for Progress {
    type V = ProgressView;

    open spec fn view(&self) -> ProgressView {
        match self {
            Progress::Next(task) => ProgressView::Next(*task),
            Progress::Finished => ProgressView::Finished,
            Progress::Failed(e) => ProgressView::Failed(e@),
        }
    }
}

/// Where a command stands after the first `count` of its tasks, of which
/// the last gave `last`: the first error ends it; else the next task is
/// due, or none is left.
pub open spec fn progress_of(tasks: Seq<Task>, count: int, last: Result<(), ErrorView>)
    -> ProgressView {
    match last {
        Err(e) => ProgressView::Failed(e),
        Ok(()) => if 0 <= count < tasks.len() {
            ProgressView::Next(tasks[count])
        } else {
            ProgressView::Finished
        },
    }
}

/// Decides how a command goes on after the first `count` of its tasks
/// were performed and the last of them gave `last` (before the first
/// task: a count of zero, and `Ok`).
pub fn advance(tasks: &Vec<Task>, count: usize, last: Result<(), Error>) -> (r: Progress)
    ensures
        r@ == progress_of(tasks@, count as int, done(last)),
{
    match last {
        Err(error) => Progress::Failed(error),
        Ok(()) => if count < tasks.len() {
            Progress::Next(tasks[count])
        } else {
            Progress::Finished
        },
    }
}

/// In every plan an installation comes directly after an uninstallation.
pub proof fn lemma_uninstall_before_install(intent: Intent, i: int)
    requires
        0 <= i < plan_of(intent).len(),
        plan_of(intent)[i] == Task::Install,
    ensures
        i > 0,
        plan_of(intent)[i - 1] == Task::Uninstall,
{
}

/// The remote mod to download for a request, or why there is none: the
/// catalogue or the registry is not loaded, one of them lacks the entry,
/// or the loader cannot download.
pub open spec fn download_of(
    id: Seq<char>,
    remote: Option<Map<Seq<char>, RemoteMod>>,
    loaders: Option<Map<Seq<char>, ModLoader>>,
) -> Result<RemoteMod, ErrorView> {
    match remote {
        None => Err(ErrorView::DataNotLoaded(Slot::RemoteMods)),
        Some(catalogue) => if !catalogue.contains_key(id) {
            Err(ErrorView::DataEntryNotFound(id))
        } else {
            match loaders {
                None => Err(ErrorView::DataNotLoaded(Slot::ModLoaders)),
                Some(registry) => {
                    let loader_id = loader_name(catalogue[id].common.loader_id);
                    if !registry.contains_key(loader_id) {
                        Err(ErrorView::DataEntryNotFound(loader_id))
                    } else if !offers(registry[loader_id].capabilities, Operation::Download) {
                        Err(
                            ErrorView::CapabilityNotSupported(
                                operation_name(Operation::Download),
                                loader_name(registry[loader_id].data.id),
                            ),
                        )
                    } else {
                        Ok(catalogue[id])
                    }
                },
            }
        },
    }
}

/// The view of a remote mod or an error.
pub open spec fn remote_result(r: Result<RemoteMod, Error>) -> Result<RemoteMod, ErrorView> {
    match r {
        Ok(m) => Ok(m),
        Err(e) => Err(e@),
    }
}

/// The view of a local mod or an error.
pub open spec fn local_result(r: Result<LocalMod, Error>) -> Result<LocalMod, ErrorView> {
    match r {
        Ok(m) => Ok(m),
        Err(e) => Err(e@),
    }
}

/// Finds the remote mod that the observer asks to download. The caller
/// has its loader download it and then refreshes the local mods.
pub fn download_mod(
    mod_id: &str,
    remote_mods: &StateData<KeyedMap<RemoteMod>>,
    mod_loaders: &StateData<KeyedMap<ModLoader>>,
) -> (r: Result<RemoteMod, Error>)
    ensures
        remote_result(r) == download_of(mod_id@, held(*remote_mods), held(*mod_loaders)),
{
    let catalogue = match remote_mods.get_data() {
        Ok(catalogue) => catalogue,
        Err(_) => {
            return Err(Error::DataNotLoaded(Slot::RemoteMods));
        },
    };
    let remote_mod = match catalogue.get(mod_id) {
        Some(remote_mod) => remote_mod,
        None => {
            return Err(Error::DataEntryNotFound(String::from_str(mod_id)));
        },
    };
    let registry = match mod_loaders.get_data() {
        Ok(registry) => registry,
        Err(_) => {
            return Err(Error::DataNotLoaded(Slot::ModLoaders));
        },
    };
    let loader = match registry.get(remote_mod.common.loader_id.name()) {
        Some(loader) => loader,
        None => {
            return Err(
                Error::DataEntryNotFound(String::from_str(remote_mod.common.loader_id.name())),
            );
        },
    };
    match loader.require(Operation::Download) {
        Ok(()) => Ok(remote_mod.clone()),
        Err(error) => Err(error),
    }
}

/// The local mod to delete for a request, or why there is none.
pub open spec fn deletion_of(
    id: Seq<char>,
    local: Option<Map<Seq<char>, LocalMod>>,
    loaders: Option<Map<Seq<char>, ModLoader>>,
) -> Result<LocalMod, ErrorView> {
    match local {
        None => Err(ErrorView::DataNotLoaded(Slot::LocalMods)),
        Some(mods) => if !mods.contains_key(id) {
            Err(ErrorView::DataEntryNotFound(id))
        } else {
            match loaders {
                None => Err(ErrorView::DataNotLoaded(Slot::ModLoaders)),
                Some(registry) => if !registry.contains_key(
                    loader_name(mods[id].common.loader_id),
                ) {
                    Err(ErrorView::DataEntryNotFound(loader_name(mods[id].common.loader_id)))
                } else {
                    Ok(mods[id])
                },
            }
        },
    }
}

/// Finds the local mod that the observer asks to delete. The caller has
/// its loader delete it and then refreshes the local mods.
pub fn delete_mod(
    mod_id: &str,
    local_mods: &StateData<KeyedMap<LocalMod>>,
    mod_loaders: &StateData<KeyedMap<ModLoader>>,
) -> (r: Result<LocalMod, Error>)
    ensures
        local_result(r) == deletion_of(mod_id@, held(*local_mods), held(*mod_loaders)),
{
    let mods = match local_mods.get_data() {
        Ok(mods) => mods,
        Err(_) => {
            return Err(Error::DataNotLoaded(Slot::LocalMods));
        },
    };
    let local_mod = match mods.get(mod_id) {
        Some(local_mod) => local_mod,
        None => {
            return Err(Error::DataEntryNotFound(String::from_str(mod_id)));
        },
    };
    let registry = match mod_loaders.get_data() {
        Ok(registry) => registry,
        Err(_) => {
            return Err(Error::DataNotLoaded(Slot::ModLoaders));
        },
    };
    if !registry.contains_key(local_mod.common.loader_id.name()) {
        return Err(Error::DataEntryNotFound(String::from_str(local_mod.common.loader_id.name())));
    }
    Ok(local_mod.clone())
}

/// The signals for a game that was added by hand: the game, then its
/// name.
pub open spec fn game_added(game: InstalledGameView) -> Seq<AppEventView> {
    seq![AppEventView::FoundInstalledGame(game), AppEventView::GameAdded(game.name)]
}

/// What adding a game sends: its two signals, or nothing where the path
/// has no file name.
pub open spec fn added_signals(path: Seq<char>, stem: Option<Seq<char>>) -> Seq<AppEventView> {
    match added_game(path, stem) {
        Ok(game) => game_added(game),
        Err(_) => Seq::empty(),
    }
}

/// The view of nothing or an error.
pub open spec fn done(r: Result<(), Error>) -> Result<(), ErrorView> {
    match r {
        Ok(()) => Ok(()),
        Err(e) => Err(e@),
    }
}

/// What adding a game returns.
pub open spec fn add_outcome(path: Seq<char>, stem: Option<Seq<char>>) -> Result<(), ErrorView> {
    match added_game(path, stem) {
        Ok(_) => Ok(()),
        Err(e) => Err(e),
    }
}

/// Adds the game at `path`, whose file name without extension is `stem`,
/// and tells the observer of it.
pub fn add_game_named_at(
    known: &mut Vec<FoundGame>,
    path: &str,
    stem: Option<String>,
    outbox: &mut Vec<AppEvent>,
) -> (r: Result<(), Error>)
    ensures
        done(r) == add_outcome(path@, opt_text(stem)),
        found_views(final(known)@) == known_after(old(known)@, path@, opt_text(stem)),
        views(final(outbox)@) == views(old(outbox)@) + added_signals(path@, opt_text(stem)),
{
    let ghost sent = views(outbox@);
    match add_game_named(known, path, stem) {
        Ok(game) => {
            let name = game.name.clone();
            let ghost value = game@;
            emit(outbox, AppEvent::FoundInstalledGame(FoundInstalledGame(game)));
            emit(outbox, AppEvent::GameAdded(GameAdded(name)));
            assert(views(outbox@) =~= sent + game_added(value));
            Ok(())
        },
        Err(error) => {
            assert(views(outbox@) =~= sent + Seq::<AppEventView>::empty());
            Err(error)
        },
    }
}

/// Adds the game at the normalised `path` to the games added by hand and
/// tells the observer: the game itself, then its name.
pub fn add_game(known: &mut Vec<FoundGame>, path: &str, outbox: &mut Vec<AppEvent>) -> (r: Result<
    (),
    Error,
>)
    ensures
        done(r) == add_outcome(path@, file_stem_of(path@)),
        found_views(final(known)@) == known_after(old(known)@, path@, file_stem_of(path@)),
        views(final(outbox)@) == views(old(outbox)@) + added_signals(path@, file_stem_of(path@)),
{
    add_game_named_at(known, path, file_stem(path), outbox)
}

/// The folder of a local mod of the store.
pub fn open_mod_folder(mod_id: &str, local_mods: &StateData<KeyedMap<LocalMod>>) -> (r: Result<
    String,
    Error,
>)
    ensures
        match r {
            Ok(path) => held(*local_mods) is Some && held(*local_mods)->Some_0.contains_key(mod_id@)
                && path@ == held(*local_mods)->Some_0[mod_id@].data.path@,
            Err(e) => match held(*local_mods) {
                None => e@ == ErrorView::DataNotLoaded(Slot::LocalMods),
                Some(mods) => !mods.contains_key(mod_id@) && e@ == ErrorView::DataEntryNotFound(
                    mod_id@,
                ),
            },
        },
{
    let mods = match local_mods.get_data() {
        Ok(mods) => mods,
        Err(_) => {
            return Err(Error::DataNotLoaded(Slot::LocalMods));
        },
    };
    match mods.get(mod_id) {
        Some(local_mod) => Ok(local_mod.open_folder()),
        None => Err(Error::DataEntryNotFound(String::from_str(mod_id))),
    }
}

/// The folder of a mod loader of the store.
pub fn open_mod_loader_folder(mod_loader_id: &str, mod_loaders: &StateData<KeyedMap<ModLoader>>)
    -> (r: Result<String, Error>)
    ensures
        match r {
            Ok(path) => held(*mod_loaders) is Some && held(*mod_loaders)->Some_0.contains_key(
                mod_loader_id@,
            ) && path@ == held(*mod_loaders)->Some_0[mod_loader_id@].data.path@,
            Err(e) => match held(*mod_loaders) {
                None => e@ == ErrorView::DataNotLoaded(Slot::ModLoaders),
                Some(registry) => !registry.contains_key(mod_loader_id@) && e@
                    == ErrorView::DataEntryNotFound(mod_loader_id@),
            },
        },
{
    let registry = match mod_loaders.get_data() {
        Ok(registry) => registry,
        Err(_) => {
            return Err(Error::DataNotLoaded(Slot::ModLoaders));
        },
    };
    match registry.get(mod_loader_id) {
        Some(loader) => Ok(loader.data.path.clone()),
        None => Err(Error::DataEntryNotFound(String::from_str(mod_loader_id))),
    }
}

/// The descriptors of the mod loaders of the store.
pub fn get_mod_loaders(mod_loaders: &StateData<KeyedMap<ModLoader>>) -> (r: Result<
    KeyedMap<ModLoaderData>,
    Error,
>)
    ensures
        match r {
            Ok(data) => held(*mod_loaders) is Some && data@.dom() == held(
                *mod_loaders,
            )->Some_0.dom() && forall|k: Seq<char>| #[trigger]
                data@.contains_key(k) ==> data@[k] == held(*mod_loaders)->Some_0[k].data,
            Err(e) => held(*mod_loaders) is None && e@ == ErrorView::DataNotLoaded(
                Slot::ModLoaders,
            ),
        },
{
    match mod_loaders.get_data() {
        Ok(registry) => Ok(get_data_map(registry)),
        Err(_) => Err(Error::DataNotLoaded(Slot::ModLoaders)),
    }
}

/// A copy of the local mods of the store.
pub fn get_local_mods(local_mods: &StateData<KeyedMap<LocalMod>>) -> (r: Result<
    KeyedMap<LocalMod>,
    Error,
>)
    ensures
        match r {
            Ok(mods) => held(*local_mods) == Some(mods@),
            Err(e) => held(*local_mods) is None && e@ == ErrorView::DataNotLoaded(Slot::LocalMods),
        },
{
    match local_mods.get_data() {
        Ok(mods) => {
            let copy = mods.clone();
            assert(copy@ =~= mods@);
            Ok(copy)
        },
        Err(_) => Err(Error::DataNotLoaded(Slot::LocalMods)),
    }
}

/// A copy of the remote mods of the store.
pub fn get_remote_mods(remote_mods: &StateData<KeyedMap<RemoteMod>>) -> (r: Result<
    KeyedMap<RemoteMod>,
    Error,
>)
    ensures
        match r {
            Ok(mods) => held(*remote_mods) == Some(mods@),
            Err(e) => held(*remote_mods) is None && e@ == ErrorView::DataNotLoaded(
                Slot::RemoteMods,
            ),
        },
{
    match remote_mods.get_data() {
        Ok(mods) => {
            let copy = mods.clone();
            assert(copy@ =~= mods@);
            Ok(copy)
        },
        Err(_) => Err(Error::DataNotLoaded(Slot::RemoteMods)),
    }
}

} // verus!
