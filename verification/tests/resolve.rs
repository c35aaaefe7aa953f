use rai_pal::app_state::AppState;
use rai_pal::commands::{
    add_game, advance, configure_mod, delete_mod, download_mod, get_local_mods, get_mod_loaders,
    get_remote_mods, install_mod, open_installed_mod_folder, open_mod_folder,
    open_mod_loader_folder, plan, run_runnable_without_game, tasks_for, uninstall_all_mods,
    uninstall_mod, Intent, Progress, Task,
};
use rai_pal::events::AppEvent;
use rai_pal::game_mod::CommonModData;
use rai_pal::local_mod::{LocalMod, ModKind};
use rai_pal::maps::KeyedMap;
use rai_pal::mod_loaders::mod_loader::{
    Capabilities, ModLoader, ModLoaderData, ModLoaderId, Operation,
};
use rai_pal::providers::manual_provider::{add_game_named, is_known, ManualProvider};
use rai_pal::providers::provider::{FoundGame, ProviderActions, ProviderId};
use rai_pal::remote_mod::{ModDownload, RemoteMod, RemoteModData};
use rai_pal::resolve::{fall_back, refresh_and_get_local_mod, Stage, Step};
use rai_pal::result::{Error, Slot};
use rai_pal::sync::{refresh_local_mods, refresh_remote_mods, update_mod_loaders};

/// The first loader lists local mods and has a remote catalogue.
const L1: ModLoaderId = ModLoaderId::BepInEx;
/// The second loader lists local mods only.
const L2: ModLoaderId = ModLoaderId::Uevr;
/// A loader that is in no registry of these tests.
const GONE: ModLoaderId = ModLoaderId::Runnable;

fn local(loader: ModLoaderId, id: &str) -> LocalMod {
    LocalMod::new(loader, &format!("/mods/{}/{id}.zip", loader.name()), None, None, None).unwrap()
}

fn remote(loader: ModLoaderId, id: &str, downloadable: bool) -> RemoteMod {
    RemoteMod {
        common: CommonModData {
            id: id.to_string(),
            engine: None,
            unity_backend: None,
            engine_version_range: None,
            loader_id: loader,
        },
        data: RemoteModData {
            title: id.to_string(),
            latest_version: if downloadable {
                Some(ModDownload { id: "1.0".to_string(), url: format!("https://mods/{id}.zip") })
            } else {
                None
            },
        },
    }
}

fn loader(id: ModLoaderId, remote: bool) -> ModLoader {
    ModLoader {
        data: ModLoaderData { id, path: format!("/loaders/{}", id.name()), kind: ModKind::Installable },
        capabilities: Capabilities {
            list_local_mods: true,
            fetch_remote_mods: remote,
            download: remote,
            install: true,
            uninstall: true,
            configure: true,
            run_without_game: false,
        },
    }
}

fn loaders() -> KeyedMap<ModLoader> {
    let mut map: KeyedMap<ModLoader> = KeyedMap::new();
    map.insert(L1.name().to_string(), loader(L1, true));
    map.insert(L2.name().to_string(), loader(L2, false));
    map
}

/// A world to resolve in: what lies on disk, and how often a download was asked for.
struct World {
    state: AppState,
    outbox: Vec<AppEvent>,
    disk: Vec<LocalMod>,
    downloads: u32,
    scans: u32,
    folders_opened: Vec<String>,
}

impl World {
    fn new(disk: Vec<LocalMod>, catalogue: Vec<RemoteMod>) -> World {
        let mut world = World {
            state: AppState::new(),
            outbox: Vec::new(),
            disk,
            downloads: 0,
            scans: 0,
            folders_opened: Vec::new(),
        };
        update_mod_loaders(loaders(), &mut world.state.mod_loaders, &mut world.outbox);
        refresh_remote_mods(vec![Ok(catalogue)], &mut world.state.remote_mods, &mut world.outbox);
        world
    }

    fn scan(&mut self) {
        self.scans += 1;
        refresh_local_mods(vec![Ok(self.disk.clone())], &mut self.state.local_mods, &mut self.outbox);
    }

    fn resolve(&mut self, mod_id: &str) -> Result<LocalMod, Error> {
        let mut stage = Stage::Start;
        for _ in 0..4 {
            let (next, step) = refresh_and_get_local_mod(
                stage,
                mod_id,
                &self.state.local_mods,
                &self.state.remote_mods,
                self.state.mod_loaders.get_data().unwrap(),
            );
            stage = next;
            if let Some(outcome) = step.outcome() {
                if let Step::OpenLoaderFolder(loader_id) = &step {
                    self.folders_opened.push(loader_id.clone());
                }
                return outcome;
            }
            match step {
                Step::Rescan => self.scan(),
                Step::Download(remote_mod) => {
                    self.downloads += 1;
                    self.disk.push(local(remote_mod.common.loader_id, &remote_mod.common.id));
                    self.scan();
                },
                _ => unreachable!(),
            }
        }
        panic!("a resolution takes at most three steps");
    }
}

#[test]
fn a_mod_in_the_store_is_returned_at_once() {
    let mut world = World::new(vec![local(L1, "camera")], Vec::new());
    world.scan();
    let before = world.scans;
    assert_eq!(world.resolve("BepInEx:camera"), Ok(local(L1, "camera")));
    assert_eq!(world.scans, before);
    assert_eq!(world.downloads, 0);
}

#[test]
fn a_mod_that_appeared_on_disk_is_found_by_a_scan_without_download() {
    let mut world = World::new(Vec::new(), vec![remote(L1, "camera", true)]);
    world.scan();
    world.disk.push(local(L1, "camera"));
    let before = world.scans;
    assert_eq!(world.resolve("BepInEx:camera"), Ok(local(L1, "camera")));
    assert_eq!(world.scans, before + 1);
    assert_eq!(world.downloads, 0);
}

#[test]
fn a_mod_that_is_only_remote_is_downloaded_exactly_once() {
    let mut world = World::new(Vec::new(), vec![remote(L1, "skip-intro", true)]);
    world.scan();
    let before = world.scans;
    assert_eq!(world.resolve("BepInEx:skip-intro"), Ok(local(L1, "skip-intro")));
    assert_eq!(world.downloads, 1);
    assert_eq!(world.scans, before + 2);
    assert!(world.folders_opened.is_empty());
}

#[test]
fn a_mod_without_download_needs_the_user() {
    let mut world = World::new(Vec::new(), vec![remote(L1, "by-hand", false)]);
    world.scan();
    assert_eq!(world.resolve("BepInEx:by-hand"), Err(Error::ManualActionRequired("BepInEx".to_string())));
    assert_eq!(world.downloads, 0);
    assert_eq!(world.folders_opened, vec!["BepInEx".to_string()]);
}

#[test]
fn a_mod_that_is_nowhere_is_not_found() {
    let mut world = World::new(Vec::new(), Vec::new());
    world.scan();
    assert_eq!(world.resolve("BepInEx:ghost"), Err(Error::DataEntryNotFound("BepInEx:ghost".to_string())));
    assert_eq!(world.downloads, 0);
}

#[test]
fn a_resolution_before_the_first_pass_fails() {
    let state = AppState::new();
    let (stage, step) = refresh_and_get_local_mod(
        Stage::Start,
        "BepInEx:a",
        &state.local_mods,
        &state.remote_mods,
        &loaders(),
    );
    assert_eq!(stage, Stage::Start);
    assert_eq!(step, Step::Failed(Error::DataNotLoaded(Slot::LocalMods)));
    assert_eq!(step.outcome(), Some(Err(Error::DataNotLoaded(Slot::LocalMods))));
}

#[test]
fn each_stage_decides_its_own_step() {
    let mut world = World::new(Vec::new(), vec![remote(L1, "a", true), remote(L2, "b", true), remote(GONE, "c", true)]);
    world.scan();
    let registry = loaders();
    let ask = |stage: Stage, id: &str| {
        refresh_and_get_local_mod(stage, id, &world.state.local_mods, &world.state.remote_mods, &registry)
    };
    assert_eq!(ask(Stage::Start, "BepInEx:a"), (Stage::Rescanned, Step::Rescan));
    assert_eq!(ask(Stage::Rescanned, "BepInEx:a"), (Stage::Downloaded, Step::Download(remote(L1, "a", true))));
    assert_eq!(
        ask(Stage::Downloaded, "BepInEx:a"),
        (Stage::Downloaded, Step::Failed(Error::DataEntryNotFound("BepInEx:a".to_string())))
    );
    assert_eq!(
        ask(Stage::Rescanned, "Uevr:b"),
        (
            Stage::Rescanned,
            Step::Failed(Error::CapabilityNotSupported("download".to_string(), "Uevr".to_string()))
        )
    );
    assert_eq!(
        ask(Stage::Rescanned, "Runnable:c"),
        (Stage::Rescanned, Step::Failed(Error::DataEntryNotFound("Runnable".to_string())))
    );
    assert_eq!(
        ask(Stage::Rescanned, "BepInEx:zzz"),
        (Stage::Rescanned, Step::Failed(Error::DataEntryNotFound("BepInEx:zzz".to_string())))
    );
    assert_eq!(Step::Rescan.outcome(), None);
    assert_eq!(Step::Download(remote(L1, "a", true)).outcome(), None);
}

#[test]
fn the_fallback_needs_the_remote_catalogue() {
    let state = AppState::new();
    assert_eq!(
        fall_back("BepInEx:a", &state.remote_mods, &loaders()),
        (Stage::Rescanned, Step::Failed(Error::DataNotLoaded(Slot::RemoteMods)))
    );
}

#[test]
fn resolving_a_remote_mod_downloads_once_and_then_installs() {
    let mut world = World::new(Vec::new(), vec![remote(L1, "skip-intro", true)]);
    world.scan();
    let resolved = world.resolve("BepInEx:skip-intro").unwrap();
    assert_eq!(world.downloads, 1);
    assert!(world.state.local_mods.get_data().unwrap().contains_key("BepInEx:skip-intro"));
    let tasks = install_mod(&resolved, world.state.mod_loaders.get_data().unwrap());
    assert_eq!(tasks, Ok(vec![Task::Uninstall, Task::Install, Task::RefreshGame]));
    assert_eq!(world.resolve("BepInEx:skip-intro"), Ok(resolved));
    assert_eq!(world.downloads, 1);
}

#[test]
fn every_install_comes_after_an_uninstall() {
    for intent in [
        Intent::Install,
        Intent::Uninstall,
        Intent::Configure,
        Intent::RunWithoutGame,
        Intent::OpenInstalledModFolder,
    ] {
        let tasks = plan(intent);
        for (i, task) in tasks.iter().enumerate() {
            if *task == Task::Install {
                assert!(i > 0);
                assert_eq!(tasks[i - 1], Task::Uninstall);
            }
        }
    }
    assert_eq!(plan(Intent::Install), vec![Task::Uninstall, Task::Install, Task::RefreshGame]);
    assert_eq!(plan(Intent::Uninstall), vec![Task::Uninstall, Task::RefreshGame]);
    assert_eq!(plan(Intent::Configure), vec![Task::Configure]);
    assert_eq!(plan(Intent::RunWithoutGame), vec![Task::RunWithoutGame]);
    assert_eq!(plan(Intent::OpenInstalledModFolder), vec![Task::OpenInstalledModFolder]);
    assert_eq!(Task::Install.operation(), Some(Operation::Install));
    assert_eq!(Task::RefreshGame.operation(), None);
}

#[test]
fn a_plan_is_checked_against_the_loader() {
    let registry = loaders();
    let resolved = local(L1, "a");
    assert_eq!(uninstall_mod(&resolved, &registry), Ok(vec![Task::Uninstall, Task::RefreshGame]));
    assert_eq!(configure_mod(&resolved, &registry), Ok(vec![Task::Configure]));
    assert_eq!(
        open_installed_mod_folder(&resolved, &registry),
        Ok(vec![Task::OpenInstalledModFolder])
    );
    assert_eq!(
        run_runnable_without_game(&resolved, &registry),
        Err(Error::CapabilityNotSupported("run without game".to_string(), "BepInEx".to_string()))
    );
    assert_eq!(
        tasks_for(Intent::Install, &local(GONE, "a"), &registry),
        Err(Error::DataEntryNotFound("Runnable".to_string()))
    );
    let mut weak = loader(GONE, false);
    weak.capabilities.install = false;
    weak.capabilities.uninstall = false;
    let mut one: KeyedMap<ModLoader> = KeyedMap::new();
    one.insert("Runnable".to_string(), weak);
    assert_eq!(
        install_mod(&local(GONE, "a"), &one),
        Err(Error::CapabilityNotSupported("uninstall".to_string(), "Runnable".to_string()))
    );
}

#[test]
fn a_download_request_is_checked_step_by_step() {
    let mut state = AppState::new();
    let mut outbox: Vec<AppEvent> = Vec::new();
    assert_eq!(
        download_mod("BepInEx:a", &state.remote_mods, &state.mod_loaders),
        Err(Error::DataNotLoaded(Slot::RemoteMods))
    );
    refresh_remote_mods(
        vec![Ok(vec![remote(L1, "a", true), remote(L2, "b", true), remote(GONE, "c", true)])],
        &mut state.remote_mods,
        &mut outbox,
    );
    assert_eq!(
        download_mod("BepInEx:zzz", &state.remote_mods, &state.mod_loaders),
        Err(Error::DataEntryNotFound("BepInEx:zzz".to_string()))
    );
    assert_eq!(
        download_mod("BepInEx:a", &state.remote_mods, &state.mod_loaders),
        Err(Error::DataNotLoaded(Slot::ModLoaders))
    );
    update_mod_loaders(loaders(), &mut state.mod_loaders, &mut outbox);
    assert_eq!(download_mod("BepInEx:a", &state.remote_mods, &state.mod_loaders), Ok(remote(L1, "a", true)));
    assert_eq!(
        download_mod("Uevr:b", &state.remote_mods, &state.mod_loaders),
        Err(Error::CapabilityNotSupported("download".to_string(), "Uevr".to_string()))
    );
    assert_eq!(
        download_mod("Runnable:c", &state.remote_mods, &state.mod_loaders),
        Err(Error::DataEntryNotFound("Runnable".to_string()))
    );
}

#[test]
fn a_delete_request_is_checked_step_by_step() {
    let mut state = AppState::new();
    let mut outbox: Vec<AppEvent> = Vec::new();
    assert_eq!(
        delete_mod("BepInEx:a", &state.local_mods, &state.mod_loaders),
        Err(Error::DataNotLoaded(Slot::LocalMods))
    );
    refresh_local_mods(
        vec![Ok(vec![local(L1, "a"), local(GONE, "c")])],
        &mut state.local_mods,
        &mut outbox,
    );
    assert_eq!(
        delete_mod("BepInEx:zzz", &state.local_mods, &state.mod_loaders),
        Err(Error::DataEntryNotFound("BepInEx:zzz".to_string()))
    );
    assert_eq!(
        delete_mod("BepInEx:a", &state.local_mods, &state.mod_loaders),
        Err(Error::DataNotLoaded(Slot::ModLoaders))
    );
    update_mod_loaders(loaders(), &mut state.mod_loaders, &mut outbox);
    assert_eq!(delete_mod("BepInEx:a", &state.local_mods, &state.mod_loaders), Ok(local(L1, "a")));
    assert_eq!(
        delete_mod("Runnable:c", &state.local_mods, &state.mod_loaders),
        Err(Error::DataEntryNotFound("Runnable".to_string()))
    );
}

#[test]
fn the_store_is_read_through_the_commands() {
    let mut state = AppState::new();
    let mut outbox: Vec<AppEvent> = Vec::new();
    assert_eq!(get_mod_loaders(&state.mod_loaders).err(), Some(Error::DataNotLoaded(Slot::ModLoaders)));
    assert_eq!(get_local_mods(&state.local_mods).err(), Some(Error::DataNotLoaded(Slot::LocalMods)));
    assert_eq!(get_remote_mods(&state.remote_mods).err(), Some(Error::DataNotLoaded(Slot::RemoteMods)));
    assert_eq!(open_mod_folder("BepInEx:a", &state.local_mods), Err(Error::DataNotLoaded(Slot::LocalMods)));
    assert_eq!(
        open_mod_loader_folder("BepInEx", &state.mod_loaders),
        Err(Error::DataNotLoaded(Slot::ModLoaders))
    );
    update_mod_loaders(loaders(), &mut state.mod_loaders, &mut outbox);
    refresh_local_mods(vec![Ok(vec![local(L1, "a")])], &mut state.local_mods, &mut outbox);
    refresh_remote_mods(vec![Ok(vec![remote(L1, "b", true)])], &mut state.remote_mods, &mut outbox);
    let data = get_mod_loaders(&state.mod_loaders).unwrap();
    assert_eq!(data.len(), 2);
    assert_eq!(data.get("Uevr"), Some(&loader(L2, false).data));
    let locals = get_local_mods(&state.local_mods).unwrap();
    assert_eq!(locals.len(), 1);
    assert_eq!(locals.get("BepInEx:a"), Some(&local(L1, "a")));
    let remotes = get_remote_mods(&state.remote_mods).unwrap();
    assert_eq!(remotes.len(), 1);
    assert_eq!(remotes.get("BepInEx:b"), Some(&remote(L1, "b", true)));
    assert_eq!(open_mod_folder("BepInEx:a", &state.local_mods), Ok("/mods/BepInEx/a.zip".to_string()));
    assert_eq!(
        open_mod_folder("BepInEx:b", &state.local_mods),
        Err(Error::DataEntryNotFound("BepInEx:b".to_string()))
    );
    assert_eq!(open_mod_loader_folder("Uevr", &state.mod_loaders), Ok("/loaders/Uevr".to_string()));
    assert_eq!(
        open_mod_loader_folder("Runnable", &state.mod_loaders),
        Err(Error::DataEntryNotFound("Runnable".to_string()))
    );
}

#[test]
fn a_game_added_by_hand_is_found_once_in_every_pass() {
    let mut known: Vec<FoundGame> = Vec::new();
    let mut outbox: Vec<AppEvent> = Vec::new();
    assert_eq!(add_game(&mut known, "/games/portal/portal.exe", &mut outbox), Ok(()));
    assert_eq!(outbox.len(), 2);
    match (&outbox[0], &outbox[1]) {
        (AppEvent::FoundInstalledGame(found), AppEvent::GameAdded(added)) => {
            assert_eq!(found.0.id, "Manual:/games/portal/portal.exe");
            assert_eq!(found.0.name, "portal");
            assert_eq!(found.0.provider_id, ProviderId::Manual);
            assert_eq!(added.0, "portal");
        },
        _ => panic!("the game is sent first, then its name"),
    }
    let provider = ManualProvider {};
    let first_pass = provider.get_installed_games(&known).unwrap();
    let second_pass = provider.get_installed_games(&known).unwrap();
    assert_eq!(first_pass.len(), 1);
    assert_eq!(first_pass, second_pass);
    assert_eq!(first_pass[0].id, "Manual:/games/portal/portal.exe");
    assert_eq!(add_game(&mut known, "/games/portal/portal.exe", &mut outbox), Ok(()));
    assert_eq!(known.len(), 1);
    assert_eq!(provider.get_installed_games(&known).unwrap(), first_pass);
    assert!(is_known(&known, "/games/portal/portal.exe"));
    assert!(!is_known(&known, "/games/portal"));
}

#[test]
fn a_game_without_a_file_name_is_not_added() {
    let mut known: Vec<FoundGame> = Vec::new();
    let mut outbox: Vec<AppEvent> = Vec::new();
    assert_eq!(add_game(&mut known, "/", &mut outbox), Err(Error::FailedToGetFileName("/".to_string())));
    assert!(known.is_empty());
    assert!(outbox.is_empty());
    assert_eq!(
        add_game_named(&mut known, "/x/..", None),
        Err(Error::FailedToGetFileName("/x/..".to_string()))
    );
    let added = add_game_named(&mut known, "/x/y.exe", Some("y".to_string())).unwrap();
    assert_eq!(added.name, "y");
    assert_eq!(known.len(), 1);
    assert_eq!(known[0].key, "/x/y.exe");
    assert_eq!(known[0].path, Some("/x/y.exe".to_string()));
}

#[test]
fn a_mod_without_download_needs_the_user_even_if_its_loader_is_not_registered() {
    let mut world = World::new(Vec::new(), vec![remote(GONE, "by-hand", false)]);
    world.scan();
    assert_eq!(
        world.resolve("Runnable:by-hand"),
        Err(Error::ManualActionRequired("Runnable".to_string()))
    );
    assert_eq!(world.downloads, 0);
}

#[test]
fn a_command_goes_on_task_by_task_and_ends_at_the_first_failure() {
    let tasks = plan(Intent::Install);
    assert_eq!(advance(&tasks, 0, Ok(())), Progress::Next(Task::Uninstall));
    assert_eq!(advance(&tasks, 1, Ok(())), Progress::Next(Task::Install));
    assert_eq!(advance(&tasks, 2, Ok(())), Progress::Next(Task::RefreshGame));
    assert_eq!(advance(&tasks, 3, Ok(())), Progress::Finished);
    assert_eq!(
        advance(&tasks, 1, Err(Error::IoFailure("locked".to_string()))),
        Progress::Failed(Error::IoFailure("locked".to_string()))
    );
    assert_eq!(advance(&Vec::new(), 0, Ok(())), Progress::Finished);
}

#[test]
fn removing_every_mod_refreshes_the_game() {
    assert_eq!(uninstall_all_mods(), vec![Task::UninstallAll, Task::RefreshGame]);
    assert_eq!(Task::UninstallAll.operation(), None);
}
