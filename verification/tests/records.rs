use rai_pal::game_engines::{EngineBrand, EngineVersionNumbers, UnityScriptingBackend};
use rai_pal::game_mod::{CommonModData, EngineVersionRange};
use rai_pal::installed_game::{make_game_id, InstalledGame};
use rai_pal::local_mod::{get_manifest_path, LocalMod, ModKind};
use rai_pal::mod_loaders::mod_loader::ModLoaderId;
use rai_pal::mod_manifest::Manifest;
use rai_pal::owned_game::OwnedGame;
use rai_pal::paths::{file_name_without_extension, require_stem};
use rai_pal::providers::provider::ProviderId;
use rai_pal::remote_game::RemoteGame;
use rai_pal::result::{Error, Slot};
use rai_pal::unity_mod::Mod;

fn range() -> EngineVersionRange {
    EngineVersionRange {
        minimum: Some(EngineVersionNumbers { major: 2019, minor: Some(4), patch: None }),
        maximum: None,
    }
}

#[test]
fn error_messages_name_their_subject() {
    assert_eq!(
        Error::CapabilityNotSupported("download".to_string(), "bepinex".to_string()).message(),
        "Operation 'download' is not supported by 'bepinex'"
    );
    assert_eq!(
        Error::DataNotLoaded(Slot::LocalMods).message(),
        "Data has not been loaded yet: local mods"
    );
    assert_eq!(
        Error::DataNotLoaded(Slot::ModLoaders).message(),
        "Data has not been loaded yet: mod loaders"
    );
    assert_eq!(
        Error::DataNotLoaded(Slot::RemoteMods).message(),
        "Data has not been loaded yet: remote mods"
    );
    assert_eq!(
        Error::DataEntryNotFound("skip-intro".to_string()).message(),
        "Failed to find data entry: skip-intro"
    );
    assert_eq!(
        Error::ManualActionRequired("uevr".to_string()).message(),
        "Manual action is required for mod loader: uevr"
    );
    assert_eq!(Error::IoFailure("disk full".to_string()).message(), "Input or output failed: disk full");
    assert_eq!(
        Error::RemoteFetchFailure("bepinex".to_string(), "timeout".to_string()).message(),
        "Failed to fetch remote data from 'bepinex': timeout"
    );
    assert_eq!(
        Error::ConstructionFailure("Steam".to_string(), "no client".to_string()).message(),
        "Failed to set up 'Steam': no client"
    );
    assert_eq!(
        Error::FailedToGetFileName("/".to_string()).message(),
        "Failed to get file name from path: /"
    );
    assert_eq!(
        Error::UnknownEnumVariant("Epic".to_string()).message(),
        "Unknown enum variant: Epic"
    );
}

#[test]
fn error_clone_is_equal() {
    let e = Error::RemoteFetchFailure("a".to_string(), "b".to_string());
    assert_eq!(e.clone(), e);
}

#[test]
fn file_name_without_extension_drops_folder_and_extension() {
    assert_eq!(file_name_without_extension("/mods/skip-intro.dll"), Ok("skip-intro".to_string()));
    assert_eq!(file_name_without_extension("mods/uuvr"), Ok("uuvr".to_string()));
    assert_eq!(file_name_without_extension("a.tar.gz"), Ok("a.tar".to_string()));
}

#[test]
fn file_name_without_extension_fails_without_a_file_name() {
    assert_eq!(file_name_without_extension("/"), Err(Error::FailedToGetFileName("/".to_string())));
    assert_eq!(file_name_without_extension(""), Err(Error::FailedToGetFileName("".to_string())));
    assert_eq!(
        file_name_without_extension("mods/.."),
        Err(Error::FailedToGetFileName("mods/..".to_string()))
    );
}

#[test]
fn require_stem_keeps_the_stem_or_names_the_path() {
    assert_eq!(require_stem(Some("x".to_string()), "/p/x.dll"), Ok("x".to_string()));
    assert_eq!(require_stem(None, "/p/.."), Err(Error::FailedToGetFileName("/p/..".to_string())));
}

#[test]
fn manifest_path_lies_inside_the_mod_folder() {
    let expected = std::path::Path::new("/mods/skip-intro").join("rai-pal.json");
    assert_eq!(get_manifest_path("/mods/skip-intro"), expected.to_string_lossy());
    assert_ne!(get_manifest_path("/mods/skip-intro"), "/mods/skip-intro");
    assert!(get_manifest_path("/mods/skip-intro").ends_with("rai-pal.json"));
    assert_eq!(Manifest::file_name(), "rai-pal.json");
}

#[test]
fn local_mod_takes_its_id_from_the_path_and_its_range_from_the_manifest() {
    let manifest = Manifest {
        engine: Some(EngineBrand::Unity),
        unity_backend: Some(UnityScriptingBackend::Mono),
        engine_version_range: Some(range()),
    };
    let local_mod = LocalMod::new(
        ModLoaderId::BepInEx,
        "/mods/bepinex/skip-intro.dll",
        Some(EngineBrand::Unity),
        Some(UnityScriptingBackend::Il2Cpp),
        Some(manifest),
    )
    .unwrap();
    assert_eq!(
        local_mod.common,
        CommonModData {
            id: "skip-intro".to_string(),
            engine: Some(EngineBrand::Unity),
            unity_backend: Some(UnityScriptingBackend::Il2Cpp),
            engine_version_range: Some(range()),
            loader_id: ModLoaderId::BepInEx,
        }
    );
    assert_eq!(local_mod.data.path, "/mods/bepinex/skip-intro.dll");
    assert_eq!(local_mod.data.manifest, Some(manifest));
    assert_eq!(local_mod.common.key(), "BepInEx:skip-intro");
    assert_eq!(local_mod.open_folder(), "/mods/bepinex/skip-intro.dll");
}

#[test]
fn local_mod_without_manifest_has_no_range() {
    let local_mod = LocalMod::new(ModLoaderId::Runnable, "/mods/tool", None, None, None).unwrap();
    assert_eq!(local_mod.common.id, "tool");
    assert_eq!(local_mod.common.engine_version_range, None);
    assert_eq!(local_mod.common.engine, None);
    assert_eq!(local_mod.data.manifest, None);
}

#[test]
fn local_mod_needs_a_file_name() {
    assert_eq!(
        LocalMod::new(ModLoaderId::BepInEx, "/", None, None, None),
        Err(Error::FailedToGetFileName("/".to_string()))
    );
}

#[test]
fn local_mod_with_stem_builds_from_the_given_stem() {
    let built = LocalMod::with_stem(Some("abc".to_string()), ModLoaderId::Uevr, "/x/abc.zip", None, None, None);
    assert_eq!(built.unwrap().common.id, "abc");
    assert_eq!(
        LocalMod::with_stem(None, ModLoaderId::Uevr, "/x/..", None, None, None),
        Err(Error::FailedToGetFileName("/x/..".to_string()))
    );
}

#[test]
fn local_mod_clone_is_equal() {
    let local_mod = LocalMod::new(ModLoaderId::BepInEx, "/mods/a.dll", None, None, None).unwrap();
    assert_eq!(local_mod.clone(), local_mod);
}

#[test]
fn game_ids_hold_provider_and_key() {
    assert_eq!(make_game_id(ProviderId::Steam, "620"), "Steam:620");
    let installed = InstalledGame::new("/games/portal2/portal2.exe", "Portal 2", ProviderId::Steam);
    assert_eq!(installed.id, "Steam:/games/portal2/portal2.exe");
    assert_eq!(installed.name, "Portal 2");
    assert_eq!(installed.provider_id, ProviderId::Steam);
    assert_eq!(installed.path, "/games/portal2/portal2.exe");
    let owned = OwnedGame::new("620", ProviderId::Steam, "Portal 2");
    assert_eq!(owned.id, "Steam:620");
    assert_eq!(owned.name, "Portal 2");
    let remote = RemoteGame::new("620", ProviderId::Gog, Some(EngineBrand::Unreal));
    assert_eq!(remote.id, "Gog:620");
    assert_eq!(remote.engine, Some(EngineBrand::Unreal));
}

#[test]
fn the_same_game_from_two_providers_has_two_ids() {
    let a = InstalledGame::new("/games/x.exe", "X", ProviderId::Steam);
    let b = InstalledGame::new("/games/x.exe", "X", ProviderId::Manual);
    assert_ne!(a.id, b.id);
}

#[test]
fn unity_mod_is_named_after_its_file() {
    let unity_mod = Mod::new("/mods/mono/camera.dll", &UnityScriptingBackend::Mono).unwrap();
    assert_eq!(unity_mod.name, "camera.dll");
    assert_eq!(unity_mod.scripting_backend, UnityScriptingBackend::Mono);
    assert_eq!(unity_mod.path(), "/mods/mono/camera.dll");
}

#[test]
fn unity_mod_needs_a_file_name() {
    assert_eq!(
        Mod::new("/mods/..", &UnityScriptingBackend::Il2Cpp),
        Err(Error::FailedToGetFileName("/mods/..".to_string()))
    );
    assert_eq!(
        Mod::with_name(None, "/", &UnityScriptingBackend::Il2Cpp),
        Err(Error::FailedToGetFileName("/".to_string()))
    );
}

#[test]
fn mod_kind_names_round_trip() {
    assert_eq!(ModKind::Installable.name(), "Installable");
    assert_eq!(ModKind::Runnable.name(), "Runnable");
    assert_eq!(ModKind::from_str("Installable"), Ok(ModKind::Installable));
    assert_eq!(ModKind::from_str("Runnable"), Ok(ModKind::Runnable));
    assert_eq!(
        ModKind::from_str("runnable"),
        Err(Error::UnknownEnumVariant("runnable".to_string()))
    );
}

#[test]
fn mod_loader_names_round_trip() {
    for id in [ModLoaderId::BepInEx, ModLoaderId::Uevr, ModLoaderId::Runnable] {
        assert_eq!(ModLoaderId::from_str(id.name()), Ok(id));
        assert!(!id.name().contains(':'));
    }
    assert_eq!(ModLoaderId::BepInEx.name(), "BepInEx");
    assert_eq!(ModLoaderId::Uevr.name(), "Uevr");
    assert_eq!(ModLoaderId::Runnable.name(), "Runnable");
    assert_eq!(
        ModLoaderId::from_str("bepinex"),
        Err(Error::UnknownEnumVariant("bepinex".to_string()))
    );
}

#[test]
fn a_key_stands_for_loader_and_id_even_with_colons_in_the_id() {
    let plain = LocalMod::new(ModLoaderId::Uevr, "/mods/x", None, None, None).unwrap();
    let tricky = LocalMod::new(ModLoaderId::BepInEx, "/mods/Uevr:x", None, None, None).unwrap();
    assert_eq!(plain.common.key(), "Uevr:x");
    assert_eq!(tricky.common.key(), "BepInEx:Uevr:x");
    assert_ne!(plain.common.key(), tricky.common.key());
}
