use rai_pal::installed_game::InstalledGame;
use rai_pal::owned_game::OwnedGame;
use rai_pal::providers::gog_provider::GogProvider;
use rai_pal::providers::manual_provider::ManualProvider;
use rai_pal::providers::provider::{
    installed_from, owned_from, FoundGame, Provider, ProviderActions, ProviderId, ProviderStatic,
};
use rai_pal::providers::steam_provider::SteamProvider;
use rai_pal::providers::xbox_provider::{find_installed_games, game_at, pick_name, Xbox, XboxPackage};
use rai_pal::result::Error;

fn found(key: &str, name: &str, path: Option<&str>) -> FoundGame {
    FoundGame { key: key.to_string(), name: name.to_string(), path: path.map(|p| p.to_string()) }
}

fn package(root: &str, exe: &str, display: Option<&str>) -> XboxPackage {
    XboxPackage {
        package_id: "Pkg".to_string(),
        root_path: root.to_string(),
        executable_name: exe.to_string(),
        display_name: display.map(|d| d.to_string()),
    }
}

#[test]
fn gog_passes_over_games_without_a_path() {
    let provider = GogProvider::new().unwrap();
    let games = provider
        .get_installed_games(&vec![
            found("1", "Installed", Some("/gog/one")),
            found("2", "Not installed", None),
            found("3", "Also installed", Some("/gog/three")),
        ])
        .unwrap();
    assert_eq!(
        games,
        vec![
            InstalledGame::new("/gog/one", "Installed", ProviderId::Gog),
            InstalledGame::new("/gog/three", "Also installed", ProviderId::Gog),
        ]
    );
    assert_eq!(games[0].id, "Gog:/gog/one");
}

#[test]
fn gog_lists_no_owned_games() {
    let provider = GogProvider::new().unwrap();
    assert_eq!(provider.get_owned_games(&vec![found("1", "A", Some("/a"))]), Ok(Vec::new()));
}

#[test]
fn steam_lists_installed_and_owned_games() {
    let provider = SteamProvider::new().unwrap();
    let library = vec![found("620", "Portal 2", Some("/steam/portal2")), found("400", "Portal", None)];
    assert_eq!(
        provider.get_installed_games(&library),
        Ok(vec![InstalledGame::new("/steam/portal2", "Portal 2", ProviderId::Steam)])
    );
    assert_eq!(
        provider.get_owned_games(&library),
        Ok(vec![
            OwnedGame::new("620", ProviderId::Steam, "Portal 2"),
            OwnedGame::new("400", ProviderId::Steam, "Portal"),
        ])
    );
}

#[test]
fn manual_games_say_nothing_of_ownership() {
    let provider = ManualProvider::new().unwrap();
    assert_eq!(
        provider.get_owned_games(&Vec::new()),
        Err(Error::CapabilityNotSupported("get owned games".to_string(), "Manual".to_string()))
    );
    assert_eq!(
        provider.get_installed_games(&vec![found("/m/a.exe", "a", Some("/m/a.exe"))]),
        Ok(vec![InstalledGame::new("/m/a.exe", "a", ProviderId::Manual)])
    );
}

#[test]
fn the_registry_entry_answers_as_its_provider() {
    let entry = GogProvider::new().unwrap().into_provider();
    assert!(matches!(entry, Provider::Gog(_)));
    let library = vec![found("1", "A", Some("/a")), found("2", "B", None)];
    assert_eq!(
        entry.get_installed_games(&library),
        Ok(vec![InstalledGame::new("/a", "A", ProviderId::Gog)])
    );
    assert_eq!(entry.get_owned_games(&library), Ok(Vec::new()));
    let manual = ManualProvider::new().unwrap().into_provider();
    assert!(manual.get_owned_games(&library).is_err());
    let steam = SteamProvider::new().unwrap().into_provider();
    assert_eq!(steam.get_owned_games(&library).unwrap().len(), 2);
    let xbox = Xbox::new().unwrap().into_provider();
    assert_eq!(
        xbox.get_installed_games(&library),
        Ok(vec![InstalledGame::new("/a", "A", ProviderId::Xbox)])
    );
    assert_eq!(SteamProvider::id(), ProviderId::Steam);
    assert_eq!(ManualProvider::id(), ProviderId::Manual);
    assert_eq!(GogProvider::id(), ProviderId::Gog);
}

#[test]
fn found_games_become_records_in_order() {
    let library = vec![found("b", "B", Some("/b")), found("a", "A", Some("/a")), found("c", "C", None)];
    let installed = installed_from(&library, ProviderId::Steam);
    assert_eq!(installed.len(), 2);
    assert_eq!(installed[0].path, "/b");
    assert_eq!(installed[1].path, "/a");
    let owned = owned_from(&library, ProviderId::Steam);
    assert_eq!(owned.len(), 3);
    assert_eq!(owned[2].id, "Steam:c");
    assert_eq!(installed_from(&Vec::new(), ProviderId::Gog), Vec::new());
}

#[test]
fn an_xbox_game_is_named_by_display_name_then_file_name_then_a_fixed_text() {
    assert_eq!(pick_name(&Some("Halo".to_string()), Some("halo".to_string())), "Halo");
    assert_eq!(pick_name(&Some("Halo".to_string()), None), "Halo");
    assert_eq!(pick_name(&None, Some("halo".to_string())), "halo");
    assert_eq!(pick_name(&None, None), "[Name Not Found]");
    assert_eq!(
        game_at("/x/halo.exe", &None, Some("halo".to_string())),
        InstalledGame::new("/x/halo.exe", "halo", ProviderId::Xbox)
    );
}

#[test]
fn xbox_packages_become_games_at_their_executables() {
    let exe = std::path::Path::new("/xbox/Halo").join("halo.exe").to_string_lossy().into_owned();
    let plain = std::path::Path::new("/xbox/Forza").join("bin/forza.exe").to_string_lossy().into_owned();
    let games = find_installed_games(&vec![
        package("/xbox/Halo", "halo.exe", Some("Halo Infinite")),
        package("/xbox/Forza", "bin/forza.exe", None),
        package("/", "", None),
    ]);
    assert_eq!(games.len(), 3);
    assert_eq!(games[0], InstalledGame::new(&exe, "Halo Infinite", ProviderId::Xbox));
    assert_eq!(games[1], InstalledGame::new(&plain, "forza", ProviderId::Xbox));
    assert_eq!(games[2].name, "[Name Not Found]");
    assert_ne!(games[0].path, "/xbox/Halo");
    assert!(games[0].path.ends_with("halo.exe"));
}

#[test]
fn a_failed_xbox_scan_gives_no_games_and_no_error() {
    let provider = Xbox::new().unwrap();
    assert_eq!(provider.get_games(&Err(Error::IoFailure("no registry key".to_string()))), Ok(Vec::new()));
    let scan = Ok(vec![package("/xbox/Halo", "halo.exe", Some("Halo"))]);
    let games = provider.get_games(&scan).unwrap();
    assert_eq!(games.len(), 1);
    assert_eq!(games[0].name, "Halo");
    assert_eq!(games[0].provider_id, ProviderId::Xbox);
}
