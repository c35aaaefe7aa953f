use rai_pal::app_state::{update_state, AppState, StateData};
use rai_pal::events::{AppEvent, ErrorRaised};
use rai_pal::maps::{KeyedMap, TryGettable};
use rai_pal::providers::provider::{
    add_entry, create_map_entry, get_map, Provider, ProviderActions, ProviderId, ProviderStatic,
};
use rai_pal::providers::gog_provider::GogProvider;
use rai_pal::providers::xbox_provider::Xbox;
use rai_pal::registry::{add_attempt, build_registry};
use rai_pal::result::{Error, Slot};

fn error_lines(outbox: &Vec<AppEvent>) -> Vec<String> {
    let mut lines = Vec::new();
    for event in outbox {
        if let AppEvent::ErrorRaised(ErrorRaised(line)) = event {
            lines.push(line.clone());
        }
    }
    lines
}

#[test]
fn a_new_map_is_empty() {
    let map: KeyedMap<u32> = KeyedMap::new();
    assert_eq!(map.len(), 0);
    assert!(map.is_empty());
    assert!(!map.contains_key("a"));
    assert_eq!(map.get("a"), None);
}

#[test]
fn insert_adds_at_the_end_and_replaces_in_place() {
    let mut map: KeyedMap<u32> = KeyedMap::new();
    map.insert("b".to_string(), 1);
    map.insert("a".to_string(), 2);
    map.insert("b".to_string(), 3);
    assert_eq!(map.len(), 2);
    assert!(!map.is_empty());
    assert_eq!(map.key_at(0), "b");
    assert_eq!(map.key_at(1), "a");
    assert_eq!(*map.value_at(0), 3);
    assert_eq!(*map.value_at(1), 2);
    assert_eq!(map.get("b"), Some(&3));
    assert_eq!(map.get("a"), Some(&2));
    assert!(map.contains_key("a"));
    assert!(!map.contains_key("c"));
}

#[test]
fn extend_prefers_the_other_map() {
    let mut left: KeyedMap<u32> = KeyedMap::new();
    left.insert("a".to_string(), 1);
    left.insert("b".to_string(), 2);
    let mut right: KeyedMap<u32> = KeyedMap::new();
    right.insert("b".to_string(), 20);
    right.insert("c".to_string(), 30);
    left.extend(right);
    assert_eq!(left.len(), 3);
    assert_eq!(left.get("a"), Some(&1));
    assert_eq!(left.get("b"), Some(&20));
    assert_eq!(left.get("c"), Some(&30));
}

#[test]
fn clone_keeps_keys_order_and_values() {
    let mut map: KeyedMap<String> = KeyedMap::new();
    map.insert("x".to_string(), "1".to_string());
    map.insert("y".to_string(), "2".to_string());
    let copy = map.clone();
    assert_eq!(copy.len(), 2);
    assert_eq!(copy.key_at(0), "x");
    assert_eq!(copy.key_at(1), "y");
    assert_eq!(copy.get("x"), Some(&"1".to_string()));
    assert_eq!(copy.get("y"), Some(&"2".to_string()));
}

#[test]
fn try_get_names_the_missing_key() {
    let mut map: KeyedMap<u32> = KeyedMap::new();
    map.insert("a".to_string(), 7);
    assert_eq!(map.try_get("a"), Ok(&7));
    assert_eq!(map.try_get("zz"), Err(Error::DataEntryNotFound("zz".to_string())));
}

#[test]
fn a_slot_is_absent_until_written() {
    let mut slot: StateData<KeyedMap<u32>> = StateData::new(Slot::RemoteMods);
    assert!(!slot.is_loaded());
    assert_eq!(slot.get_data().err(), Some(Error::DataNotLoaded(Slot::RemoteMods)));
    assert_eq!(slot.try_get("a"), Err(Error::DataNotLoaded(Slot::RemoteMods)));
    slot.set(KeyedMap::new());
    assert!(slot.is_loaded());
    assert_eq!(slot.get_data().unwrap().len(), 0);
    assert_eq!(slot.try_get("a"), Err(Error::DataEntryNotFound("a".to_string())));
}

#[test]
fn absent_is_not_empty() {
    let state = AppState::new();
    assert_eq!(state.local_mods.get_data().err(), Some(Error::DataNotLoaded(Slot::LocalMods)));
    assert_eq!(state.mod_loaders.get_data().err(), Some(Error::DataNotLoaded(Slot::ModLoaders)));
    assert_eq!(state.remote_mods.get_data().err(), Some(Error::DataNotLoaded(Slot::RemoteMods)));
}

#[test]
fn a_write_replaces_the_whole_collection() {
    let mut slot: StateData<KeyedMap<u32>> = StateData::new(Slot::LocalMods);
    let mut first: KeyedMap<u32> = KeyedMap::new();
    first.insert("old".to_string(), 1);
    first.insert("both".to_string(), 1);
    slot.set(first);
    let mut second: KeyedMap<u32> = KeyedMap::new();
    second.insert("both".to_string(), 2);
    second.insert("new".to_string(), 2);
    slot.set(second);
    let now = slot.get_data().unwrap();
    assert_eq!(now.len(), 2);
    assert_eq!(now.get("old"), None);
    assert_eq!(now.get("both"), Some(&2));
    assert_eq!(now.get("new"), Some(&2));
    assert_eq!(slot.try_get("new"), Ok(&2));
}

#[test]
fn update_state_writes_and_signals_once() {
    let mut slot: StateData<u32> = StateData::new(Slot::LocalMods);
    let mut outbox: Vec<AppEvent> = Vec::new();
    update_state(AppEvent::ErrorRaised(ErrorRaised("changed".to_string())), 5, &mut slot, &mut outbox);
    assert_eq!(slot.get_data(), Ok(&5));
    assert_eq!(error_lines(&outbox), vec!["changed".to_string()]);
    assert_eq!(outbox.len(), 1);
}

#[test]
fn one_failed_entry_keeps_no_other_out() {
    let mut outbox: Vec<AppEvent> = Vec::new();
    let attempts: Vec<(String, Result<u32, Error>)> = vec![
        ("a".to_string(), Ok(1)),
        ("b".to_string(), Err(Error::ConstructionFailure("b".to_string(), "broken".to_string()))),
        ("c".to_string(), Ok(3)),
    ];
    let registry = build_registry("Failed to set up mod loader", attempts, &mut outbox);
    assert_eq!(registry.len(), 2);
    assert_eq!(registry.get("a"), Some(&1));
    assert_eq!(registry.get("b"), None);
    assert_eq!(registry.get("c"), Some(&3));
    assert_eq!(registry.key_at(0), "a");
    assert_eq!(registry.key_at(1), "c");
    assert_eq!(
        error_lines(&outbox),
        vec!["Failed to set up mod loader: Failed to set up 'b': broken".to_string()]
    );
}

#[test]
fn a_registry_is_empty_only_if_every_entry_failed() {
    let mut outbox: Vec<AppEvent> = Vec::new();
    let attempts: Vec<(String, Result<u32, Error>)> = vec![
        ("a".to_string(), Err(Error::IoFailure("x".to_string()))),
        ("b".to_string(), Err(Error::IoFailure("y".to_string()))),
    ];
    let registry = build_registry("Failed to set up provider", attempts, &mut outbox);
    assert!(registry.is_empty());
    assert_eq!(
        error_lines(&outbox),
        vec![
            "Failed to set up provider: Input or output failed: x".to_string(),
            "Failed to set up provider: Input or output failed: y".to_string(),
        ]
    );
}

#[test]
fn add_attempt_reports_a_failure_and_leaves_the_map() {
    let mut map: KeyedMap<u32> = KeyedMap::new();
    let mut outbox: Vec<AppEvent> = Vec::new();
    add_attempt("setup", &mut map, "a".to_string(), Ok(1), &mut outbox);
    add_attempt("setup", &mut map, "b".to_string(), Err(Error::IoFailure("z".to_string())), &mut outbox);
    assert_eq!(map.len(), 1);
    assert_eq!(map.get("a"), Some(&1));
    assert_eq!(error_lines(&outbox), vec!["setup: Input or output failed: z".to_string()]);
}

#[test]
fn provider_names_round_trip() {
    for id in [ProviderId::Steam, ProviderId::Manual, ProviderId::Gog, ProviderId::Xbox] {
        assert_eq!(ProviderId::from_str(id.name()), Ok(id));
    }
    assert_eq!(ProviderId::Steam.name(), "Steam");
    assert_eq!(ProviderId::Manual.name(), "Manual");
    assert_eq!(ProviderId::Gog.name(), "Gog");
    assert_eq!(ProviderId::Xbox.name(), "Xbox");
}

#[test]
fn an_unknown_provider_name_is_an_error() {
    assert_eq!(ProviderId::from_str("Epic"), Err(Error::UnknownEnumVariant("Epic".to_string())));
    assert_eq!(ProviderId::from_str("steam"), Err(Error::UnknownEnumVariant("steam".to_string())));
    assert_eq!(ProviderId::from_str(""), Err(Error::UnknownEnumVariant("".to_string())));
}

#[test]
fn the_provider_registry_holds_all_four() {
    let mut outbox: Vec<AppEvent> = Vec::new();
    let map = get_map(&mut outbox);
    assert!(outbox.is_empty());
    assert_eq!(map.len(), 4);
    assert_eq!(map.key_at(0), "Steam");
    assert_eq!(map.key_at(1), "Manual");
    assert_eq!(map.key_at(2), "Gog");
    assert_eq!(map.key_at(3), "Xbox");
    assert!(matches!(map.get("Steam"), Some(Provider::Steam(_))));
    assert!(matches!(map.get("Manual"), Some(Provider::Manual(_))));
    assert!(matches!(map.get("Gog"), Some(Provider::Gog(_))));
    assert!(matches!(map.get("Xbox"), Some(Provider::Xbox(_))));
}

#[test]
fn a_registry_entry_is_named_after_its_provider() {
    let (key, provider) = create_map_entry::<GogProvider>().unwrap();
    assert_eq!(key, "Gog");
    assert!(matches!(provider, Provider::Gog(_)));
    assert_eq!(Xbox::id(), ProviderId::Xbox);
    assert!(Xbox::new().is_ok());
    let mut map: KeyedMap<Provider> = KeyedMap::new();
    let mut outbox: Vec<AppEvent> = Vec::new();
    add_entry::<Xbox>(&mut map, &mut outbox);
    assert_eq!(map.len(), 1);
    assert!(matches!(map.get("Xbox"), Some(Provider::Xbox(_))));
    assert_eq!(map.get("Xbox").unwrap().get_owned_games(&Vec::new()), Ok(Vec::new()));
}
