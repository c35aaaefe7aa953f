//! Aggregation core of a game and mod manager: records for games and mods,
//! registries of providers and mod loaders, a three-slot state store, the
//! synchronisation sweeps and the mod resolution protocol.
pub mod result;
pub mod paths;
pub mod game_engines;
pub mod game_mod;
pub mod mod_manifest;
pub mod local_mod;
pub mod maps;
pub mod providers;
pub mod remote_mod;
pub mod installed_game;
pub mod owned_game;
pub mod remote_game;
pub mod mod_loaders;
pub mod events;
pub mod app_state;
pub mod sync;
pub mod registry;
pub mod resolve;
pub mod unity_mod;
pub mod commands;
