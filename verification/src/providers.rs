//! The sources of games: their identifiers, their registry and the adapters.
pub mod provider;
pub mod gog_provider;
pub mod manual_provider;
pub mod steam_provider;
pub mod xbox_provider;
