//! The Steam client as a source of games.
use vstd::prelude::*;

use crate::installed_game::{InstalledGame, InstalledGameView};
use crate::owned_game::{OwnedGame, OwnedGameView};
use crate::providers::provider::{
    installed_among, installed_from, owned_among, owned_from, FoundGame, Provider,
    ProviderActions, ProviderId, ProviderStatic,
};
use crate::result::{Error, ErrorView};

verus! {

#[derive(Clone, Copy, Debug)]
pub struct SteamProvider {}

impl ProviderStatic for SteamProvider {
    open spec fn spec_id() -> ProviderId {
        ProviderId::Steam
    }

    open spec fn infallible() -> bool {
        true
    }

    fn id() -> (r: ProviderId) {
        ProviderId::Steam
    }

    fn new() -> (r: Result<Self, Error>) {
        Ok(SteamProvider {  })
    }

    fn into_provider(self) -> (r: Provider) {
        Provider::Steam(self)
    }
}

impl ProviderActions for SteamProvider {
    open spec fn provider_id(&self) -> ProviderId {
        ProviderId::Steam
    }

    /// Every game of the library that has a path is installed.
    open spec fn installed_games(&self, found: Seq<FoundGame>) -> Result<
        Seq<InstalledGameView>,
        ErrorView,
    > {
        Ok(installed_among(found, ProviderId::Steam))
    }

    /// Every game of the library is owned.
    open spec fn owned_games(&self, found: Seq<FoundGame>) -> Result<
        Seq<OwnedGameView>,
        ErrorView,
    > {
        Ok(owned_among(found, ProviderId::Steam))
    }

    fn get_installed_games(&self, found: &Vec<FoundGame>) -> (r: Result<Vec<InstalledGame>, Error>) {
        Ok(installed_from(found, ProviderId::Steam))
    }

    fn get_owned_games(&self, found: &Vec<FoundGame>) -> (r: Result<Vec<OwnedGame>, Error>) {
        Ok(owned_from(found, ProviderId::Steam))
    }
}

} // verus!
