//! The GOG Galaxy client as a source of games.
use vstd::prelude::*;

use crate::installed_game::{InstalledGame, InstalledGameView};
use crate::owned_game::{OwnedGame, OwnedGameView};
use crate::providers::provider::{
    installed_among, installed_from, owned_views, FoundGame, Provider, ProviderActions,
    ProviderId, ProviderStatic,
};
use crate::result::{Error, ErrorView};

verus! {

#[derive(Clone, Copy, Debug)]
pub struct GogProvider {}

impl ProviderStatic for GogProvider {
    open spec fn spec_id() -> ProviderId {
        ProviderId::Gog
    }

    open spec fn infallible() -> bool {
        true
    }

    fn id() -> (r: ProviderId) {
        ProviderId::Gog
    }

    fn new() -> (r: Result<Self, Error>) {
        Ok(GogProvider {  })
    }

    fn into_provider(self) -> (r: Provider) {
        Provider::Gog(self)
    }
}

impl ProviderActions for GogProvider {
    open spec fn provider_id(&self) -> ProviderId {
        ProviderId::Gog
    }

    /// Every game that the client lists with a path is installed; one
    /// without a path is passed over.
    open spec fn installed_games(&self, found: Seq<FoundGame>) -> Result<
        Seq<InstalledGameView>,
        ErrorView,
    > {
        Ok(installed_among(found, ProviderId::Gog))
    }

    /// The client is not asked for owned games: there are none.
    open spec fn owned_games(&self, found: Seq<FoundGame>) -> Result<
        Seq<OwnedGameView>,
        ErrorView,
    > {
        Ok(Seq::empty())
    }

    fn get_installed_games(&self, found: &Vec<FoundGame>) -> (r: Result<Vec<InstalledGame>, Error>) {
        Ok(installed_from(found, ProviderId::Gog))
    }

    fn get_owned_games(&self, found: &Vec<FoundGame>) -> (r: Result<Vec<OwnedGame>, Error>) {
        let games: Vec<OwnedGame> = Vec::new();
        assert(owned_views(games@) =~= Seq::empty());
        Ok(games)
    }
}

} // verus!
