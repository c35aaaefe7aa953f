//! What a provider's remote catalogue says of a game.
use vstd::prelude::*;

use crate::game_engines::EngineBrand;
use crate::installed_game::{game_id, make_game_id};
use crate::providers::provider::ProviderId;

verus! {

#[derive(Debug, PartialEq, Eq)]
pub struct RemoteGame {
    pub id: String,
    pub provider_id: ProviderId,
    pub engine: Option<EngineBrand>,
}

/// The mathematical value of a [`RemoteGame`].
pub struct RemoteGameView {
    pub id: Seq<char>,
    pub provider_id: ProviderId,
    pub engine: Option<EngineBrand>,
}

impl View for RemoteGame {
    type V = RemoteGameView;

    open spec fn view(&self) -> RemoteGameView {
        RemoteGameView { id: self.id@, provider_id: self.provider_id, engine: self.engine }
    }
}

impl Clone for RemoteGame {
    fn clone(&self) -> (r: Self)
        ensures
            r == *self,
    {
        RemoteGame { id: self.id.clone(), provider_id: self.provider_id, engine: self.engine }
    }
}

impl RemoteGame {
    /// The record of the game that the catalogue of `provider_id` lists
    /// under `key`.
    pub fn new(key: &str, provider_id: ProviderId, engine: Option<EngineBrand>) -> (r: RemoteGame)
        ensures
            r@ == (RemoteGameView { id: game_id(provider_id, key@), provider_id, engine }),
    {
        RemoteGame { id: make_game_id(provider_id, key), provider_id, engine }
    }
}

} // verus!
