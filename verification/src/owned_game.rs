//! Games that the user owns at a provider, installed or not.
use vstd::prelude::*;
use vstd::string::StringExecFns;

use crate::installed_game::{game_id, make_game_id};
use crate::providers::provider::ProviderId;

verus! {

#[derive(Debug, PartialEq, Eq)]
pub struct OwnedGame {
    pub id: String,
    pub provider_id: ProviderId,
    pub name: String,
}

/// The mathematical value of an [`OwnedGame`].
pub struct OwnedGameView {
    pub id: Seq<char>,
    pub provider_id: ProviderId,
    pub name: Seq<char>,
}

impl View for OwnedGame {
    type V = OwnedGameView;

    open spec fn view(&self) -> OwnedGameView {
        OwnedGameView { id: self.id@, provider_id: self.provider_id, name: self.name@ }
    }
}

impl Clone for OwnedGame {
    fn clone(&self) -> (r: Self)
        ensures
            r == *self,
    {
        OwnedGame { id: self.id.clone(), provider_id: self.provider_id, name: self.name.clone() }
    }
}

impl OwnedGame {
    /// The record of the game that `provider_id` lists under `key`.
    pub fn new(key: &str, provider_id: ProviderId, name: &str) -> (r: OwnedGame)
        ensures
            r@ == (OwnedGameView { id: game_id(provider_id, key@), provider_id, name: name@ }),
    {
        OwnedGame { id: make_game_id(provider_id, key), provider_id, name: String::from_str(name) }
    }
}

} // verus!
