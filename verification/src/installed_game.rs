//! Games found installed on this machine.
use vstd::prelude::*;
use vstd::string::StringExecFns;

use crate::game_mod::{colon_joined, lemma_colon_joined_injective};
use crate::providers::provider::{
    lemma_provider_name_round_trip, provider_name, provider_named, ProviderId,
};

verus! {

#[derive(Debug, PartialEq, Eq)]
pub struct InstalledGame {
    pub id: String,
    pub name: String,
    pub provider_id: ProviderId,
    pub path: String,
}

/// The mathematical value of an [`InstalledGame`].
pub struct InstalledGameView {
    pub id: Seq<char>,
    pub name: Seq<char>,
    pub provider_id: ProviderId,
    pub path: Seq<char>,
}

impl View for InstalledGame {
    type V = InstalledGameView;

    open spec fn view(&self) -> InstalledGameView {
        InstalledGameView {
            id: self.id@,
            name: self.name@,
            provider_id: self.provider_id,
            path: self.path@,
        }
    }
}

impl Clone for InstalledGame {
    fn clone(&self) -> (r: Self)
        ensures
            r == *self,
    {
        InstalledGame {
            id: self.id.clone(),
            name: self.name.clone(),
            provider_id: self.provider_id,
            path: self.path.clone(),
        }
    }
}

/// The identifier of what a provider knows under `key`: the provider's
/// name, a colon, and the key.
pub open spec fn game_id(provider_id: ProviderId, key: Seq<char>) -> Seq<char> {
    provider_name(provider_id) + ":"@ + key
}

/// Two identifiers are equal only for one provider and one key: what two
/// providers know never collides.
pub proof fn lemma_game_id_injective(provider: ProviderId, key: Seq<char>, other: ProviderId, other_key: Seq<char>)
    requires
        game_id(provider, key) == game_id(other, other_key),
    ensures
        provider == other,
        key == other_key,
{
    lemma_provider_name_round_trip(provider);
    lemma_provider_name_round_trip(other);
    assert(game_id(provider, key) == colon_joined(provider_name(provider), key));
    assert(game_id(other, other_key) == colon_joined(provider_name(other), other_key));
    lemma_colon_joined_injective(provider_name(provider), key, provider_name(other), other_key);
    assert(provider_named(provider_name(provider)) == provider_named(provider_name(other)));
}

/// The record of the game that `provider_id` found at `path`.
pub open spec fn installed_game(path: Seq<char>, name: Seq<char>, provider_id: ProviderId)
    -> InstalledGameView {
    InstalledGameView { id: game_id(provider_id, path), name, provider_id, path }
}

/// The identifier that a provider gives to one of its keys.
pub fn make_game_id(provider_id: ProviderId, key: &str) -> (r: String)
    ensures
        r@ == game_id(provider_id, key@),
{
    let mut id = String::from_str(provider_id.name());
    id.append(":");
    id.append(key);
    id
}

impl InstalledGame {
    /// The record of the game that `provider_id` found at `path`. Its
    /// identifier depends on the provider and the path alone.
    pub fn new(path: &str, name: &str, provider_id: ProviderId) -> (r: InstalledGame)
        ensures
            r@ == installed_game(path@, name@, provider_id),
    {
        InstalledGame {
            id: make_game_id(provider_id, path),
            name: String::from_str(name),
            provider_id,
            path: String::from_str(path),
        }
    }
}

} // verus!
