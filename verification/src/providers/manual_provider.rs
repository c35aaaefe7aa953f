//! Games that the user added by hand.
use vstd::prelude::*;
use vstd::string::StringExecFns;

use crate::installed_game::{installed_game, InstalledGame, InstalledGameView};
use crate::owned_game::{OwnedGame, OwnedGameView};
use crate::paths::{file_stem, file_stem_of, opt_text, str_eq};
use crate::providers::provider::{
    installed_among, installed_from, FoundGame, FoundGameView, Provider, ProviderActions,
    ProviderId, ProviderStatic,
};
use crate::result::{Error, ErrorView};

verus! {

#[derive(Clone, Copy, Debug)]
pub struct ManualProvider {}

impl ProviderStatic for ManualProvider {
    open spec fn spec_id() -> ProviderId {
        ProviderId::Manual
    }

    open spec fn infallible() -> bool {
        true
    }

    fn id() -> (r: ProviderId) {
        ProviderId::Manual
    }

    fn new() -> (r: Result<Self, Error>) {
        Ok(ManualProvider {  })
    }

    fn into_provider(self) -> (r: Provider) {
        Provider::Manual(self)
    }
}

/// The name of the operation that lists owned games.
pub open spec fn owned_games_operation() -> Seq<char> {
    "get owned games"@
}

impl ProviderActions for ManualProvider {
    open spec fn provider_id(&self) -> ProviderId {
        ProviderId::Manual
    }

    /// Every game that was added by hand is installed.
    open spec fn installed_games(&self, found: Seq<FoundGame>) -> Result<
        Seq<InstalledGameView>,
        ErrorView,
    > {
        Ok(installed_among(found, ProviderId::Manual))
    }

    /// Games added by hand say nothing of what the user owns.
    open spec fn owned_games(&self, found: Seq<FoundGame>) -> Result<
        Seq<OwnedGameView>,
        ErrorView,
    > {
        Err(
            ErrorView::CapabilityNotSupported(
                owned_games_operation(),
                crate::providers::provider::provider_name(ProviderId::Manual),
            ),
        )
    }

    fn get_installed_games(&self, found: &Vec<FoundGame>) -> (r: Result<Vec<InstalledGame>, Error>) {
        Ok(installed_from(found, ProviderId::Manual))
    }

    fn get_owned_games(&self, found: &Vec<FoundGame>) -> (r: Result<Vec<OwnedGame>, Error>) {
        Err(
            Error::CapabilityNotSupported(
                String::from_str("get owned games"),
                String::from_str(ProviderId::Manual.name()),
            ),
        )
    }
}

/// Whether a list of games added by hand holds one at `path`.
pub open spec fn knows(known: Seq<FoundGame>, path: Seq<char>) -> bool {
    exists|i: int| 0 <= i < known.len() && (#[trigger] known[i]).key@ == path
}

/// The values of what was found.
pub open spec fn found_views(found: Seq<FoundGame>) -> Seq<FoundGameView> {
    Seq::new(found.len(), |i: int| found[i]@)
}

/// The entry for a game added by hand: its key is its path.
pub open spec fn manual_entry(path: Seq<char>, name: Seq<char>) -> FoundGameView {
    FoundGameView { key: path, name, path: Some(path) }
}

/// The list of games added by hand after the game at `path`, whose file
/// name without extension is `stem`, was added: an entry goes to the end
/// unless the list has one for that path or the path has no file name.
pub open spec fn known_after(known: Seq<FoundGame>, path: Seq<char>, stem: Option<Seq<char>>)
    -> Seq<FoundGameView> {
    match stem {
        Some(name) => if knows(known, path) {
            found_views(known)
        } else {
            found_views(known).push(manual_entry(path, name))
        },
        None => found_views(known),
    }
}

/// What adding the game at `path` returns: its record, or the error for a
/// path without a file name.
pub open spec fn added_game(path: Seq<char>, stem: Option<Seq<char>>) -> Result<
    InstalledGameView,
    ErrorView,
> {
    match stem {
        Some(name) => Ok(installed_game(path, name, ProviderId::Manual)),
        None => Err(ErrorView::FailedToGetFileName(path)),
    }
}

/// The view of a game or an error.
pub open spec fn game_result(r: Result<InstalledGame, Error>) -> Result<
    InstalledGameView,
    ErrorView,
> {
    match r {
        Ok(g) => Ok(g@),
        Err(e) => Err(e@),
    }
}

/// Whether the list holds an entry for `path`.
pub fn is_known(known: &Vec<FoundGame>, path: &str) -> (r: bool)
    ensures
        r == knows(known@, path@),
{
    let mut i: usize = 0;
    while i < known.len()
        invariant
            i <= known.len(),
            forall|j: int| 0 <= j < i ==> (#[trigger] known[j]).key@ != path@,
        decreases known.len() - i,
    {
        if str_eq(known[i].key.as_str(), path) {
            return true;
        }
        i += 1;
    }
    false
}

/// Adds the game at `path`, whose file name without extension is `stem`,
/// to the games added by hand. Adding a path a second time changes
/// nothing, and gives the same record.
pub fn add_game_named(known: &mut Vec<FoundGame>, path: &str, stem: Option<String>) -> (r: Result<
    InstalledGame,
    Error,
>)
    ensures
        game_result(r) == added_game(path@, opt_text(stem)),
        found_views(final(known)@) == known_after(old(known)@, path@, opt_text(stem)),
{
    match stem {
        Some(name) => {
            let game = InstalledGame::new(path, name.as_str(), ProviderId::Manual);
            if !is_known(known, path) {
                let entry = FoundGame {
                    key: String::from_str(path),
                    name,
                    path: Some(String::from_str(path)),
                };
                known.push(entry);
                assert(found_views(known@) =~= found_views(old(known)@).push(entry@));
            }
            Ok(game)
        },
        None => Err(Error::FailedToGetFileName(String::from_str(path))),
    }
}

/// Adds the game at the normalised `path` to the games added by hand; its
/// name is the path's file name without extension.
pub fn add_game(known: &mut Vec<FoundGame>, path: &str) -> (r: Result<InstalledGame, Error>)
    ensures
        game_result(r) == added_game(path@, file_stem_of(path@)),
        found_views(final(known)@) == known_after(old(known)@, path@, file_stem_of(path@)),
{
    add_game_named(known, path, file_stem(path))
}

} // verus!
