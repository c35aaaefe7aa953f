//! Provider identifiers, the capability interface and the registry.
use vstd::prelude::*;
use vstd::string::StringExecFns;

use crate::events::{views, AppEvent, AppEventView};
use crate::installed_game::{installed_game, InstalledGame, InstalledGameView};
use crate::maps::{keys_with, KeyedMap};
use crate::owned_game::{OwnedGame, OwnedGameView};
use crate::paths::str_eq;
use crate::providers::gog_provider::GogProvider;
use crate::providers::manual_provider::ManualProvider;
use crate::providers::steam_provider::SteamProvider;
use crate::providers::xbox_provider::Xbox;
use crate::registry::add_attempt;
use crate::result::{Error, ErrorView};
use crate::sync::failure_line;

verus! {

/// The fixed set of game sources. An identifier never depends on the order
/// in which sources are scanned.
#[derive(Clone, Copy, Debug, PartialEq, Eq, Structural)]
pub enum ProviderId {
    Steam,
    Manual,
    Gog,
    Xbox,
}

/// The name of a provider identifier.
pub open spec fn provider_name(id: ProviderId) -> Seq<char> {
    match id {
        ProviderId::Steam => "Steam"@,
        ProviderId::Manual => "Manual"@,
        ProviderId::Gog => "Gog"@,
        ProviderId::Xbox => "Xbox"@,
    }
}

/// The provider identifier with a given name, if there is one.
pub open spec fn provider_named(name: Seq<char>) -> Option<ProviderId> {
    if name == "Steam"@ {
        Some(ProviderId::Steam)
    } else if name == "Manual"@ {
        Some(ProviderId::Manual)
    } else if name == "Gog"@ {
        Some(ProviderId::Gog)
    } else if name == "Xbox"@ {
        Some(ProviderId::Xbox)
    } else {
        None
    }
}

/// Parsing the name of an identifier gives the identifier back, so no two
/// identifiers share a name; and no name holds a colon.
pub proof fn lemma_provider_name_round_trip(id: ProviderId)
    ensures
        provider_named(provider_name(id)) == Some(id),
        !provider_name(id).contains(':'),
{
    reveal_strlit("Steam");
    reveal_strlit("Manual");
    reveal_strlit("Gog");
    reveal_strlit("Xbox");
    assert("Steam"@[0] == 'S');
    assert("Manual"@[0] == 'M');
    assert("Gog"@[0] == 'G');
    assert("Xbox"@[0] == 'X');
}

impl ProviderId {
    pub fn name(self) -> (r: &'static str)
        ensures
            r@ == provider_name(self),
    {
        match self {
            ProviderId::Steam => "Steam",
            ProviderId::Manual => "Manual",
            ProviderId::Gog => "Gog",
            ProviderId::Xbox => "Xbox",
        }
    }

    /// The identifier whose name is `s`; any other text is an
    /// [`Error::UnknownEnumVariant`].
    pub fn from_str(s: &str) -> (r: Result<ProviderId, Error>)
        ensures
            match r {
                Ok(id) => provider_named(s@) == Some(id),
                Err(e) => provider_named(s@) is None && e@ == ErrorView::UnknownEnumVariant(s@),
            },
    {
        if str_eq(s, "Steam") {
            Ok(ProviderId::Steam)
        } else if str_eq(s, "Manual") {
            Ok(ProviderId::Manual)
        } else if str_eq(s, "Gog") {
            Ok(ProviderId::Gog)
        } else if str_eq(s, "Xbox") {
            Ok(ProviderId::Xbox)
        } else {
            Err(Error::UnknownEnumVariant(String::from_str(s)))
        }
    }
}

/// What a scan of a provider's own records gives for one game, before
/// the library has looked at it.
#[derive(Debug, PartialEq, Eq)]
pub struct FoundGame {
    /// The key under which the provider knows the game.
    pub key: String,
    pub name: String,
    /// Where the game is installed, if it is.
    pub path: Option<String>,
}

/// The mathematical value of a [`FoundGame`].
pub struct FoundGameView {
    pub key: Seq<char>,
    pub name: Seq<char>,
    pub path: Option<Seq<char>>,
}

impl View for FoundGame {
    type V = FoundGameView;

    open spec fn view(&self) -> FoundGameView {
        FoundGameView {
            key: self.key@,
            name: self.name@,
            path: match self.path {
                Some(p) => Some(p@),
                None => None,
            },
        }
    }
}

/// The values of a list of installed games.
pub open spec fn installed_views(games: Seq<InstalledGame>) -> Seq<InstalledGameView> {
    Seq::new(games.len(), |i: int| games[i]@)
}

/// The values of a list of owned games.
pub open spec fn owned_views(games: Seq<OwnedGame>) -> Seq<OwnedGameView> {
    Seq::new(games.len(), |i: int| games[i]@)
}

/// The installed games among what a provider found: those that have a
/// path, in the order in which they were found.
pub open spec fn installed_among(found: Seq<FoundGame>, provider_id: ProviderId) -> Seq<
    InstalledGameView,
>
    decreases found.len(),
{
    if found.len() == 0 {
        Seq::empty()
    } else {
        match found.last().path {
            Some(path) => installed_among(found.drop_last(), provider_id).push(
                installed_game(path@, found.last().name@, provider_id),
            ),
            None => installed_among(found.drop_last(), provider_id),
        }
    }
}

/// The owned games among what a provider found: all of them, in order.
pub open spec fn owned_among(found: Seq<FoundGame>, provider_id: ProviderId) -> Seq<
    OwnedGameView,
> {
    Seq::new(
        found.len(),
        |i: int|
            OwnedGameView {
                id: crate::installed_game::game_id(provider_id, found[i].key@),
                provider_id,
                name: found[i].name@,
            },
    )
}

/// Makes the records of the installed games among what was found.
pub fn installed_from(found: &Vec<FoundGame>, provider_id: ProviderId) -> (r: Vec<InstalledGame>)
    ensures
        installed_views(r@) == installed_among(found@, provider_id),
{
    let mut games: Vec<InstalledGame> = Vec::new();
    let mut i: usize = 0;
    assert(installed_views(games@) =~= installed_among(found@.take(0), provider_id));
    while i < found.len()
        invariant
            i <= found.len(),
            installed_views(games@) == installed_among(found@.take(i as int), provider_id),
        decreases found.len() - i,
    {
        proof {
            assert(found@.take(i + 1).drop_last() =~= found@.take(i as int));
        }
        let ghost before = games@;
        match &found[i].path {
            Some(path) => {
                let game = InstalledGame::new(path.as_str(), found[i].name.as_str(), provider_id);
                games.push(game);
                assert(installed_views(games@) =~= installed_views(before).push(game@));
            },
            None => {},
        }
        i += 1;
    }
    assert(found@.take(found.len() as int) =~= found@);
    games
}

/// Makes the records of the owned games among what was found.
pub fn owned_from(found: &Vec<FoundGame>, provider_id: ProviderId) -> (r: Vec<OwnedGame>)
    ensures
        owned_views(r@) == owned_among(found@, provider_id),
{
    let mut games: Vec<OwnedGame> = Vec::new();
    let mut i: usize = 0;
    while i < found.len()
        invariant
            i <= found.len(),
            games.len() == i,
            forall|j: int| 0 <= j < i ==> (#[trigger] games[j])@ == owned_among(found@, provider_id)[j],
        decreases found.len() - i,
    {
        let game = OwnedGame::new(found[i].key.as_str(), provider_id, found[i].name.as_str());
        games.push(game);
        i += 1;
    }
    assert(owned_views(games@) =~= owned_among(found@, provider_id));
    games
}

/// What every provider type says of itself, apart from any instance.
pub trait ProviderStatic: Sized {
    /// The identifier of this kind of provider.
    spec fn spec_id() -> ProviderId;

    /// Whether building this provider always succeeds.
    spec fn infallible() -> bool;

    fn id() -> (r: ProviderId)
        ensures
            r == Self::spec_id(),
    ;

    fn new() -> (r: Result<Self, Error>)
        ensures
            Self::infallible() ==> r is Ok,
    ;

    /// The provider as a registry entry.
    fn into_provider(self) -> (r: Provider)
        ensures
            r.provider_id() == Self::spec_id(),
    ;
}

/// What a provider makes of the records that a scan of its source gave.
/// An operation that a provider does not offer fails with
/// [`Error::CapabilityNotSupported`].
pub trait ProviderActions {
    /// The identifier that every game of this provider carries.
    spec fn provider_id(&self) -> ProviderId;

    /// What [`ProviderActions::get_installed_games`] gives.
    spec fn installed_games(&self, found: Seq<FoundGame>) -> Result<
        Seq<InstalledGameView>,
        ErrorView,
    >;

    /// What [`ProviderActions::get_owned_games`] gives.
    spec fn owned_games(&self, found: Seq<FoundGame>) -> Result<Seq<OwnedGameView>, ErrorView>;

    fn get_installed_games(&self, found: &Vec<FoundGame>) -> (r: Result<Vec<InstalledGame>, Error>)
        ensures
            installed_result(r) == self.installed_games(found@),
    ;

    fn get_owned_games(&self, found: &Vec<FoundGame>) -> (r: Result<Vec<OwnedGame>, Error>)
        ensures
            owned_result(r) == self.owned_games(found@),
    ;
}

/// The views of a list of installed games or an error.
pub open spec fn installed_result(r: Result<Vec<InstalledGame>, Error>) -> Result<
    Seq<InstalledGameView>,
    ErrorView,
> {
    match r {
        Ok(games) => Ok(installed_views(games@)),
        Err(e) => Err(e@),
    }
}

/// The views of a list of owned games or an error.
pub open spec fn owned_result(r: Result<Vec<OwnedGame>, Error>) -> Result<
    Seq<OwnedGameView>,
    ErrorView,
> {
    match r {
        Ok(games) => Ok(owned_views(games@)),
        Err(e) => Err(e@),
    }
}

/// Any one provider.
#[derive(Clone, Copy, Debug)]
pub enum Provider {
    Steam(SteamProvider),
    Manual(ManualProvider),
    Gog(GogProvider),
    Xbox(Xbox),
}

impl ProviderActions for Provider {
    open spec fn provider_id(&self) -> ProviderId {
        match self {
            Provider::Steam(p) => p.provider_id(),
            Provider::Manual(p) => p.provider_id(),
            Provider::Gog(p) => p.provider_id(),
            Provider::Xbox(p) => p.provider_id(),
        }
    }

    open spec fn installed_games(&self, found: Seq<FoundGame>) -> Result<
        Seq<InstalledGameView>,
        ErrorView,
    > {
        match self {
            Provider::Steam(p) => p.installed_games(found),
            Provider::Manual(p) => p.installed_games(found),
            Provider::Gog(p) => p.installed_games(found),
            Provider::Xbox(p) => p.installed_games(found),
        }
    }

    open spec fn owned_games(&self, found: Seq<FoundGame>) -> Result<
        Seq<OwnedGameView>,
        ErrorView,
    > {
        match self {
            Provider::Steam(p) => p.owned_games(found),
            Provider::Manual(p) => p.owned_games(found),
            Provider::Gog(p) => p.owned_games(found),
            Provider::Xbox(p) => p.owned_games(found),
        }
    }

    fn get_installed_games(&self, found: &Vec<FoundGame>) -> (r: Result<Vec<InstalledGame>, Error>) {
        match self {
            Provider::Steam(p) => p.get_installed_games(found),
            Provider::Manual(p) => p.get_installed_games(found),
            Provider::Gog(p) => p.get_installed_games(found),
            Provider::Xbox(p) => p.get_installed_games(found),
        }
    }

    fn get_owned_games(&self, found: &Vec<FoundGame>) -> (r: Result<Vec<OwnedGame>, Error>) {
        match self {
            Provider::Steam(p) => p.get_owned_games(found),
            Provider::Manual(p) => p.get_owned_games(found),
            Provider::Gog(p) => p.get_owned_games(found),
            Provider::Xbox(p) => p.get_owned_games(found),
        }
    }
}

/// What is being done when a provider is built.
pub open spec fn setup_context() -> Seq<char> {
    "Failed to set up provider"@
}

/// Builds the registry entry of one kind of provider: its name and the
/// provider itself.
pub fn create_map_entry<T: ProviderStatic>() -> (r: Result<(String, Provider), Error>)
    ensures
        T::infallible() ==> r is Ok,
        r is Ok ==> r->Ok_0.0@ == provider_name(T::spec_id()) && r->Ok_0.1.provider_id()
            == T::spec_id(),
{
    match T::new() {
        Ok(provider) => {
            let entry = provider.into_provider();
            Ok((String::from_str(T::id().name()), entry))
        },
        Err(error) => Err(error),
    }
}

/// Adds one kind of provider to the registry, or reports why it could not
/// be built. Either way every other entry stays as it is.
pub fn add_entry<T: ProviderStatic>(map: &mut KeyedMap<Provider>, outbox: &mut Vec<AppEvent>)
    ensures
        forall|k: Seq<char>|
            k != provider_name(T::spec_id()) ==> (#[trigger] final(map)@.contains_key(k)
                <==> old(map)@.contains_key(k)),
        forall|k: Seq<char>|
            k != provider_name(T::spec_id()) && #[trigger] old(map)@.contains_key(k) ==> final(map)@[k]
                == old(map)@[k],
        (added::<T>(final(map)@, views(old(outbox)@), views(final(outbox)@)) && final(map).keys()
            == keys_with(old(map).keys(), provider_name(T::spec_id()))) || (!T::infallible()
            && final(map)@ == old(map)@ && final(map).keys() == old(map).keys() && failed(
            views(old(outbox)@),
            views(final(outbox)@),
        )),
{
    match create_map_entry::<T>() {
        Ok((key, value)) => {
            add_attempt("Failed to set up provider", map, key, Ok(value), outbox);
        },
        Err(error) => {
            let ghost cause = error@;
            add_attempt(
                "Failed to set up provider",
                map,
                String::from_str(T::id().name()),
                Err(error),
                outbox,
            );
            assert(views(outbox@).drop_last() =~= views(old(outbox)@));
            assert(views(outbox@).last() == AppEventView::ErrorRaised(
                failure_line(setup_context(), cause),
            ));
        },
    }
}

/// The registry holds a provider of kind `T` under its name, and nothing
/// was reported.
pub open spec fn added<T: ProviderStatic>(
    map: Map<Seq<char>, Provider>,
    sent_before: Seq<AppEventView>,
    sent_after: Seq<AppEventView>,
) -> bool {
    &&& map.contains_key(provider_name(T::spec_id()))
    &&& map[provider_name(T::spec_id())].provider_id() == T::spec_id()
    &&& sent_after == sent_before
}

/// One failure to build a provider was reported.
pub open spec fn failed(sent_before: Seq<AppEventView>, sent_after: Seq<AppEventView>) -> bool {
    &&& sent_after.len() == sent_before.len() + 1
    &&& sent_after.drop_last() == sent_before
    &&& exists|e: ErrorView|
        sent_after.last() == AppEventView::ErrorRaised(failure_line(setup_context(), e))
}

/// The registry of all providers. Building any of the four cannot fail,
/// so the registry holds each of them under its name and nothing is
/// reported.
pub fn get_map(outbox: &mut Vec<AppEvent>) -> (r: KeyedMap<Provider>)
    ensures
        views(final(outbox)@) == views(old(outbox)@),
        forall|k: Seq<char>|
            #[trigger] r@.contains_key(k) <==> exists|id: ProviderId| k == provider_name(id),
        forall|id: ProviderId| (#[trigger] r@[provider_name(id)]).provider_id() == id,
        r.keys() == seq![
            provider_name(ProviderId::Steam),
            provider_name(ProviderId::Manual),
            provider_name(ProviderId::Gog),
            provider_name(ProviderId::Xbox),
        ],
{
    let mut map: KeyedMap<Provider> = KeyedMap::new();
    proof {
        lemma_provider_name_round_trip(ProviderId::Steam);
        lemma_provider_name_round_trip(ProviderId::Manual);
        lemma_provider_name_round_trip(ProviderId::Gog);
        lemma_provider_name_round_trip(ProviderId::Xbox);
    }
    let ghost steam = provider_name(ProviderId::Steam);
    let ghost manual = provider_name(ProviderId::Manual);
    let ghost gog = provider_name(ProviderId::Gog);
    let ghost xbox = provider_name(ProviderId::Xbox);
    let ghost at_first = map@;
    add_entry::<SteamProvider>(&mut map, outbox);
    let ghost with_steam = map@;
    assert(map.keys() =~= seq![steam]);
    add_entry::<ManualProvider>(&mut map, outbox);
    let ghost with_manual = map@;
    assert(seq![steam][0] == steam);
    assert(map.keys() =~= seq![steam, manual]);
    assert(with_steam.contains_key(steam) && with_manual.contains_key(steam) && with_manual[steam] == with_steam[steam]);
    add_entry::<GogProvider>(&mut map, outbox);
    let ghost with_gog = map@;
    assert(map.keys() =~= seq![steam, manual, gog]);
    assert(with_gog.contains_key(steam) && with_gog[steam] == with_steam[steam]);
    assert(with_manual.contains_key(manual) && with_gog.contains_key(manual) && with_gog[manual] == with_manual[manual]);
    add_entry::<Xbox>(&mut map, outbox);
    let ghost complete = map@;
    assert(map.keys() =~= seq![steam, manual, gog, xbox]);
    assert(complete.contains_key(steam) && complete[steam] == with_steam[steam]);
    assert(complete.contains_key(manual) && complete[manual] == with_manual[manual]);
    assert(with_gog.contains_key(gog) && complete.contains_key(gog) && complete[gog] == with_gog[gog]);
    assert(complete.contains_key(xbox));
    proof {
        assert forall|k: Seq<char>| #[trigger] complete.contains_key(k) implies exists|id: ProviderId|
            k == provider_name(id) by {
            if k != steam && k != manual && k != gog && k != xbox {
                assert(with_gog.contains_key(k));
                assert(with_manual.contains_key(k));
                assert(with_steam.contains_key(k));
                assert(at_first.contains_key(k));
            }
        }
        assert forall|id: ProviderId| (#[trigger] complete[provider_name(id)]).provider_id() == id by {
            match id {
                ProviderId::Steam => {},
                ProviderId::Manual => {},
                ProviderId::Gog => {},
                ProviderId::Xbox => {},
            }
        }
        assert forall|k: Seq<char>| (exists|id: ProviderId| k == provider_name(id)) implies #[trigger] complete.contains_key(
            k,
        ) by {
            let id = choose|id: ProviderId| k == provider_name(id);
            match id {
                ProviderId::Steam => {},
                ProviderId::Manual => {},
                ProviderId::Gog => {},
                ProviderId::Xbox => {},
            }
        }
    }
    map
}

} // verus!
