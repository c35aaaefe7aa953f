//! The Xbox app as a source of games.
use vstd::prelude::*;
use vstd::string::StringExecFns;

use crate::installed_game::{installed_game, InstalledGame, InstalledGameView};
use crate::paths::{file_stem, file_stem_of, join, joined, opt_text};
use crate::owned_game::{OwnedGame, OwnedGameView};
use crate::providers::provider::{
    installed_among, installed_from, installed_result, installed_views, owned_views, FoundGame,
    Provider, ProviderActions, ProviderId, ProviderStatic,
};
use crate::result::{Error, ErrorView};

verus! {

#[derive(Clone, Copy, Debug)]
pub struct Xbox {}

impl ProviderStatic for Xbox {
    open spec fn spec_id() -> ProviderId {
        ProviderId::Xbox
    }

    open spec fn infallible() -> bool {
        true
    }

    fn id() -> (r: ProviderId) {
        ProviderId::Xbox
    }

    fn new() -> (r: Result<Self, Error>) {
        Ok(Xbox {  })
    }

    fn into_provider(self) -> (r: Provider) {
        Provider::Xbox(self)
    }
}

impl ProviderActions for Xbox {
    open spec fn provider_id(&self) -> ProviderId {
        ProviderId::Xbox
    }

    open spec fn installed_games(&self, found: Seq<FoundGame>) -> Result<
        Seq<InstalledGameView>,
        ErrorView,
    > {
        Ok(installed_among(found, ProviderId::Xbox))
    }

    /// The app is not asked for owned games: there are none.
    open spec fn owned_games(&self, found: Seq<FoundGame>) -> Result<
        Seq<OwnedGameView>,
        ErrorView,
    > {
        Ok(Seq::empty())
    }

    fn get_installed_games(&self, found: &Vec<FoundGame>) -> (r: Result<Vec<InstalledGame>, Error>) {
        Ok(installed_from(found, ProviderId::Xbox))
    }

    fn get_owned_games(&self, found: &Vec<FoundGame>) -> (r: Result<Vec<OwnedGame>, Error>) {
        let games: Vec<OwnedGame> = Vec::new();
        assert(owned_views(games@) =~= Seq::empty());
        Ok(games)
    }
}

/// What the registry of the gaming services says of one installed
/// package.
#[derive(Debug, PartialEq, Eq)]
pub struct XboxPackage {
    pub package_id: String,
    /// The folder the package is installed in.
    pub root_path: String,
    /// The name of the package's first executable, relative to the root.
    pub executable_name: String,
    /// The name the app shows for the package, where the registry has one.
    pub display_name: Option<String>,
}

/// The name for a game without any: neither a display name nor a file
/// name.
pub open spec fn name_not_found() -> Seq<char> {
    "[Name Not Found]"@
}

/// The name of a game: its display name; without one, the file name of
/// its executable without extension; without that, a fixed text.
pub open spec fn game_name(display_name: Option<Seq<char>>, stem: Option<Seq<char>>) -> Seq<char> {
    match display_name {
        Some(name) => name,
        None => match stem {
            Some(name) => name,
            None => name_not_found(),
        },
    }
}

/// The record of the game of a package.
pub open spec fn package_game(package: XboxPackage) -> InstalledGameView {
    let path = joined(package.root_path@, package.executable_name@);
    installed_game(
        path,
        game_name(opt_text(package.display_name), file_stem_of(path)),
        ProviderId::Xbox,
    )
}

/// The records of the games of a list of packages, in order.
pub open spec fn package_games(packages: Seq<XboxPackage>) -> Seq<InstalledGameView> {
    Seq::new(packages.len(), |i: int| package_game(packages[i]))
}

/// Picks the name of a game from what is known of it.
pub fn pick_name(display_name: &Option<String>, stem: Option<String>) -> (r: String)
    ensures
        r@ == game_name(opt_text(*display_name), opt_text(stem)),
{
    match display_name {
        Some(name) => name.clone(),
        None => match stem {
            Some(name) => name,
            None => String::from_str("[Name Not Found]"),
        },
    }
}

/// The record of the game whose executable lies at `path`.
pub fn game_at(path: &str, display_name: &Option<String>, stem: Option<String>) -> (r:
    InstalledGame)
    ensures
        r@ == installed_game(
            path@,
            game_name(opt_text(*display_name), opt_text(stem)),
            ProviderId::Xbox,
        ),
{
    let name = pick_name(display_name, stem);
    InstalledGame::new(path, name.as_str(), ProviderId::Xbox)
}

/// The installed games that the packages stand for, one for each package.
pub fn find_installed_games(packages: &Vec<XboxPackage>) -> (r: Vec<InstalledGame>)
    ensures
        installed_views(r@) == package_games(packages@),
{
    let mut games: Vec<InstalledGame> = Vec::new();
    let mut i: usize = 0;
    while i < packages.len()
        invariant
            i <= packages.len(),
            games.len() == i,
            forall|j: int| 0 <= j < i ==> (#[trigger] games[j])@ == package_game(packages[j]),
        decreases packages.len() - i,
    {
        let package = &packages[i];
        let path = join(package.root_path.as_str(), package.executable_name.as_str());
        let stem = file_stem(path.as_str());
        let game = game_at(path.as_str(), &package.display_name, stem);
        games.push(game);
        i += 1;
    }
    assert(installed_views(games@) =~= package_games(packages@));
    games
}

/// What a scan of the registry comes to: the games of the packages it
/// found, and no game where the scan failed, which is what a machine
/// without the Xbox app gives.
pub open spec fn games_of_scan(scan: Result<Vec<XboxPackage>, Error>) -> Seq<InstalledGameView> {
    match scan {
        Ok(packages) => package_games(packages@),
        Err(_) => Seq::empty(),
    }
}

impl Xbox {
    /// The installed games for the outcome of a scan of the registry. A
    /// scan that failed is no error: it gives no games.
    pub fn get_games(&self, scan: &Result<Vec<XboxPackage>, Error>) -> (r: Result<
        Vec<InstalledGame>,
        Error,
    >)
        ensures
            installed_result(r) == Ok::<Seq<InstalledGameView>, ErrorView>(games_of_scan(*scan)),
    {
        match scan {
            Ok(packages) => Ok(find_installed_games(packages)),
            Err(_) => {
                let games: Vec<InstalledGame> = Vec::new();
                assert(installed_views(games@) =~= Seq::empty());
                Ok(games)
            },
        }
    }
}

} // verus!
