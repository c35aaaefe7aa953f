//! The signals that the library sends to its observer. Each is a value;
//! the library appends it to an outbox and the caller delivers it.
use vstd::prelude::*;

use crate::installed_game::{InstalledGame, InstalledGameView};
use crate::local_mod::LocalMod;
use crate::maps::KeyedMap;
use crate::mod_loaders::mod_loader::ModLoaderData;
use crate::owned_game::{OwnedGame, OwnedGameView};
use crate::remote_game::{RemoteGame, RemoteGameView};
use crate::remote_mod::RemoteMod;

verus! {

#[derive(Debug)]
pub struct FoundInstalledGame(pub InstalledGame);

#[derive(Debug)]
pub struct GameAdded(pub String);

#[derive(Debug)]
pub struct FoundOwnedGame(pub OwnedGame);

#[derive(Debug)]
pub struct FoundRemoteGame(pub RemoteGame);

#[derive(Debug)]
pub struct SyncRemoteGames(pub KeyedMap<RemoteGame>);

#[derive(Debug)]
pub struct SyncModLoaders(pub KeyedMap<ModLoaderData>);

#[derive(Debug)]
pub struct SyncLocalMods(pub KeyedMap<LocalMod>);

#[derive(Debug)]
pub struct SyncRemoteMods(pub KeyedMap<RemoteMod>);

#[derive(Debug)]
pub struct ExecutedProviderCommand;

#[derive(Debug)]
pub struct GameRemoved(pub String);

#[derive(Debug)]
pub struct ErrorRaised(pub String);

/// Any one signal.
#[derive(Debug)]
pub enum AppEvent {
    FoundInstalledGame(FoundInstalledGame),
    GameAdded(GameAdded),
    FoundOwnedGame(FoundOwnedGame),
    FoundRemoteGame(FoundRemoteGame),
    SyncRemoteGames(SyncRemoteGames),
    SyncModLoaders(SyncModLoaders),
    SyncLocalMods(SyncLocalMods),
    SyncRemoteMods(SyncRemoteMods),
    ExecutedProviderCommand(ExecutedProviderCommand),
    GameRemoved(GameRemoved),
    ErrorRaised(ErrorRaised),
}

/// The mathematical value of a signal: a single item, a whole collection,
/// or a line of text.
pub enum AppEventView {
    FoundInstalledGame(InstalledGameView),
    GameAdded(Seq<char>),
    FoundOwnedGame(OwnedGameView),
    FoundRemoteGame(RemoteGameView),
    SyncRemoteGames(Map<Seq<char>, RemoteGame>),
    SyncModLoaders(Map<Seq<char>, ModLoaderData>),
    SyncLocalMods(Map<Seq<char>, LocalMod>),
    SyncRemoteMods(Map<Seq<char>, RemoteMod>),
    ExecutedProviderCommand,
    GameRemoved(Seq<char>),
    ErrorRaised(Seq<char>),
}

impl View for AppEvent {
    type V = AppEventView;

    open spec fn view(&self) -> AppEventView {
        match self {
            AppEvent::FoundInstalledGame(e) => AppEventView::FoundInstalledGame(e.0@),
            AppEvent::GameAdded(e) => AppEventView::GameAdded(e.0@),
            AppEvent::FoundOwnedGame(e) => AppEventView::FoundOwnedGame(e.0@),
            AppEvent::FoundRemoteGame(e) => AppEventView::FoundRemoteGame(e.0@),
            AppEvent::SyncRemoteGames(e) => AppEventView::SyncRemoteGames(e.0@),
            AppEvent::SyncModLoaders(e) => AppEventView::SyncModLoaders(e.0@),
            AppEvent::SyncLocalMods(e) => AppEventView::SyncLocalMods(e.0@),
            AppEvent::SyncRemoteMods(e) => AppEventView::SyncRemoteMods(e.0@),
            AppEvent::ExecutedProviderCommand(_) => AppEventView::ExecutedProviderCommand,
            AppEvent::GameRemoved(e) => AppEventView::GameRemoved(e.0@),
            AppEvent::ErrorRaised(e) => AppEventView::ErrorRaised(e.0@),
        }
    }
}

/// The values of the signals in an outbox, oldest first.
pub open spec fn views(outbox: Seq<AppEvent>) -> Seq<AppEventView> {
    Seq::new(outbox.len(), |i: int| outbox[i]@)
}

/// Appends one signal to the outbox.
pub fn emit(outbox: &mut Vec<AppEvent>, event: AppEvent)
    ensures
        final(outbox)@ == old(outbox)@.push(event),
        views(final(outbox)@) == views(old(outbox)@).push(event@),
{
    outbox.push(event);
    assert(views(outbox@) =~= views(old(outbox)@).push(event@));
}

} // verus!
