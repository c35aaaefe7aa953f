//! The state store: three slots, each absent until first written, each
//! replaced as a whole.
use vstd::prelude::*;
use vstd::string::StringExecFns;

use crate::events::{emit, views, AppEvent};
use crate::local_mod::LocalMod;
use crate::maps::KeyedMap;
use crate::mod_loaders::mod_loader::ModLoader;
use crate::remote_mod::RemoteMod;
use crate::result::{Error, ErrorView, Slot};

verus! {

/// One slot of the store. The caller guards it; the library never holds
/// it across outside work.
pub struct StateData<T> {
    slot: Slot,
    data: Option<T>,
}

impl<T> StateData<T> {
    /// Which of the three slots this is.
    pub closed spec fn slot(&self) -> Slot {
        self.slot
    }

    /// What the slot holds, if anything was written to it.
    pub closed spec fn data(&self) -> Option<T> {
        self.data
    }

    /// An absent slot.
    pub fn new(slot: Slot) -> (r: Self)
        ensures
            r.slot() == slot,
            r.data() is None,
    {
        StateData { slot, data: None }
    }

    /// Whether anything was written yet.
    pub fn is_loaded(&self) -> (r: bool)
        ensures
            r == self.data() is Some,
    {
        self.data.is_some()
    }

    /// The current collection; [`Error::DataNotLoaded`] while the slot is
    /// absent.
    pub fn get_data(&self) -> (r: Result<&T, Error>)
        ensures
            match r {
                Ok(v) => self.data() == Some(*v),
                Err(e) => self.data() is None && e@ == ErrorView::DataNotLoaded(self.slot()),
            },
    {
        match &self.data {
            Some(v) => Ok(v),
            None => Err(Error::DataNotLoaded(self.slot)),
        }
    }

    /// Replaces what the slot holds by `data`, whatever it held.
    pub fn set(&mut self, data: T)
        ensures
            final(self).data() == Some(data),
            final(self).slot() == old(self).slot(),
    {
        self.data = Some(data);
    }
}

impl<V> StateData<KeyedMap<V>> {
    /// The element under `key`: [`Error::DataNotLoaded`] while the slot is
    /// absent, [`Error::DataEntryNotFound`] where the collection lacks the
    /// key.
    pub fn try_get(&self, key: &str) -> (r: Result<&V, Error>)
        ensures
            match r {
                Ok(v) => self.data() is Some && self.data()->Some_0@.contains_key(key@) && *v
                    == self.data()->Some_0@[key@],
                Err(e) => match self.data() {
                    None => e@ == ErrorView::DataNotLoaded(self.slot()),
                    Some(m) => !m@.contains_key(key@) && e@ == ErrorView::DataEntryNotFound(key@),
                },
            },
    {
        match &self.data {
            Some(m) => match m.get(key) {
                Some(v) => Ok(v),
                None => Err(Error::DataEntryNotFound(String::from_str(key))),
            },
            None => Err(Error::DataNotLoaded(self.slot)),
        }
    }
}

/// The store: mod loaders, local mods and remote mods.
pub struct AppState {
    pub mod_loaders: StateData<KeyedMap<ModLoader>>,
    pub local_mods: StateData<KeyedMap<LocalMod>>,
    pub remote_mods: StateData<KeyedMap<RemoteMod>>,
}

impl AppState {
    /// A store with its three slots absent.
    pub fn new() -> (r: Self)
        ensures
            r.mod_loaders.slot() == Slot::ModLoaders,
            r.local_mods.slot() == Slot::LocalMods,
            r.remote_mods.slot() == Slot::RemoteMods,
            r.mod_loaders.data() is None,
            r.local_mods.data() is None,
            r.remote_mods.data() is None,
    {
        AppState {
            mod_loaders: StateData::new(Slot::ModLoaders),
            local_mods: StateData::new(Slot::LocalMods),
            remote_mods: StateData::new(Slot::RemoteMods),
        }
    }
}

/// Replaces what a slot holds and tells the observer: the slot then holds
/// `data` and nothing of what it held, and `event` is the one signal added.
pub fn update_state<T>(event: AppEvent, data: T, state: &mut StateData<T>, outbox: &mut Vec<AppEvent>)
    ensures
        final(state).data() == Some(data),
        final(state).slot() == old(state).slot(),
        final(outbox)@ == old(outbox)@.push(event),
        views(final(outbox)@) == views(old(outbox)@).push(event@),
{
    state.set(data);
    emit(outbox, event);
}

} // verus!
