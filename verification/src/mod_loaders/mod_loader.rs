//! Mod loaders: their descriptors, their capabilities and their registry.
use vstd::prelude::*;
use vstd::string::StringExecFns;

use crate::events::{views, AppEvent, AppEventView};
use crate::local_mod::ModKind;
use crate::paths::str_eq;
use crate::maps::{keys_with, KeyedMap};
use crate::registry::add_attempt;
use crate::result::{Error, ErrorView};
use crate::sync::failure_line;

verus! {

/// The fixed set of mod loaders. An identifier never depends on the order
/// in which loaders are built or scanned.
#[derive(Clone, Copy, Debug, PartialEq, Eq, Structural)]
pub enum ModLoaderId {
    BepInEx,
    Uevr,
    Runnable,
}

/// The name of a mod loader identifier: the key of the loader in a
/// registry.
pub open spec fn loader_name(id: ModLoaderId) -> Seq<char> {
    match id {
        ModLoaderId::BepInEx => "BepInEx"@,
        ModLoaderId::Uevr => "Uevr"@,
        ModLoaderId::Runnable => "Runnable"@,
    }
}

/// The mod loader identifier with a given name, if there is one.
pub open spec fn loader_named(name: Seq<char>) -> Option<ModLoaderId> {
    if name == "BepInEx"@ {
        Some(ModLoaderId::BepInEx)
    } else if name == "Uevr"@ {
        Some(ModLoaderId::Uevr)
    } else if name == "Runnable"@ {
        Some(ModLoaderId::Runnable)
    } else {
        None
    }
}

/// Parsing the name of an identifier gives the identifier back, so no two
/// identifiers share a name; and no name holds a colon.
pub proof fn lemma_loader_name_round_trip(id: ModLoaderId)
    ensures
        loader_named(loader_name(id)) == Some(id),
        !loader_name(id).contains(':'),
{
    reveal_strlit("BepInEx");
    reveal_strlit("Uevr");
    reveal_strlit("Runnable");
    assert("BepInEx"@[0] == 'B');
    assert("Uevr"@[0] == 'U');
    assert("Runnable"@[0] == 'R');
}

impl ModLoaderId {
    pub fn name(self) -> (r: &'static str)
        ensures
            r@ == loader_name(self),
    {
        match self {
            ModLoaderId::BepInEx => "BepInEx",
            ModLoaderId::Uevr => "Uevr",
            ModLoaderId::Runnable => "Runnable",
        }
    }

    /// The identifier whose name is `s`; any other text is an
    /// [`Error::UnknownEnumVariant`].
    pub fn from_str(s: &str) -> (r: Result<ModLoaderId, Error>)
        ensures
            match r {
                Ok(id) => loader_named(s@) == Some(id),
                Err(e) => loader_named(s@) is None && e@ == ErrorView::UnknownEnumVariant(s@),
            },
    {
        if str_eq(s, "BepInEx") {
            Ok(ModLoaderId::BepInEx)
        } else if str_eq(s, "Uevr") {
            Ok(ModLoaderId::Uevr)
        } else if str_eq(s, "Runnable") {
            Ok(ModLoaderId::Runnable)
        } else {
            Err(Error::UnknownEnumVariant(String::from_str(s)))
        }
    }
}

/// The operations a mod loader may offer.
#[derive(Clone, Copy, Debug, PartialEq, Eq, Structural)]
pub enum Operation {
    ListLocalMods,
    FetchRemoteMods,
    Download,
    Install,
    Uninstall,
    Configure,
    RunWithoutGame,
}

/// Which operations a mod loader offers.
#[derive(Clone, Copy, Debug, PartialEq, Eq, Structural)]
pub struct Capabilities {
    pub list_local_mods: bool,
    pub fetch_remote_mods: bool,
    pub download: bool,
    pub install: bool,
    pub uninstall: bool,
    pub configure: bool,
    pub run_without_game: bool,
}

/// What the observer is told of a mod loader.
#[derive(Debug, PartialEq, Eq)]
pub struct ModLoaderData {
    pub id: ModLoaderId,
    pub path: String,
    pub kind: ModKind,
}

/// The mathematical value of a [`ModLoaderData`].
pub struct ModLoaderDataView {
    pub id: ModLoaderId,
    pub path: Seq<char>,
    pub kind: ModKind,
}

/// A mod loader: its descriptor and the operations it offers.
#[derive(Debug, PartialEq, Eq)]
pub struct ModLoader {
    pub data: ModLoaderData,
    pub capabilities: Capabilities,
}

/// The mathematical value of a [`ModLoader`].
pub struct ModLoaderView {
    pub data: ModLoaderDataView,
    pub capabilities: Capabilities,
}

impl View for ModLoaderData {
    type V = ModLoaderDataView;

    open spec fn view(&self) -> ModLoaderDataView {
        ModLoaderDataView { id: self.id, path: self.path@, kind: self.kind }
    }
}

impl View for ModLoader {
    type V = ModLoaderView;

    open spec fn view(&self) -> ModLoaderView {
        ModLoaderView { data: self.data@, capabilities: self.capabilities }
    }
}

impl Clone for ModLoaderData {
    fn clone(&self) -> (r: Self)
        ensures
            r == *self,
    {
        ModLoaderData { id: self.id, path: self.path.clone(), kind: self.kind }
    }
}

impl Clone for ModLoader {
    fn clone(&self) -> (r: Self)
        ensures
            r == *self,
    {
        ModLoader { data: self.data.clone(), capabilities: self.capabilities }
    }
}

/// The name of an operation in messages.
pub open spec fn operation_name(op: Operation) -> Seq<char> {
    match op {
        Operation::ListLocalMods => "list local mods"@,
        Operation::FetchRemoteMods => "fetch remote mods"@,
        Operation::Download => "download"@,
        Operation::Install => "install"@,
        Operation::Uninstall => "uninstall"@,
        Operation::Configure => "configure"@,
        Operation::RunWithoutGame => "run without game"@,
    }
}

/// Whether a set of capabilities holds an operation.
pub open spec fn offers(capabilities: Capabilities, op: Operation) -> bool {
    match op {
        Operation::ListLocalMods => capabilities.list_local_mods,
        Operation::FetchRemoteMods => capabilities.fetch_remote_mods,
        Operation::Download => capabilities.download,
        Operation::Install => capabilities.install,
        Operation::Uninstall => capabilities.uninstall,
        Operation::Configure => capabilities.configure,
        Operation::RunWithoutGame => capabilities.run_without_game,
    }
}

/// What asking a loader for an operation gives: nothing to object to, or
/// the error that names the operation and the loader.
pub open spec fn requirement(loader: ModLoaderView, op: Operation) -> Result<(), ErrorView> {
    if offers(loader.capabilities, op) {
        Ok(())
    } else {
        Err(ErrorView::CapabilityNotSupported(operation_name(op), loader_name(loader.data.id)))
    }
}

/// The view of nothing or an error.
pub open spec fn unit_result(r: Result<(), Error>) -> Result<(), ErrorView> {
    match r {
        Ok(()) => Ok(()),
        Err(e) => Err(e@),
    }
}

impl Operation {
    pub fn name(self) -> (r: &'static str)
        ensures
            r@ == operation_name(self),
    {
        match self {
            Operation::ListLocalMods => "list local mods",
            Operation::FetchRemoteMods => "fetch remote mods",
            Operation::Download => "download",
            Operation::Install => "install",
            Operation::Uninstall => "uninstall",
            Operation::Configure => "configure",
            Operation::RunWithoutGame => "run without game",
        }
    }
}

impl ModLoader {
    /// Whether the loader offers an operation.
    pub fn supports(&self, op: Operation) -> (r: bool)
        ensures
            r == offers(self.capabilities, op),
    {
        match op {
            Operation::ListLocalMods => self.capabilities.list_local_mods,
            Operation::FetchRemoteMods => self.capabilities.fetch_remote_mods,
            Operation::Download => self.capabilities.download,
            Operation::Install => self.capabilities.install,
            Operation::Uninstall => self.capabilities.uninstall,
            Operation::Configure => self.capabilities.configure,
            Operation::RunWithoutGame => self.capabilities.run_without_game,
        }
    }

    /// Succeeds where the loader offers the operation, and fails with
    /// [`Error::CapabilityNotSupported`] where it does not.
    pub fn require(&self, op: Operation) -> (r: Result<(), Error>)
        ensures
            unit_result(r) == requirement(self@, op),
    {
        if self.supports(op) {
            Ok(())
        } else {
            Err(
                Error::CapabilityNotSupported(
                    String::from_str(op.name()),
                    String::from_str(self.data.id.name()),
                ),
            )
        }
    }
}

/// The descriptors of a registry of loaders, under the same keys in the
/// same order.
pub fn get_data_map(loaders: &KeyedMap<ModLoader>) -> (r: KeyedMap<ModLoaderData>)
    ensures
        r.keys() == loaders.keys(),
        r@.dom() == loaders@.dom(),
        forall|k: Seq<char>| #[trigger] loaders@.contains_key(k) ==> r@[k] == loaders@[k].data,
{
    let mut result: KeyedMap<ModLoaderData> = KeyedMap::new();
    let n = loaders.len();
    let mut i: usize = 0;
    while i < n
        invariant
            n == loaders.keys().len(),
            i <= n,
            loaders.keys().no_duplicates(),
            forall|k: Seq<char>| loaders.keys().contains(k) <==> #[trigger] loaders@.contains_key(k),
            result.keys() == loaders.keys().take(i as int),
            forall|k: Seq<char>|
                loaders.keys().take(i as int).contains(k) <==> #[trigger] result@.contains_key(k),
            forall|k: Seq<char>| #[trigger] result@.contains_key(k) ==> result@[k] == loaders@[k].data,
        decreases n - i,
    {
        let key = loaders.key_at(i).clone();
        let data = loaders.value_at(i).data.clone();
        proof {
            let ks = loaders.keys();
            let before = ks.take(i as int);
            let after = ks.take(i as int + 1);
            assert(after =~= before.push(ks[i as int]));
            if result@.contains_key(key@) {
                let j = choose|j: int| 0 <= j < before.len() && before[j] == key@;
                assert(ks[j] == ks[i as int]);
            }
            assert forall|k: Seq<char>| after.contains(k) <==> #[trigger] result@.insert(
                key@,
                data,
            ).contains_key(k) by {
                if after.contains(k) {
                    let j = choose|j: int| 0 <= j < after.len() && after[j] == k;
                    if j < i {
                        assert(before[j] == k);
                    }
                }
                if before.contains(k) {
                    let j = choose|j: int| 0 <= j < before.len() && before[j] == k;
                    assert(after[j] == k);
                }
                assert(after[i as int] == key@);
            }
        }
        result.insert(key, data);
        i += 1;
    }
    proof {
        assert(loaders.keys().take(n as int) =~= loaders.keys());
        assert(result@.dom() =~= loaders@.dom());
    }
    result
}

/// Every mod loader identifier, in the order in which the loaders are
/// built.
pub fn all_ids() -> (r: Vec<ModLoaderId>)
    ensures
        r@ == seq![ModLoaderId::BepInEx, ModLoaderId::Uevr, ModLoaderId::Runnable],
{
    let mut ids: Vec<ModLoaderId> = Vec::new();
    ids.push(ModLoaderId::BepInEx);
    ids.push(ModLoaderId::Uevr);
    ids.push(ModLoaderId::Runnable);
    assert(ids@ =~= seq![ModLoaderId::BepInEx, ModLoaderId::Uevr, ModLoaderId::Runnable]);
    ids
}

/// What is being done when a mod loader is built.
pub open spec fn setup_context() -> Seq<char> {
    "Failed to set up mod loader"@
}

/// The registry that attempts to build loaders give: each loader that was
/// built stands under the name of the identifier it was built for, and a
/// failed attempt adds nothing.
pub open spec fn loaders_of(attempts: Seq<(ModLoaderId, Result<ModLoader, Error>)>) -> Map<
    Seq<char>,
    ModLoader,
>
    decreases attempts.len(),
{
    if attempts.len() == 0 {
        Map::empty()
    } else {
        match attempts.last().1 {
            Ok(loader) => loaders_of(attempts.drop_last()).insert(
                loader_name(attempts.last().0),
                loader,
            ),
            Err(_) => loaders_of(attempts.drop_last()),
        }
    }
}

/// The keys of that registry, in the order in which the loaders came.
pub open spec fn loader_keys(attempts: Seq<(ModLoaderId, Result<ModLoader, Error>)>) -> Seq<
    Seq<char>,
>
    decreases attempts.len(),
{
    if attempts.len() == 0 {
        Seq::empty()
    } else {
        match attempts.last().1 {
            Ok(_) => keys_with(loader_keys(attempts.drop_last()), loader_name(attempts.last().0)),
            Err(_) => loader_keys(attempts.drop_last()),
        }
    }
}

/// One error signal for each loader that could not be built, in order.
pub open spec fn loader_failures(attempts: Seq<(ModLoaderId, Result<ModLoader, Error>)>) -> Seq<
    AppEventView,
>
    decreases attempts.len(),
{
    if attempts.len() == 0 {
        Seq::empty()
    } else {
        match attempts.last().1 {
            Ok(_) => loader_failures(attempts.drop_last()),
            Err(e) => loader_failures(attempts.drop_last()).push(
                AppEventView::ErrorRaised(failure_line(setup_context(), e@)),
            ),
        }
    }
}

/// Builds the registry of mod loaders from one attempt for each
/// identifier. A loader that could not be built is reported and left
/// out; it keeps no other out.
pub fn get_map(attempts: Vec<(ModLoaderId, Result<ModLoader, Error>)>, outbox: &mut Vec<AppEvent>)
    -> (r: KeyedMap<ModLoader>)
    ensures
        r@ == loaders_of(attempts@),
        r.keys() == loader_keys(attempts@),
        views(final(outbox)@) == views(old(outbox)@) + loader_failures(attempts@),
{
    let mut map: KeyedMap<ModLoader> = KeyedMap::new();
    let ghost all = attempts@;
    let ghost sent = views(outbox@);
    assert(sent + loader_failures(all.take(0)) =~= sent);
    for attempt in it: attempts
        invariant
            it.seq() == all,
            map@ == loaders_of(all.take(it.index() as int)),
            map.keys() == loader_keys(all.take(it.index() as int)),
            views(outbox@) == sent + loader_failures(all.take(it.index() as int)),
    {
        proof {
            let i = it.index() as int;
            assert(all.take(i + 1).drop_last() =~= all.take(i));
            if attempt.1 is Err {
                assert((sent + loader_failures(all.take(i))).push(
                    AppEventView::ErrorRaised(
                        failure_line(setup_context(), attempt.1->Err_0@),
                    ),
                ) =~= sent + loader_failures(all.take(i + 1)));
            }
        }
        add_attempt(
            "Failed to set up mod loader",
            &mut map,
            String::from_str(attempt.0.name()),
            attempt.1,
            outbox,
        );
    }
    assert(all.take(all.len() as int) =~= all);
    map
}

} // verus!
