//! What a local and a remote mod have in common.
use vstd::prelude::*;
use vstd::string::StringExecFns;

use crate::game_engines::{EngineBrand, EngineVersionNumbers, UnityScriptingBackend};
use crate::mod_loaders::mod_loader::{lemma_loader_name_round_trip, loader_name, loader_named, ModLoaderId};

verus! {

/// The engine versions a mod works with; an absent bound is open.
#[derive(Clone, Copy, Debug, PartialEq, Eq)]
pub struct EngineVersionRange {
    pub minimum: Option<EngineVersionNumbers>,
    pub maximum: Option<EngineVersionNumbers>,
}

#[derive(Debug, PartialEq, Eq)]
pub struct CommonModData {
    pub id: String,
    pub engine: Option<EngineBrand>,
    pub unity_backend: Option<UnityScriptingBackend>,
    pub engine_version_range: Option<EngineVersionRange>,
    pub loader_id: ModLoaderId,
}

/// The mathematical value of a [`CommonModData`].
pub struct CommonModDataView {
    pub id: Seq<char>,
    pub engine: Option<EngineBrand>,
    pub unity_backend: Option<UnityScriptingBackend>,
    pub engine_version_range: Option<EngineVersionRange>,
    pub loader_id: ModLoaderId,
}

impl View for CommonModData {
    type V = CommonModDataView;

    open spec fn view(&self) -> CommonModDataView {
        CommonModDataView {
            id: self.id@,
            engine: self.engine,
            unity_backend: self.unity_backend,
            engine_version_range: self.engine_version_range,
            loader_id: self.loader_id,
        }
    }
}

impl Clone for CommonModData {
    fn clone(&self) -> (r: Self)
        ensures
            r == *self,
    {
        CommonModData {
            id: self.id.clone(),
            engine: self.engine,
            unity_backend: self.unity_backend,
            engine_version_range: self.engine_version_range,
            loader_id: self.loader_id,
        }
    }
}

/// Two texts joined by a colon.
pub open spec fn colon_joined(head: Seq<char>, tail: Seq<char>) -> Seq<char> {
    head + ":"@ + tail
}

/// Two joined texts are equal only if both parts are, as long as neither
/// head holds a colon.
pub proof fn lemma_colon_joined_injective(
    head: Seq<char>,
    tail: Seq<char>,
    other_head: Seq<char>,
    other_tail: Seq<char>,
)
    requires
        !head.contains(':'),
        !other_head.contains(':'),
        colon_joined(head, tail) == colon_joined(other_head, other_tail),
    ensures
        head == other_head,
        tail == other_tail,
{
    reveal_strlit(":");
    let joined = colon_joined(head, tail);
    let other = colon_joined(other_head, other_tail);
    assert(":"@.len() == 1 && ":"@[0] == ':');
    assert(joined[head.len() as int] == ':');
    assert(other[other_head.len() as int] == ':');
    if head.len() < other_head.len() {
        assert(other[head.len() as int] == other_head[head.len() as int]);
        assert(other_head.contains(':'));
    }
    if other_head.len() < head.len() {
        assert(joined[other_head.len() as int] == head[other_head.len() as int]);
        assert(head.contains(':'));
    }
    assert(head.len() == other_head.len());
    assert forall|j: int| 0 <= j < head.len() implies head[j] == other_head[j] by {
        assert(joined[j] == head[j]);
        assert(other[j] == other_head[j]);
    }
    assert(head =~= other_head);
    assert(joined.len() == head.len() + 1 + tail.len());
    assert(other.len() == other_head.len() + 1 + other_tail.len());
    assert forall|j: int| 0 <= j < tail.len() implies tail[j] == other_tail[j] by {
        assert(joined[head.len() + 1 + j] == tail[j]);
        assert(other[other_head.len() + 1 + j] == other_tail[j]);
    }
    assert(tail =~= other_tail);
}

/// The key of a mod in an aggregated collection: the name of its loader,
/// a colon, and the mod's identifier within that loader.
pub open spec fn global_key(loader_id: ModLoaderId, id: Seq<char>) -> Seq<char> {
    colon_joined(loader_name(loader_id), id)
}

/// Two mods have one key only if they have one loader and one identifier:
/// a key stands for the pair.
pub proof fn lemma_global_key_injective(
    loader_id: ModLoaderId,
    id: Seq<char>,
    other_loader_id: ModLoaderId,
    other_id: Seq<char>,
)
    requires
        global_key(loader_id, id) == global_key(other_loader_id, other_id),
    ensures
        loader_id == other_loader_id,
        id == other_id,
{
    lemma_loader_name_round_trip(loader_id);
    lemma_loader_name_round_trip(other_loader_id);
    lemma_colon_joined_injective(
        loader_name(loader_id),
        id,
        loader_name(other_loader_id),
        other_id,
    );
    assert(loader_named(loader_name(loader_id)) == loader_named(loader_name(other_loader_id)));
}

impl CommonModData {
    /// The key of this mod in an aggregated collection.
    pub fn key(&self) -> (r: String)
        ensures
            r@ == global_key(self.loader_id, self.id@),
    {
        let mut key = String::from_str(self.loader_id.name());
        key.append(":");
        key.append(self.id.as_str());
        key
    }
}

} // verus!
