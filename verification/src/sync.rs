//! One aggregation pass: what each sweep makes of the results that the
//! sources gave, which signals go out, and what is written to the store.
use vstd::prelude::*;
use vstd::string::StringExecFns;

use crate::app_state::{update_state, StateData};
use crate::events::{
    emit, views, AppEvent, AppEventView, ErrorRaised, FoundInstalledGame, FoundOwnedGame,
    FoundRemoteGame, SyncLocalMods, SyncModLoaders, SyncRemoteMods,
};
use crate::game_mod::{global_key, lemma_global_key_injective};
use crate::installed_game::InstalledGame;
use crate::local_mod::LocalMod;
use crate::maps::{keys_with_all, KeyedMap};
use crate::mod_loaders::mod_loader::{get_data_map, ModLoader, ModLoaderId};
use crate::owned_game::OwnedGame;
use crate::providers::provider::{provider_name, ProviderId};
use crate::remote_game::RemoteGame;
use crate::remote_mod::RemoteMod;
use crate::result::{message_of, Error};

verus! {

/// A record of a mod: it belongs to one loader, and has an identifier of
/// its own among the mods of that loader.
pub trait Keyed: Sized {
    /// The loader that owns the record.
    spec fn loader_id(&self) -> ModLoaderId;

    /// The record's identifier within its loader.
    spec fn mod_id(&self) -> Seq<char>;

    /// The record's key in an aggregated collection.
    fn key(&self) -> (r: String)
        ensures
            r@ == global_key(self.loader_id(), self.mod_id()),
    ;
}

/// The key of a record in an aggregated collection. It stands for the
/// pair of loader and identifier: two records share a key only if they
/// share both.
pub open spec fn key_of<V: Keyed>(record: V) -> Seq<char> {
    global_key(record.loader_id(), record.mod_id())
}

impl Keyed for LocalMod {
    open spec fn loader_id(&self) -> ModLoaderId {
        self.common.loader_id
    }

    open spec fn mod_id(&self) -> Seq<char> {
        self.common.id@
    }

    fn key(&self) -> (r: String) {
        self.common.key()
    }
}

impl Keyed for RemoteMod {
    open spec fn loader_id(&self) -> ModLoaderId {
        self.common.loader_id
    }

    open spec fn mod_id(&self) -> Seq<char> {
        self.common.id@
    }

    fn key(&self) -> (r: String) {
        self.common.key()
    }
}

/// A map after each of the records was put under its key, in order: of two
/// records with one key the later stays.
pub open spec fn insert_all<V: Keyed>(m: Map<Seq<char>, V>, records: Seq<V>) -> Map<Seq<char>, V>
    decreases records.len(),
{
    if records.len() == 0 {
        m
    } else {
        insert_all(m, records.drop_last()).insert(key_of(records.last()), records.last())
    }
}

/// The keys of a sequence of records, in order.
pub open spec fn record_keys<V: Keyed>(records: Seq<V>) -> Seq<Seq<char>> {
    Seq::new(records.len(), |i: int| key_of(records[i]))
}

/// Letting more keys come in two batches is letting them come in a row.
pub proof fn lemma_keys_with_all_concat(keys: Seq<Seq<char>>, a: Seq<Seq<char>>, b: Seq<Seq<char>>)
    ensures
        keys_with_all(keys_with_all(keys, a), b) == keys_with_all(keys, a + b),
    decreases b.len(),
{
    if b.len() == 0 {
        assert(a + b =~= a);
    } else {
        lemma_keys_with_all_concat(keys, a, b.drop_last());
        assert((a + b).drop_last() =~= a + b.drop_last());
        assert((a + b).last() == b.last());
    }
}

/// The union of what the sources gave: the records of each source that
/// answered, in order; a source that failed adds nothing.
pub open spec fn union_of<V: Keyed>(scans: Seq<Result<Vec<V>, Error>>) -> Map<Seq<char>, V>
    decreases scans.len(),
{
    if scans.len() == 0 {
        Map::empty()
    } else {
        match scans.last() {
            Ok(records) => insert_all(union_of(scans.drop_last()), records@),
            Err(_) => union_of(scans.drop_last()),
        }
    }
}

/// The records of the sources that answered, source by source.
pub open spec fn records_of<V>(scans: Seq<Result<Vec<V>, Error>>) -> Seq<V>
    decreases scans.len(),
{
    if scans.len() == 0 {
        Seq::empty()
    } else {
        match scans.last() {
            Ok(records) => records_of(scans.drop_last()) + records@,
            Err(_) => records_of(scans.drop_last()),
        }
    }
}

/// Whether no two records of a sequence have one key.
pub open spec fn distinct_keys<V: Keyed>(records: Seq<V>) -> bool {
    forall|i: int, j: int|
        0 <= i < j < records.len() ==> key_of(#[trigger] records[i]) != key_of(#[trigger] records[j])
}

/// Inserting one sequence of records and then another is inserting the
/// two in a row.
pub proof fn lemma_insert_all_concat<V: Keyed>(m: Map<Seq<char>, V>, a: Seq<V>, b: Seq<V>)
    ensures
        insert_all(insert_all(m, a), b) == insert_all(m, a + b),
    decreases b.len(),
{
    if b.len() == 0 {
        assert(a + b =~= a);
    } else {
        lemma_insert_all_concat(m, a, b.drop_last());
        assert((a + b).drop_last() =~= a + b.drop_last());
        assert((a + b).last() == b.last());
    }
}

/// The union of the scans is what inserting all their records in order
/// gives.
pub proof fn lemma_union_is_insert_all<V: Keyed>(scans: Seq<Result<Vec<V>, Error>>)
    ensures
        union_of(scans) == insert_all(Map::empty(), records_of(scans)),
    decreases scans.len(),
{
    if scans.len() > 0 {
        lemma_union_is_insert_all(scans.drop_last());
        match scans.last() {
            Ok(records) => {
                lemma_insert_all_concat(
                    Map::empty(),
                    records_of(scans.drop_last()),
                    records@,
                );
            },
            Err(_) => {},
        }
    }
}

/// Whether one of the records has the key.
pub open spec fn has_key<V: Keyed>(records: Seq<V>, k: Seq<char>) -> bool {
    exists|i: int| 0 <= i < records.len() && key_of(#[trigger] records[i]) == k
}

/// What a map holds after records were inserted: its keys are the keys
/// it had and those of the records, and where no two records share a
/// key, each record is the value under its key.
pub proof fn lemma_insert_all_contents<V: Keyed>(m: Map<Seq<char>, V>, records: Seq<V>)
    ensures
        forall|k: Seq<char>| #[trigger]
            insert_all(m, records).contains_key(k) <==> m.contains_key(k) || has_key(records, k),
        distinct_keys(records) ==> forall|i: int|
            0 <= i < records.len() ==> insert_all(m, records)[key_of(#[trigger] records[i])]
                == records[i],
    decreases records.len(),
{
    if records.len() > 0 {
        let init = records.drop_last();
        let last = records.last();
        lemma_insert_all_contents(m, init);
        assert forall|k: Seq<char>| #[trigger]
            insert_all(m, records).contains_key(k) <==> m.contains_key(k) || has_key(
                records,
                k,
            ) by {
            let before = insert_all(m, init).contains_key(k);
            assert(before <==> m.contains_key(k) || has_key(init, k));
            if has_key(init, k) {
                let i = choose|i: int| 0 <= i < init.len() && key_of(#[trigger] init[i]) == k;
                assert(key_of(records[i]) == k);
            }
            if k == key_of(last) {
                assert(key_of(records[records.len() - 1]) == k);
            }
            if has_key(records, k) {
                let i = choose|i: int|
                    0 <= i < records.len() && key_of(#[trigger] records[i]) == k;
                if i < init.len() {
                    assert(key_of(init[i]) == k);
                }
            }
        }
        if distinct_keys(records) {
            assert(distinct_keys(init)) by {
                assert forall|i: int, j: int| 0 <= i < j < init.len() implies key_of(#[trigger] init[i]) != key_of(#[trigger] init[j]) by {
                    assert(key_of(records[i]) != key_of(records[j]));
                }
            }
            assert forall|i: int| 0 <= i < records.len() implies insert_all(m, records)[key_of(#[trigger] records[i])] == records[i] by {
                if i < init.len() {
                    assert(init[i] == records[i]);
                    assert(key_of(records[i]) != key_of(records[records.len() - 1]));
                }
            }
        }
    }
}

/// A collection that was united from the scans of one pass holds a key
/// exactly where a source that answered in that pass listed a record
/// under it: nothing of any earlier collection is in it, and nothing that
/// was listed is missing.
pub proof fn lemma_union_is_whole<V: Keyed>(scans: Seq<Result<Vec<V>, Error>>)
    ensures
        forall|k: Seq<char>| #[trigger]
            union_of(scans).contains_key(k) <==> has_key(records_of(scans), k),
{
    lemma_union_is_insert_all(scans);
    lemma_insert_all_contents(Map::<Seq<char>, V>::empty(), records_of(scans));
}

/// Whether no two records of a sequence have both one loader and one
/// identifier.
pub open spec fn distinct_mods<V: Keyed>(records: Seq<V>) -> bool {
    forall|i: int, j: int|
        0 <= i < j < records.len() ==> (#[trigger] records[i]).loader_id() != (
        #[trigger] records[j]).loader_id() || records[i].mod_id() != records[j].mod_id()
}

/// Records that differ in loader or identifier differ in their keys.
pub proof fn lemma_distinct_mods_have_distinct_keys<V: Keyed>(records: Seq<V>)
    requires
        distinct_mods(records),
    ensures
        distinct_keys(records),
{
    assert forall|i: int, j: int| 0 <= i < j < records.len() implies key_of(
        #[trigger] records[i],
    ) != key_of(#[trigger] records[j]) by {
        if key_of(records[i]) == key_of(records[j]) {
            lemma_global_key_injective(
                records[i].loader_id(),
                records[i].mod_id(),
                records[j].loader_id(),
                records[j].mod_id(),
            );
        }
    }
}

/// A map into which records with distinct keys were inserted, starting
/// from nothing, has one entry for each record.
pub proof fn lemma_insert_all_len<V: Keyed>(records: Seq<V>)
    requires
        distinct_keys(records),
    ensures
        insert_all(Map::<Seq<char>, V>::empty(), records).dom().finite(),
        insert_all(Map::<Seq<char>, V>::empty(), records).len() == records.len(),
    decreases records.len(),
{
    if records.len() > 0 {
        let init = records.drop_last();
        assert(distinct_keys(init)) by {
            assert forall|i: int, j: int| 0 <= i < j < init.len() implies key_of(
                #[trigger] init[i],
            ) != key_of(#[trigger] init[j]) by {
                assert(key_of(records[i]) != key_of(records[j]));
            }
        }
        lemma_insert_all_len(init);
        lemma_insert_all_contents(Map::<Seq<char>, V>::empty(), init);
        let before = insert_all(Map::<Seq<char>, V>::empty(), init);
        let key = key_of(records.last());
        if before.contains_key(key) {
            let i = choose|i: int| 0 <= i < init.len() && key_of(#[trigger] init[i]) == key;
            assert(key_of(records[i]) != key_of(records[records.len() - 1]));
        }
    }
}

/// Whether a collection holds each of the records under its key, and
/// nothing else.
pub open spec fn holds_each<V: Keyed>(m: Map<Seq<char>, V>, records: Seq<V>) -> bool {
    &&& m.dom().finite()
    &&& m.len() == records.len()
    &&& forall|i: int|
        0 <= i < records.len() ==> m.contains_key(key_of(#[trigger] records[i])) && m[key_of(
            records[i],
        )] == records[i]
}

/// Where no two mods of a pass share loader and identifier, the union
/// holds every record that was listed, each under its key, and its size
/// is the number of records: no record overwrites another.
pub proof fn lemma_union_holds_each<V: Keyed>(scans: Seq<Result<Vec<V>, Error>>)
    requires
        distinct_mods(records_of(scans)),
    ensures
        holds_each(union_of(scans), records_of(scans)),
{
    let records = records_of(scans);
    lemma_distinct_mods_have_distinct_keys(records);
    lemma_union_is_insert_all(scans);
    lemma_insert_all_contents(Map::<Seq<char>, V>::empty(), records);
    lemma_insert_all_len(records);
    assert forall|i: int| 0 <= i < records.len() implies union_of(scans).contains_key(
        key_of(#[trigger] records[i]),
    ) by {
        assert(has_key(records, key_of(records[i])));
    }
}

/// What a collection says, value by value.
pub open spec fn deep<V: View>(m: Map<Seq<char>, V>) -> Map<Seq<char>, V::V> {
    Map::new(|k: Seq<char>| m.contains_key(k), |k: Seq<char>| m[k]@)
}

/// Whether two sequences hold the same values, in whatever order.
pub open spec fn same_records<V: View>(a: Seq<V>, b: Seq<V>) -> bool {
    &&& forall|i: int| 0 <= i < a.len() ==> exists|j: int| 0 <= j < b.len() && b[j]@ == (#[trigger] a[i])@
    &&& forall|j: int| 0 <= j < b.len() ==> exists|i: int| 0 <= i < a.len() && a[i]@ == (#[trigger] b[j])@
}

/// Two passes that found the same records give collections that say the
/// same, whatever the order of the sources and of the records of each.
proof fn lemma_order_irrelevant<V: Keyed + View>(
    first: Seq<Result<Vec<V>, Error>>,
    second: Seq<Result<Vec<V>, Error>>,
)
    requires
        forall|x: V, y: V| same_value(x, y) ==> x.loader_id() == y.loader_id() && x.mod_id() == y.mod_id(),
        distinct_mods(records_of(first)),
        distinct_mods(records_of(second)),
        same_records(records_of(first), records_of(second)),
    ensures
        deep(union_of(first)) == deep(union_of(second)),
{
    let a = records_of(first);
    let b = records_of(second);
    lemma_union_holds_each(first);
    lemma_union_holds_each(second);
    lemma_union_is_whole(first);
    lemma_union_is_whole(second);
    let ma = union_of(first);
    let mb = union_of(second);
    assert forall|k: Seq<char>| #[trigger] ma.contains_key(k) implies mb.contains_key(k) && ma[k]@
        == mb[k]@ by {
        assert(has_key(a, k));
        let i = choose|i: int| 0 <= i < a.len() && key_of(#[trigger] a[i]) == k;
        let j = choose|j: int| 0 <= j < b.len() && b[j]@ == a[i]@;
        assert(same_value(b[j], a[i]));
        assert(key_of(b[j]) == k);
    }
    assert forall|k: Seq<char>| #[trigger] mb.contains_key(k) implies ma.contains_key(k) by {
        assert(has_key(b, k));
        let j = choose|j: int| 0 <= j < b.len() && key_of(#[trigger] b[j]) == k;
        let i = choose|i: int| 0 <= i < a.len() && a[i]@ == b[j]@;
        assert(same_value(a[i], b[j]));
        assert(key_of(a[i]) == k);
    }
    assert(deep(ma) =~= deep(mb));
}

/// Whether two records say the same.
pub open spec fn same_value<V: View>(x: V, y: V) -> bool {
    x@ == y@
}

/// Scanning the same mods twice gives collections of local mods that say
/// the same, whatever the order in which the loaders answered and in
/// which each of them listed its mods. All that is asked of a pass is
/// that no two of its mods have both one loader and one identifier.
pub proof fn lemma_scan_order_irrelevant(
    first: Seq<Result<Vec<LocalMod>, Error>>,
    second: Seq<Result<Vec<LocalMod>, Error>>,
)
    requires
        distinct_mods(records_of(first)),
        distinct_mods(records_of(second)),
        same_records(records_of(first), records_of(second)),
    ensures
        deep(union_of(first)) == deep(union_of(second)),
{
    lemma_order_irrelevant(first, second);
}

/// Fetching the same catalogues twice gives collections of remote mods
/// that say the same, whatever the order in which the loaders answered.
pub proof fn lemma_fetch_order_irrelevant(
    first: Seq<Result<Vec<RemoteMod>, Error>>,
    second: Seq<Result<Vec<RemoteMod>, Error>>,
)
    requires
        distinct_mods(records_of(first)),
        distinct_mods(records_of(second)),
        same_records(records_of(first), records_of(second)),
    ensures
        deep(union_of(first)) == deep(union_of(second)),
{
    lemma_order_irrelevant(first, second);
}

/// The line that reports a failure: what was being done, then the error.
pub open spec fn failure_line(context: Seq<char>, e: crate::result::ErrorView) -> Seq<char> {
    context + ": "@ + message_of(e)
}

/// The signals for the error of one source. A source that does not
/// offer what was asked of it is passed over in silence: asking was a
/// probe. Any other error is one error signal.
pub open spec fn reported(context: Seq<char>, e: crate::result::ErrorView) -> Seq<AppEventView> {
    match e {
        crate::result::ErrorView::CapabilityNotSupported(_, _) => Seq::empty(),
        _ => seq![AppEventView::ErrorRaised(failure_line(context, e))],
    }
}

/// The signals for the sources that failed, in order.
pub open spec fn failures<T>(context: Seq<char>, scans: Seq<Result<T, Error>>) -> Seq<
    AppEventView,
>
    decreases scans.len(),
{
    if scans.len() == 0 {
        Seq::empty()
    } else {
        match scans.last() {
            Ok(_) => failures(context, scans.drop_last()),
            Err(e) => failures(context, scans.drop_last()) + reported(context, e@),
        }
    }
}

/// Tells the observer of a failure.
pub fn report_failure(context: &str, error: &Error, outbox: &mut Vec<AppEvent>)
    ensures
        views(final(outbox)@) == views(old(outbox)@).push(
            AppEventView::ErrorRaised(failure_line(context@, error@)),
        ),
{
    let mut line = String::from_str(context);
    line.append(": ");
    let message = error.message();
    line.append(message.as_str());
    emit(outbox, AppEvent::ErrorRaised(ErrorRaised(line)));
}

/// Tells the observer of the error of a source, unless the source only
/// lacks what was asked of it.
pub fn report_scan_error(context: &str, error: &Error, outbox: &mut Vec<AppEvent>)
    ensures
        views(final(outbox)@) == views(old(outbox)@) + reported(context@, error@),
{
    match error {
        Error::CapabilityNotSupported(_, _) => {
            assert(views(outbox@) + reported(context@, error@) =~= views(outbox@));
        },
        _ => {
            report_failure(context, error, outbox);
            assert(views(old(outbox)@).push(
                AppEventView::ErrorRaised(failure_line(context@, error@)),
            ) =~= views(old(outbox)@) + reported(context@, error@));
        },
    }
}

/// Puts each record under its key.
pub fn insert_records<V: Keyed>(map: &mut KeyedMap<V>, records: Vec<V>)
    ensures
        final(map)@ == insert_all(old(map)@, records@),
        final(map).keys() == keys_with_all(old(map).keys(), record_keys(records@)),
{
    let ghost start = map@;
    let ghost start_keys = map.keys();
    let ghost all = records@;
    assert(record_keys(all.take(0)) =~= Seq::<Seq<char>>::empty());
    for record in it: records
        invariant
            it.seq() == all,
            map@ == insert_all(start, all.take(it.index() as int)),
            map.keys() == keys_with_all(start_keys, record_keys(all.take(it.index() as int))),
    {
        proof {
            let i = it.index() as int;
            assert(all.take(i + 1).drop_last() =~= all.take(i));
            assert(record_keys(all.take(i + 1)).drop_last() =~= record_keys(all.take(i)));
            assert(record_keys(all.take(i + 1)).last() == key_of(record));
        }
        let key = record.key();
        map.insert(key, record);
    }
    assert(all.take(all.len() as int) =~= all);
}

/// Unites what the sources gave into one collection and reports each
/// failure, so that a source that failed holds back no other.
pub fn collect_scans<V: Keyed>(
    context: &str,
    scans: Vec<Result<Vec<V>, Error>>,
    outbox: &mut Vec<AppEvent>,
) -> (r: KeyedMap<V>)
    ensures
        r@ == union_of(scans@),
        r.keys() == keys_with_all(Seq::empty(), record_keys(records_of(scans@))),
        forall|k: Seq<char>| #[trigger] r@.contains_key(k) <==> has_key(records_of(scans@), k),
        distinct_mods(records_of(scans@)) ==> holds_each(r@, records_of(scans@)),
        views(final(outbox)@) == views(old(outbox)@) + failures(context@, scans@),
{
    let mut map: KeyedMap<V> = KeyedMap::new();
    let ghost all = scans@;
    let ghost sent = views(outbox@);
    assert(sent + failures(context@, all.take(0)) =~= sent);
    assert(record_keys(records_of(all.take(0))) =~= Seq::<Seq<char>>::empty());
    for scan in it: scans
        invariant
            it.seq() == all,
            map@ == union_of(all.take(it.index() as int)),
            map.keys() == keys_with_all(
                Seq::empty(),
                record_keys(records_of(all.take(it.index() as int))),
            ),
            views(outbox@) == sent + failures(context@, all.take(it.index() as int)),
    {
        proof {
            let i = it.index() as int;
            assert(all.take(i + 1).drop_last() =~= all.take(i));
        }
        match scan {
            Ok(records) => {
                proof {
                    let i = it.index() as int;
                    let before = records_of(all.take(i));
                    lemma_keys_with_all_concat(
                        Seq::empty(),
                        record_keys(before),
                        record_keys(records@),
                    );
                    assert(record_keys(before) + record_keys(records@) =~= record_keys(
                        before + records@,
                    ));
                }
                insert_records(&mut map, records);
            },
            Err(error) => {
                report_scan_error(context, &error, outbox);
                proof {
                    let i = it.index() as int;
                    assert((sent + failures(context@, all.take(i))) + reported(context@, error@)
                        =~= sent + failures(context@, all.take(i + 1)));
                }
            },
        }
    }
    proof {
        assert(all.take(all.len() as int) =~= all);
        lemma_union_is_whole(all);
        if distinct_mods(records_of(all)) {
            lemma_union_holds_each(all);
        }
    }
    map
}

/// What is being done when the local mods are listed.
pub open spec fn local_mods_context() -> Seq<char> {
    "Failed to get local mods"@
}

/// What is being done when the remote catalogues are fetched.
pub open spec fn remote_mods_context() -> Seq<char> {
    "Failed to get remote mods"@
}

/// Takes what every loader found on disk, replaces the local mods of the
/// store by the union as a whole, and sends one signal that carries it,
/// after one error signal for each loader that failed. Where no two of
/// the mods share loader and identifier, the union holds each of them.
pub fn refresh_local_mods(
    scans: Vec<Result<Vec<LocalMod>, Error>>,
    state: &mut StateData<KeyedMap<LocalMod>>,
    outbox: &mut Vec<AppEvent>,
) -> (r: KeyedMap<LocalMod>)
    ensures
        r@ == union_of(scans@),
        r.keys() == keys_with_all(Seq::empty(), record_keys(records_of(scans@))),
        forall|k: Seq<char>| #[trigger] r@.contains_key(k) <==> has_key(records_of(scans@), k),
        distinct_mods(records_of(scans@)) ==> holds_each(r@, records_of(scans@)),
        final(state).slot() == old(state).slot(),
        final(state).data() is Some,
        final(state).data()->Some_0@ == union_of(scans@),
        final(state).data()->Some_0.keys() == r.keys(),
        views(final(outbox)@) == (views(old(outbox)@) + failures(
            local_mods_context(),
            scans@,
        )).push(AppEventView::SyncLocalMods(union_of(scans@))),
{
    let local_mods = collect_scans("Failed to get local mods", scans, outbox);
    let for_event = local_mods.clone();
    let for_state = local_mods.clone();
    assert(for_event@ =~= local_mods@);
    assert(for_state@ =~= local_mods@);
    update_state(AppEvent::SyncLocalMods(SyncLocalMods(for_event)), for_state, state, outbox);
    local_mods
}

/// Takes what every loader's remote catalogue gave, replaces the remote
/// mods of the store by the union as a whole, and sends one signal that
/// carries it, after one error signal for each loader that failed. Where
/// no two of the mods share loader and identifier, the union holds each
/// of them.
pub fn refresh_remote_mods(
    scans: Vec<Result<Vec<RemoteMod>, Error>>,
    state: &mut StateData<KeyedMap<RemoteMod>>,
    outbox: &mut Vec<AppEvent>,
) -> (r: KeyedMap<RemoteMod>)
    ensures
        r@ == union_of(scans@),
        r.keys() == keys_with_all(Seq::empty(), record_keys(records_of(scans@))),
        forall|k: Seq<char>| #[trigger] r@.contains_key(k) <==> has_key(records_of(scans@), k),
        distinct_mods(records_of(scans@)) ==> holds_each(r@, records_of(scans@)),
        final(state).slot() == old(state).slot(),
        final(state).data() is Some,
        final(state).data()->Some_0@ == union_of(scans@),
        final(state).data()->Some_0.keys() == r.keys(),
        views(final(outbox)@) == (views(old(outbox)@) + failures(
            remote_mods_context(),
            scans@,
        )).push(AppEventView::SyncRemoteMods(union_of(scans@))),
{
    let remote_mods = collect_scans("Failed to get remote mods", scans, outbox);
    let for_event = remote_mods.clone();
    let for_state = remote_mods.clone();
    assert(for_event@ =~= remote_mods@);
    assert(for_state@ =~= remote_mods@);
    update_state(AppEvent::SyncRemoteMods(SyncRemoteMods(for_event)), for_state, state, outbox);
    remote_mods
}

/// Puts the registry of loaders into the store and sends its descriptors
/// to the observer.
pub fn update_mod_loaders(
    mod_loaders: KeyedMap<ModLoader>,
    state: &mut StateData<KeyedMap<ModLoader>>,
    outbox: &mut Vec<AppEvent>,
)
    ensures
        final(state).slot() == old(state).slot(),
        final(state).data() == Some(mod_loaders),
        final(outbox)@.len() == old(outbox)@.len() + 1,
        views(final(outbox)@).drop_last() == views(old(outbox)@),
        match views(final(outbox)@).last() {
            AppEventView::SyncModLoaders(sent) => sent.dom() == mod_loaders@.dom() && forall|
                k: Seq<char>,
            | #[trigger] sent.contains_key(k) ==> sent[k] == mod_loaders@[k].data,
            _ => false,
        },
{
    let data_map = get_data_map(&mod_loaders);
    let ghost sent = data_map@;
    update_state(AppEvent::SyncModLoaders(SyncModLoaders(data_map)), mod_loaders, state, outbox);
    assert(views(outbox@).drop_last() =~= views(old(outbox)@));
}

/// Something that a provider found and that the observer is told of at
/// once.
pub trait Discovered: Sized {
    /// The signal that reports the item.
    spec fn found(&self) -> AppEventView;

    fn into_event(self) -> (r: AppEvent)
        ensures
            r@ == self.found(),
    ;
}

impl Discovered for InstalledGame {
    open spec fn found(&self) -> AppEventView {
        AppEventView::FoundInstalledGame(self@)
    }

    fn into_event(self) -> (r: AppEvent) {
        AppEvent::FoundInstalledGame(FoundInstalledGame(self))
    }
}

impl Discovered for OwnedGame {
    open spec fn found(&self) -> AppEventView {
        AppEventView::FoundOwnedGame(self@)
    }

    fn into_event(self) -> (r: AppEvent) {
        AppEvent::FoundOwnedGame(FoundOwnedGame(self))
    }
}

impl Discovered for RemoteGame {
    open spec fn found(&self) -> AppEventView {
        AppEventView::FoundRemoteGame(self@)
    }

    fn into_event(self) -> (r: AppEvent) {
        AppEvent::FoundRemoteGame(FoundRemoteGame(self))
    }
}

/// One signal for each item, in order.
pub open spec fn found_all<G: Discovered>(items: Seq<G>) -> Seq<AppEventView> {
    Seq::new(items.len(), |i: int| items[i].found())
}

/// What is being done for a provider: the task, then the provider's name
/// in brackets.
pub open spec fn provider_context(task: Seq<char>, provider_id: ProviderId) -> Seq<char> {
    task + " ("@ + provider_name(provider_id) + ")"@
}

/// The signals for what one provider gave: its items, or its failure. A
/// provider that does not offer the sweep's operation gives none.
pub open spec fn provider_report<G: Discovered>(
    task: Seq<char>,
    scan: (ProviderId, Result<Vec<G>, Error>),
) -> Seq<AppEventView> {
    match scan.1 {
        Ok(items) => found_all(items@),
        Err(e) => reported(provider_context(task, scan.0), e@),
    }
}

/// The signals of a sweep over all providers, provider by provider.
pub open spec fn sweep_report<G: Discovered>(
    task: Seq<char>,
    scans: Seq<(ProviderId, Result<Vec<G>, Error>)>,
) -> Seq<AppEventView>
    decreases scans.len(),
{
    if scans.len() == 0 {
        Seq::empty()
    } else {
        sweep_report(task, scans.drop_last()) + provider_report(task, scans.last())
    }
}

/// Sends what one provider found, item by item, or reports its failure.
pub fn report_provider<G: Discovered>(
    task: &str,
    provider_id: ProviderId,
    scan: Result<Vec<G>, Error>,
    outbox: &mut Vec<AppEvent>,
)
    ensures
        views(final(outbox)@) == views(old(outbox)@) + provider_report(
            task@,
            (provider_id, scan),
        ),
{
    let ghost sent = views(outbox@);
    match scan {
        Ok(items) => {
            let ghost all = items@;
            assert(sent + found_all(all.take(0)) =~= sent);
            for item in it: items
                invariant
                    it.seq() == all,
                    views(outbox@) == sent + found_all(all.take(it.index() as int)),
            {
                proof {
                    let i = it.index() as int;
                    assert((sent + found_all(all.take(i))).push(item.found()) =~= sent
                        + found_all(all.take(i + 1)));
                }
                emit(outbox, item.into_event());
            }
            assert(all.take(all.len() as int) =~= all);
        },
        Err(error) => {
            let mut context = String::from_str(task);
            context.append(" (");
            context.append(provider_id.name());
            context.append(")");
            report_scan_error(context.as_str(), &error, outbox);
        },
    }
}

/// Sends what every provider gave, provider by provider: the failure of
/// one holds back no other.
pub fn sweep<G: Discovered>(
    task: &str,
    scans: Vec<(ProviderId, Result<Vec<G>, Error>)>,
    outbox: &mut Vec<AppEvent>,
)
    ensures
        views(final(outbox)@) == views(old(outbox)@) + sweep_report(task@, scans@),
{
    let ghost sent = views(outbox@);
    let ghost all = scans@;
    assert(sent + sweep_report(task@, all.take(0)) =~= sent);
    for scan in it: scans
        invariant
            it.seq() == all,
            views(outbox@) == sent + sweep_report(task@, all.take(it.index() as int)),
    {
        proof {
            let i = it.index() as int;
            assert(all.take(i + 1).drop_last() =~= all.take(i));
            assert((sent + sweep_report(task@, all.take(i))) + provider_report(task@, scan)
                =~= sent + sweep_report(task@, all.take(i + 1)));
        }
        report_provider(task, scan.0, scan.1, outbox);
    }
    assert(all.take(all.len() as int) =~= all);
}

/// What is being done in the sweep for installed games.
pub open spec fn installed_games_task() -> Seq<char> {
    "Error getting installed games for provider"@
}

/// What is being done in the sweep for owned games.
pub open spec fn owned_games_task() -> Seq<char> {
    "Failed to get owned games for provider"@
}

/// What is being done in the sweep for remote games.
pub open spec fn remote_games_task() -> Seq<char> {
    "Failed to get remote games for provider"@
}

/// The sweep for installed games.
pub fn update_installed_games(
    scans: Vec<(ProviderId, Result<Vec<InstalledGame>, Error>)>,
    outbox: &mut Vec<AppEvent>,
)
    ensures
        views(final(outbox)@) == views(old(outbox)@) + sweep_report(
            installed_games_task(),
            scans@,
        ),
{
    sweep("Error getting installed games for provider", scans, outbox)
}

/// The sweep for owned games.
pub fn update_owned_games(
    scans: Vec<(ProviderId, Result<Vec<OwnedGame>, Error>)>,
    outbox: &mut Vec<AppEvent>,
)
    ensures
        views(final(outbox)@) == views(old(outbox)@) + sweep_report(owned_games_task(), scans@),
{
    sweep("Failed to get owned games for provider", scans, outbox)
}

/// The sweep for remote games.
pub fn update_remote_games(
    scans: Vec<(ProviderId, Result<Vec<RemoteGame>, Error>)>,
    outbox: &mut Vec<AppEvent>,
)
    ensures
        views(final(outbox)@) == views(old(outbox)@) + sweep_report(
            remote_games_task(),
            scans@,
        ),
{
    sweep("Failed to get remote games for provider", scans, outbox)
}

} // verus!
