//! A map from text keys to values that remembers the order in which its
//! keys first came, and lookups that fail with a structured error.
use vstd::prelude::*;
use vstd::string::StringExecFns;

use crate::paths::str_eq;
use crate::result::{Error, ErrorView};

verus! {

/// The keys of a sequence of entries, in order.
spec fn key_seq<V>(s: Seq<(String, V)>) -> Seq<Seq<char>> {
    Seq::new(s.len(), |i: int| s[i].0@)
}

/// A sequence of keys after one more key came: a key that is there
/// keeps its place, a new one goes to the end.
pub open spec fn keys_with(keys: Seq<Seq<char>>, key: Seq<char>) -> Seq<Seq<char>> {
    if keys.contains(key) {
        keys
    } else {
        keys.push(key)
    }
}

/// A sequence of keys after each of some more keys came, in order.
pub open spec fn keys_with_all(keys: Seq<Seq<char>>, more: Seq<Seq<char>>) -> Seq<Seq<char>>
    decreases more.len(),
{
    if more.len() == 0 {
        keys
    } else {
        keys_with(keys_with_all(keys, more.drop_last()), more.last())
    }
}

/// The map that a sequence of entries with distinct keys stands for.
spec fn map_of<V>(s: Seq<(String, V)>) -> Map<Seq<char>, V> {
    Map::new(
        |k: Seq<char>| key_seq(s).contains(k),
        |k: Seq<char>| s[key_seq(s).index_of(k)].1,
    )
}

/// In a sequence with distinct keys, each entry is what the map holds
/// under its key.
proof fn lemma_entry_in_map<V>(s: Seq<(String, V)>, i: int)
    requires
        key_seq(s).no_duplicates(),
        0 <= i < s.len(),
    ensures
        map_of(s).contains_key(s[i].0@),
        map_of(s)[s[i].0@] == s[i].1,
{
    let ks = key_seq(s);
    assert(ks[i] == s[i].0@);
    let j = ks.index_of(s[i].0@);
    assert(0 <= j < ks.len() && ks[j] == s[i].0@);
}

/// A key of the map is the key of one of the entries.
proof fn lemma_key_has_entry<V>(s: Seq<(String, V)>, k: Seq<char>) -> (i: int)
    requires
        map_of(s).contains_key(k),
    ensures
        0 <= i < s.len(),
        s[i].0@ == k,
        map_of(s)[k] == s[i].1,
{
    let ks = key_seq(s);
    let i = ks.index_of(k);
    assert(0 <= i < ks.len() && ks[i] == k);
    i
}

/// The map of a sequence with distinct keys is finite and has one key per
/// entry.
proof fn lemma_map_len<V>(s: Seq<(String, V)>)
    requires
        key_seq(s).no_duplicates(),
    ensures
        map_of(s).dom().finite(),
        map_of(s).dom().len() == s.len(),
{
    let ks = key_seq(s);
    ks.unique_seq_to_set();
    assert(map_of(s).dom() =~= ks.to_set());
}

/// Taking one more entry of a sequence with distinct keys is an insertion
/// into the map of the entries taken before.
proof fn lemma_take_next<V>(s: Seq<(String, V)>, i: int)
    requires
        key_seq(s).no_duplicates(),
        0 <= i < s.len(),
    ensures
        key_seq(s.take(i)).no_duplicates(),
        key_seq(s.take(i + 1)).no_duplicates(),
        map_of(s.take(i + 1)) == map_of(s.take(i)).insert(s[i].0@, s[i].1),
{
    let a = s.take(i);
    let b = s.take(i + 1);
    assert forall|x: int, y: int| 0 <= x < y < b.len() implies key_seq(b)[x] != key_seq(b)[y] by {
        assert(key_seq(s)[x] == key_seq(b)[x]);
        assert(key_seq(s)[y] == key_seq(b)[y]);
    }
    assert forall|x: int, y: int| 0 <= x < y < a.len() implies key_seq(a)[x] != key_seq(a)[y] by {
        assert(key_seq(b)[x] == key_seq(a)[x]);
        assert(key_seq(b)[y] == key_seq(a)[y]);
    }
    let m = map_of(a).insert(s[i].0@, s[i].1);
    assert forall|k: Seq<char>| #[trigger] map_of(b).contains_key(k) implies m.contains_key(k)
        && map_of(b)[k] == m[k] by {
        let j = lemma_key_has_entry(b, k);
        if j < i {
            assert(key_seq(a)[j] == k);
            lemma_entry_in_map(a, j);
            assert(key_seq(b)[j] == k);
            assert(key_seq(b)[i] == s[i].0@);
        }
    }
    assert forall|k: Seq<char>| m.contains_key(k) implies #[trigger] map_of(b).contains_key(k) by {
        if k == s[i].0@ {
            assert(key_seq(b)[i] == k);
        } else {
            let j = lemma_key_has_entry(a, k);
            assert(key_seq(b)[j] == k);
        }
    }
    assert(map_of(b) =~= m);
}

/// A map from text keys to values. No key occurs twice, and the keys keep
/// the order in which they first came.
#[derive(Debug)]
pub struct KeyedMap<V> {
    entries: Vec<(String, V)>,
}

impl<V> View for KeyedMap<V> {
    type V = Map<Seq<char>, V>;

    closed spec fn view(&self) -> Map<Seq<char>, V> {
        map_of(self.entries@)
    }
}

/// Lookups that fail with [`Error::DataEntryNotFound`].
pub trait TryGettable<V> {
    /// What the collection holds under each key.
    spec fn contents(&self) -> Map<Seq<char>, V>;

    /// The value under `key`, or the error that names the key.
    fn try_get(&self, key: &str) -> (r: Result<&V, Error>)
        ensures
            match r {
                Ok(v) => self.contents().contains_key(key@) && *v == self.contents()[key@],
                Err(e) => !self.contents().contains_key(key@) && e@
                    == ErrorView::DataEntryNotFound(key@),
            },
    ;
}

impl<V> KeyedMap<V> {
    #[verifier::type_invariant]
    spec fn distinct_keys(&self) -> bool {
        key_seq(self.entries@).no_duplicates()
    }

    /// The keys in the order in which they first came.
    pub closed spec fn keys(&self) -> Seq<Seq<char>> {
        key_seq(self.entries@)
    }

    pub fn new() -> (r: Self)
        ensures
            r@ == Map::<Seq<char>, V>::empty(),
            r.keys() == Seq::<Seq<char>>::empty(),
    {
        let r = KeyedMap { entries: Vec::new() };
        assert(r@ =~= Map::<Seq<char>, V>::empty());
        assert(r.keys() =~= Seq::<Seq<char>>::empty());
        r
    }

    /// The number of keys. The keys are distinct, and they are the keys of
    /// the view.
    pub fn len(&self) -> (r: usize)
        ensures
            r == self@.len(),
            r == self.keys().len(),
            self@.dom().finite(),
            self.keys().no_duplicates(),
            forall|k: Seq<char>| self.keys().contains(k) <==> #[trigger] self@.contains_key(k),
    {
        proof {
            use_type_invariant(self);
            lemma_map_len(self.entries@);
        }
        self.entries.len()
    }

    pub fn is_empty(&self) -> (r: bool)
        ensures
            r == (self@.len() == 0),
            r == (self@ == Map::<Seq<char>, V>::empty()),
    {
        proof {
            use_type_invariant(self);
            lemma_map_len(self.entries@);
            if self.entries@.len() == 0 {
                assert(self@ =~= Map::<Seq<char>, V>::empty());
            }
        }
        self.entries.len() == 0
    }

    /// The place of `key` among the entries, if it has one.
    fn position(&self, key: &str) -> (r: Option<usize>)
        ensures
            match r {
                Some(i) => i < self.entries.len() && self.entries[i as int].0@ == key@,
                None => !key_seq(self.entries@).contains(key@),
            },
    {
        let mut i: usize = 0;
        while i < self.entries.len()
            invariant
                i <= self.entries.len(),
                forall|j: int| 0 <= j < i ==> self.entries[j].0@ != key@,
            decreases self.entries.len() - i,
        {
            if str_eq(self.entries[i].0.as_str(), key) {
                return Some(i);
            }
            i += 1;
        }
        None
    }

    pub fn contains_key(&self, key: &str) -> (r: bool)
        ensures
            r == self@.contains_key(key@),
    {
        match self.position(key) {
            Some(i) => {
                assert(key_seq(self.entries@)[i as int] == key@);
                true
            },
            None => false,
        }
    }

    pub fn get(&self, key: &str) -> (r: Option<&V>)
        ensures
            match r {
                Some(v) => self@.contains_key(key@) && *v == self@[key@],
                None => !self@.contains_key(key@),
            },
    {
        match self.position(key) {
            Some(i) => {
                proof {
                    use_type_invariant(self);
                    lemma_entry_in_map(self.entries@, i as int);
                }
                Some(&self.entries[i].1)
            },
            None => None,
        }
    }

    /// The key at a place in the order of first arrival.
    pub fn key_at(&self, i: usize) -> (r: &String)
        requires
            i < self.keys().len(),
        ensures
            r@ == self.keys()[i as int],
    {
        &self.entries[i].0
    }

    /// The value at a place in the order of first arrival.
    pub fn value_at(&self, i: usize) -> (r: &V)
        requires
            i < self.keys().len(),
        ensures
            self@.contains_key(self.keys()[i as int]),
            *r == self@[self.keys()[i as int]],
    {
        proof {
            use_type_invariant(self);
            lemma_entry_in_map(self.entries@, i as int);
        }
        &self.entries[i].1
    }

    /// Puts `value` under `key`. A key that is already there keeps its
    /// place and gets the new value; a new key goes to the end.
    pub fn insert(&mut self, key: String, value: V)
        ensures
            final(self)@ == old(self)@.insert(key@, value),
            final(self).keys() == keys_with(old(self).keys(), key@),
    {
        proof {
            use_type_invariant(&*self);
        }
        let ghost before = self.entries@;
        let found = self.position(key.as_str());
        let mut entries: Vec<(String, V)> = Vec::new();
        core::mem::swap(&mut self.entries, &mut entries);
        match found {
            Some(i) => {
                entries.set(i, (key, value));
                proof {
                    let after = entries@;
                    assert(key_seq(after) =~= key_seq(before));
                    assert(key_seq(before)[i as int] == key@);
                    assert(map_of(before).contains_key(key@));
                    assert(map_of(after).dom() =~= map_of(before).insert(key@, value).dom());
                    assert forall|k: Seq<char>| #[trigger]
                        map_of(after).contains_key(k) implies map_of(after)[k] == map_of(
                        before,
                    ).insert(key@, value)[k] by {
                        let j = lemma_key_has_entry(after, k);
                        if j != i as int {
                            assert(key_seq(before)[j] == k);
                            assert(key_seq(before)[i as int] == key@);
                            lemma_entry_in_map(before, j);
                        }
                    }
                    assert(map_of(after) =~= map_of(before).insert(key@, value));
                }
            },
            None => {
                entries.push((key, value));
                proof {
                    let after = entries@;
                    assert(key_seq(after) =~= key_seq(before).push(key@));
                    assert forall|k: Seq<char>| #[trigger]
                        map_of(after).contains_key(k) implies map_of(after)[k] == map_of(
                        before,
                    ).insert(key@, value)[k] by {
                        let j = lemma_key_has_entry(after, k);
                        if j < before.len() {
                            assert(key_seq(before)[j] == k);
                            lemma_entry_in_map(before, j);
                        }
                    }
                    assert forall|k: Seq<char>|
                        map_of(before).insert(key@, value).contains_key(
                            k,
                        ) implies #[trigger] map_of(after).contains_key(k) by {
                        if k == key@ {
                            assert(key_seq(after)[before.len() as int] == k);
                        } else {
                            let j = lemma_key_has_entry(before, k);
                            assert(key_seq(after)[j] == k);
                        }
                    }
                    assert(map_of(after) =~= map_of(before).insert(key@, value));
                }
            },
        }
        core::mem::swap(&mut self.entries, &mut entries);
    }
}

impl<V> KeyedMap<V> {
    /// Takes over every entry of `other`; where both hold a key, the value
    /// of `other` stays.
    pub fn extend(&mut self, other: KeyedMap<V>)
        ensures
            final(self)@ == old(self)@.union_prefer_right(other@),
            final(self).keys() == keys_with_all(old(self).keys(), other.keys()),
    {
        proof {
            use_type_invariant(&other);
        }
        let ghost incoming = other.entries@;
        let ghost start = self@;
        let ghost start_keys = self.keys();
        let rest = other.entries;
        assert(map_of(incoming.take(0)) =~= Map::<Seq<char>, V>::empty());
        assert(start.union_prefer_right(Map::<Seq<char>, V>::empty()) =~= start);
        assert(key_seq(incoming.take(0)) =~= Seq::<Seq<char>>::empty());
        for entry in it: rest
            invariant
                it.seq() == incoming,
                key_seq(incoming).no_duplicates(),
                self@ == start.union_prefer_right(map_of(incoming.take(it.index() as int))),
                self.keys() == keys_with_all(
                    start_keys,
                    key_seq(incoming.take(it.index() as int)),
                ),
        {
            proof {
                let i = it.index() as int;
                lemma_take_next(incoming, i);
                assert(key_seq(incoming.take(i + 1)).drop_last() =~= key_seq(incoming.take(i)));
                assert(key_seq(incoming.take(i + 1)).last() == entry.0@);
                assert(start.union_prefer_right(map_of(incoming.take(i))).insert(
                    entry.0@,
                    entry.1,
                ) =~= start.union_prefer_right(map_of(incoming.take(i + 1))));
            }
            self.insert(entry.0, entry.1);
        }
        assert(incoming.take(incoming.len() as int) =~= incoming);
    }
}

impl<V: Clone> Clone for KeyedMap<V> {
    /// A map with the same keys in the same order, each value cloned.
    fn clone(&self) -> (r: Self)
        ensures
            r.keys() == self.keys(),
            r@.dom() == self@.dom(),
            forall|k: Seq<char>| #[trigger] self@.contains_key(k) ==> cloned(self@[k], r@[k]),
    {
        proof {
            use_type_invariant(self);
        }
        let mut entries: Vec<(String, V)> = Vec::new();
        let mut i: usize = 0;
        while i < self.entries.len()
            invariant
                i <= self.entries.len(),
                entries.len() == i,
                forall|j: int| 0 <= j < i ==> (#[trigger] entries[j]).0@ == self.entries[j].0@,
                forall|j: int| 0 <= j < i ==> cloned(self.entries[j].1, (#[trigger] entries[j]).1),
            decreases self.entries.len() - i,
        {
            let key = self.entries[i].0.clone();
            let value = self.entries[i].1.clone();
            entries.push((key, value));
            i += 1;
        }
        proof {
            assert(key_seq(entries@) =~= key_seq(self.entries@));
            assert(map_of(entries@).dom() =~= map_of(self.entries@).dom());
            assert forall|k: Seq<char>| #[trigger]
                map_of(self.entries@).contains_key(k) implies cloned(
                map_of(self.entries@)[k],
                map_of(entries@)[k],
            ) by {
                let j = lemma_key_has_entry(self.entries@, k);
                assert(key_seq(entries@)[j] == k);
                lemma_entry_in_map(entries@, j);
            }
        }
        KeyedMap { entries }
    }
}

impl<V> TryGettable<V> for KeyedMap<V> {
    open spec fn contents(&self) -> Map<Seq<char>, V> {
        self@
    }

    fn try_get(&self, key: &str) -> (r: Result<&V, Error>) {
        match self.get(key) {
            Some(v) => Ok(v),
            None => Err(Error::DataEntryNotFound(String::from_str(key))),
        }
    }
}

} // verus!
