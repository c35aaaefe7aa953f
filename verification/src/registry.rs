//! Registries: ordered maps from a stable identifier to an entry, built
//! from attempts of which each may fail without holding back the others.
use vstd::prelude::*;

use crate::events::{views, AppEvent, AppEventView};
use crate::maps::{keys_with, KeyedMap};
use crate::result::Error;
use crate::sync::{failure_line, report_failure};

verus! {

/// The registry that a sequence of attempts gives: each entry that was
/// built stands under its identifier, and a failed attempt adds nothing.
pub open spec fn registry_of<V>(attempts: Seq<(String, Result<V, Error>)>) -> Map<Seq<char>, V>
    decreases attempts.len(),
{
    if attempts.len() == 0 {
        Map::empty()
    } else {
        match attempts.last().1 {
            Ok(entry) => registry_of(attempts.drop_last()).insert(attempts.last().0@, entry),
            Err(_) => registry_of(attempts.drop_last()),
        }
    }
}

/// The keys of the registry that a sequence of attempts gives, in the
/// order in which their entries first came.
pub open spec fn registry_keys<V>(attempts: Seq<(String, Result<V, Error>)>) -> Seq<Seq<char>>
    decreases attempts.len(),
{
    if attempts.len() == 0 {
        Seq::empty()
    } else {
        match attempts.last().1 {
            Ok(_) => keys_with(registry_keys(attempts.drop_last()), attempts.last().0@),
            Err(_) => registry_keys(attempts.drop_last()),
        }
    }
}

/// One error signal for each attempt that failed, in order.
pub open spec fn setup_failures<V>(context: Seq<char>, attempts: Seq<(String, Result<V, Error>)>)
    -> Seq<AppEventView>
    decreases attempts.len(),
{
    if attempts.len() == 0 {
        Seq::empty()
    } else {
        match attempts.last().1 {
            Ok(_) => setup_failures(context, attempts.drop_last()),
            Err(e) => setup_failures(context, attempts.drop_last()).push(
                AppEventView::ErrorRaised(failure_line(context, e@)),
            ),
        }
    }
}

/// Takes one attempt into a registry: an entry that was built goes under
/// its identifier; a failure is reported and leaves the registry as it is.
pub fn add_attempt<V>(
    context: &str,
    map: &mut KeyedMap<V>,
    id: String,
    built: Result<V, Error>,
    outbox: &mut Vec<AppEvent>,
)
    ensures
        match built {
            Ok(entry) => final(map)@ == old(map)@.insert(id@, entry) && final(map).keys()
                == keys_with(old(map).keys(), id@) && views(final(outbox)@) == views(
                old(outbox)@,
            ),
            Err(e) => final(map)@ == old(map)@ && final(map).keys() == old(map).keys() && views(
                final(outbox)@,
            ) == views(old(outbox)@).push(AppEventView::ErrorRaised(failure_line(context@, e@))),
        },
{
    match built {
        Ok(entry) => {
            map.insert(id, entry);
        },
        Err(error) => {
            report_failure(context, &error, outbox);
        },
    }
}

/// Builds a registry from all attempts, in order.
pub fn build_registry<V>(
    context: &str,
    attempts: Vec<(String, Result<V, Error>)>,
    outbox: &mut Vec<AppEvent>,
) -> (r: KeyedMap<V>)
    ensures
        r@ == registry_of(attempts@),
        r.keys() == registry_keys(attempts@),
        views(final(outbox)@) == views(old(outbox)@) + setup_failures(context@, attempts@),
{
    let mut map: KeyedMap<V> = KeyedMap::new();
    let ghost all = attempts@;
    let ghost sent = views(outbox@);
    assert(sent + setup_failures::<V>(context@, all.take(0)) =~= sent);
    for attempt in it: attempts
        invariant
            it.seq() == all,
            map@ == registry_of(all.take(it.index() as int)),
            map.keys() == registry_keys(all.take(it.index() as int)),
            views(outbox@) == sent + setup_failures(context@, all.take(it.index() as int)),
    {
        proof {
            let i = it.index() as int;
            assert(all.take(i + 1).drop_last() =~= all.take(i));
            if attempt.1 is Err {
                assert((sent + setup_failures(context@, all.take(i))).push(
                    AppEventView::ErrorRaised(failure_line(context@, attempt.1->Err_0@)),
                ) =~= sent + setup_failures(context@, all.take(i + 1)));
            }
        }
        add_attempt(context, &mut map, attempt.0, attempt.1, outbox);
    }
    assert(all.take(all.len() as int) =~= all);
    map
}

/// A registry has at most one entry for each attempt, and every key of it
/// is the identifier of an attempt that succeeded.
pub proof fn lemma_registry_bounded<V>(attempts: Seq<(String, Result<V, Error>)>)
    ensures
        registry_of(attempts).dom().finite(),
        registry_of(attempts).len() <= attempts.len(),
        forall|k: Seq<char>| #[trigger]
            registry_of(attempts).contains_key(k) ==> exists|i: int|
                0 <= i < attempts.len() && (#[trigger] attempts[i]).0@ == k && attempts[i].1 is Ok,
    decreases attempts.len(),
{
    if attempts.len() > 0 {
        let init = attempts.drop_last();
        lemma_registry_bounded(init);
        assert forall|k: Seq<char>| #[trigger]
            registry_of(attempts).contains_key(k) implies exists|i: int|
            0 <= i < attempts.len() && (#[trigger] attempts[i]).0@ == k && attempts[i].1 is Ok by {
            if registry_of(init).contains_key(k) {
                let i = choose|i: int|
                    0 <= i < init.len() && (#[trigger] init[i]).0@ == k && init[i].1 is Ok;
                assert(attempts[i].0@ == k && attempts[i].1 is Ok);
            } else {
                let n = attempts.len() - 1;
                assert(attempts[n].0@ == k && attempts[n].1 is Ok);
            }
        }
    }
}

/// The failure of one attempt never keeps another out of the registry: an
/// entry that was built, and that no later attempt for the same
/// identifier replaces, is in the registry whatever became of the others.
pub proof fn lemma_failure_is_isolated<V>(attempts: Seq<(String, Result<V, Error>)>, i: int)
    requires
        0 <= i < attempts.len(),
        attempts[i].1 is Ok,
        forall|j: int| i < j < attempts.len() ==> (#[trigger] attempts[j]).0@ != attempts[i].0@ || (
        attempts[j]).1 is Err,
    ensures
        registry_of(attempts).contains_key(attempts[i].0@),
        registry_of(attempts)[attempts[i].0@] == attempts[i].1->Ok_0,
        registry_of(attempts).len() >= 1,
    decreases attempts.len(),
{
    let init = attempts.drop_last();
    let n = attempts.len() - 1;
    lemma_registry_bounded(attempts);
    if i < n {
        assert(init[i] == attempts[i]);
        assert forall|j: int| i < j < init.len() implies (#[trigger] init[j]).0@ != init[i].0@ || (
        init[j]).1 is Err by {
            assert(init[j] == attempts[j]);
        }
        lemma_failure_is_isolated(init, i);
        assert(attempts[n].0@ != attempts[i].0@ || attempts[n].1 is Err);
    }
    let k = attempts[i].0@;
    assert(registry_of(attempts).contains_key(k));
    assert(registry_of(attempts).dom().len() >= 1) by {
        if registry_of(attempts).dom().len() == 0 {
            assert(registry_of(attempts).dom() =~= Set::empty());
        }
    }
}

} // verus!
