//! The cache of contexts. It holds a limited number of them, and drops the one that was used the
//! longest time ago to make room for another.
use crate::state::{Context, ContextView};
use lru::LruCache;
use vstd::prelude::*;

verus! {

/// The contexts that were fetched of late, by their addresses.
pub type ContextCache = LruCache<String, Context>;

/// `lru::LruCache`, a map with a limit, which drops the entry that was used the longest time ago.
#[verifier::external_type_specification]
#[verifier::external_body]
#[verifier::reject_recursive_types(K)]
#[verifier::reject_recursive_types(V)]
#[verifier::reject_recursive_types(S)]
pub struct ExLruCache<K, V, S>(lru::LruCache<K, V, S>);

/// `lru::DefaultHasher`, with which an `lru::LruCache` finds its keys.
#[verifier::external_type_specification]
#[verifier::external_body]
pub struct ExDefaultHasher(lru::DefaultHasher);

/// An entry of the cache: an address and the context found there.
pub type Entry = (Seq<char>, ContextView);

/// The entries of a cache, from the one used last to the one used the longest time ago.
pub uninterp spec fn cache_entries(cache: ContextCache) -> Seq<(Seq<char>, ContextView)>;

/// The number of entries that a cache was made for.
pub uninterp spec fn cache_capacity(cache: ContextCache) -> nat;

/// The context under a key, if there is one.
pub open spec fn lookup(entries: Seq<Entry>, key: Seq<char>) -> Option<ContextView>
    decreases entries.len(),
{
    if entries.len() == 0 {
        None
    } else if entries[0].0 == key {
        Some(entries[0].1)
    } else {
        lookup(entries.drop_first(), key)
    }
}

/// The entries with another context under a key that is there.
pub open spec fn replaced(entries: Seq<Entry>, key: Seq<char>, context: ContextView) -> Seq<Entry>
    decreases entries.len(),
{
    if entries.len() == 0 {
        entries
    } else if entries[0].0 == key {
        entries.update(0, (key, context))
    } else {
        seq![entries[0]] + replaced(entries.drop_first(), key, context)
    }
}

/// The entries without the one of a key.
pub open spec fn without(entries: Seq<Entry>, key: Seq<char>) -> Seq<Entry> {
    entries.filter(|entry: Entry| entry.0 != key)
}

/// The entries once a context has been put under a key. It comes first. Where the key is new and
/// there is no room for it, the last entry is dropped.
pub open spec fn inserted(
    entries: Seq<Entry>,
    capacity: nat,
    key: Seq<char>,
    context: ContextView,
) -> Seq<Entry> {
    let others = if lookup(entries, key) is Some {
        without(entries, key)
    } else if entries.len() < capacity {
        entries
    } else {
        entries.drop_last()
    };
    seq![(key, context)] + others
}

/// Calls `lru::LruCache::contains`, which tells whether there is an entry of a key, and leaves the
/// order of use as it is.
#[verifier::external_body]
pub(crate) fn cache_contains(cache: &ContextCache, key: &String) -> (found: bool)
    ensures
        found == (lookup(cache_entries(*cache), key@) is Some),
{
    cache.contains(key)
}

/// Calls `lru::LruCache::peek`, which finds the value under a key, and leaves the order of use as
/// it is.
#[verifier::external_body]
pub(crate) fn cache_peek<'a>(cache: &'a ContextCache, key: &String) -> (found: Option<&'a Context>)
    ensures
        found.deep_view() == lookup(cache_entries(*cache), key@),
{
    cache.peek(key)
}

/// Calls `lru::LruCache::peek_mut`, which finds the value under a key for it to be changed, and
/// leaves the order of use as it is.
#[verifier::external_body]
pub(crate) fn cache_peek_mut<'a>(
    cache: &'a mut ContextCache,
    key: &String,
) -> (found: Option<&'a mut Context>)
    ensures
        match found {
            Some(context) => {
                &&& lookup(cache_entries(*old(cache)), key@) == Some((*context).deep_view())
                &&& cache_entries(*final(cache)) == replaced(
                    cache_entries(*old(cache)),
                    key@,
                    (*final(context)).deep_view(),
                )
            },
            None => {
                &&& lookup(cache_entries(*old(cache)), key@) is None
                &&& cache_entries(*final(cache)) == cache_entries(*old(cache))
            },
        },
        cache_capacity(*final(cache)) == cache_capacity(*old(cache)),
{
    cache.peek_mut(key)
}

/// Calls `lru::LruCache::put`, which puts a value under a key, moves the entry to the front, and
/// drops the last entry where the key is new and the cache is full. As of every such cache, no key
/// occurs twice, and there are no more entries than it was made for, which is never none.
#[verifier::external_body]
pub(crate) fn cache_put(
    cache: &mut ContextCache,
    key: String,
    context: Context,
) -> (previous: Option<Context>)
    ensures
        previous.deep_view() == lookup(cache_entries(*old(cache)), key@),
        cache_entries(*final(cache)) == inserted(
            cache_entries(*old(cache)),
            cache_capacity(*old(cache)),
            key@,
            context.deep_view(),
        ),
        cache_capacity(*final(cache)) == cache_capacity(*old(cache)),
        well_formed(cache_entries(*final(cache)), cache_capacity(*final(cache))),
{
    cache.put(key, context)
}

/// The keys of the entries, in order.
pub open spec fn keys(entries: Seq<Entry>) -> Seq<Seq<char>> {
    entries.map_values(|entry: Entry| entry.0)
}

/// Whether no key occurs twice among entries, and there are no more of them than a cache was made
/// for. Of a cache this is known once something has been put into it.
pub open spec fn well_formed(entries: Seq<Entry>, capacity: nat) -> bool {
    &&& forall|i: int, j: int|
        0 <= i < j < entries.len() ==> (#[trigger] entries[i]).0 != (#[trigger] entries[j]).0
    &&& entries.len() <= capacity
    &&& capacity > 0
}

/// A key is found exactly where one of the entries has it.
proof fn lemma_lookup(entries: Seq<Entry>, key: Seq<char>)
    ensures
        lookup(entries, key) is Some <==> exists|i: int|
            0 <= i < entries.len() && (#[trigger] entries[i]).0 == key,
        lookup(entries, key) is Some ==> entries.contains((key, lookup(entries, key)->0)),
    decreases entries.len(),
{
    if entries.len() > 0 {
        let rest = entries.drop_first();
        lemma_lookup(rest, key);
        if entries[0].0 == key {
            assert(entries[0] == (key, entries[0].1));
        } else {
            if lookup(rest, key) is Some {
                let i = choose|i: int|
                    0 <= i < rest.len() && rest[i] == (key, lookup(rest, key)->0);
                assert(entries[i + 1] == rest[i]);
            }
            assert forall|i: int|
                0 <= i < entries.len() && (#[trigger] entries[i]).0 == key implies lookup(
                entries,
                key,
            ) is Some by {
                assert(rest[i - 1] == entries[i]);
            }
        }
    }
}

/// Where no key occurs twice, what is found under a key is what its entry holds.
proof fn lemma_lookup_at(entries: Seq<Entry>, i: int)
    requires
        forall|i: int, j: int|
            0 <= i < j < entries.len() ==> (#[trigger] entries[i]).0 != (#[trigger] entries[j]).0,
        0 <= i < entries.len(),
    ensures
        lookup(entries, entries[i].0) == Some(entries[i].1),
    decreases entries.len(),
{
    if i > 0 {
        assert(entries[0].0 != entries[i].0);
        lemma_lookup_at(entries.drop_first(), i - 1);
    }
}

/// Putting back the context that is there changes nothing.
pub proof fn lemma_replaced_by_itself(entries: Seq<Entry>, key: Seq<char>)
    requires
        lookup(entries, key) is Some,
    ensures
        replaced(entries, key, lookup(entries, key)->0) == entries,
    decreases entries.len(),
{
    if entries[0].0 == key {
        assert(entries.update(0, (key, entries[0].1)) =~= entries);
    } else {
        lemma_replaced_by_itself(entries.drop_first(), key);
        assert(seq![entries[0]] + entries.drop_first() =~= entries);
    }
}

/// A change in place keeps the keys and their order, is found under its own key if that was
/// there, and touches no other key.
pub proof fn replacing_touches_one_key(
    entries: Seq<Entry>,
    key: Seq<char>,
    context: ContextView,
    other: Seq<char>,
)
    ensures
        keys(replaced(entries, key, context)) == keys(entries),
        lookup(replaced(entries, key, context), key) == if lookup(entries, key) is Some {
            Some(context)
        } else {
            None
        },
        other != key ==> lookup(replaced(entries, key, context), other) == lookup(entries, other),
    decreases entries.len(),
{
    let new = replaced(entries, key, context);
    if entries.len() == 0 {
    } else if entries[0].0 == key {
        assert(keys(new) =~= keys(entries));
        assert(new.drop_first() =~= entries.drop_first());
    } else {
        let rest = entries.drop_first();
        replacing_touches_one_key(rest, key, context, other);
        assert(new.drop_first() =~= replaced(rest, key, context));
        assert(keys(new) =~= seq![entries[0].0] + keys(replaced(rest, key, context)));
        assert(keys(entries) =~= seq![entries[0].0] + keys(rest));
    }
}

/// A change in place keeps a cache well-formed.
pub proof fn replacing_keeps_well_formed(
    entries: Seq<Entry>,
    capacity: nat,
    key: Seq<char>,
    context: ContextView,
)
    requires
        well_formed(entries, capacity),
    ensures
        well_formed(replaced(entries, key, context), capacity),
{
    let new = replaced(entries, key, context);
    replacing_touches_one_key(entries, key, context, key);
    assert(keys(new).len() == new.len());
    assert(keys(entries).len() == entries.len());
    assert forall|i: int, j: int| 0 <= i < j < new.len() implies (#[trigger] new[i]).0 != (
    #[trigger] new[j]).0 by {
        assert(keys(new)[i] == keys(entries)[i]);
        assert(keys(new)[j] == keys(entries)[j]);
        assert(entries[i].0 != entries[j].0);
    }
}

proof fn lemma_without(entries: Seq<Entry>, key: Seq<char>, other: Seq<char>)
    requires
        forall|i: int, j: int|
            0 <= i < j < entries.len() ==> (#[trigger] entries[i]).0 != (#[trigger] entries[j]).0,
    ensures
        forall|i: int, j: int|
            0 <= i < j < without(entries, key).len() ==> (#[trigger] without(entries, key)[i]).0
                != (#[trigger] without(entries, key)[j]).0,
        forall|i: int|
            0 <= i < without(entries, key).len() ==> (#[trigger] without(entries, key)[i]).0 != key
                && entries.contains(without(entries, key)[i]),
        without(entries, key).len() <= entries.len(),
        lookup(entries, key) is Some ==> without(entries, key).len() < entries.len(),
        other != key ==> lookup(without(entries, key), other) == lookup(entries, other),
    decreases entries.len(),
{
    reveal(Seq::filter);
    lemma_lookup(entries, key);
    lemma_lookup(entries, other);
    if entries.len() > 0 {
        let rest = entries.drop_last();
        let last = entries.last();
        lemma_without(rest, key, other);
        let kept = without(rest, key);
        let new = without(entries, key);
        lemma_lookup(rest, key);
        lemma_lookup(rest, other);
        assert forall|i: int| 0 <= i < new.len() implies (#[trigger] new[i]).0 != key
            && entries.contains(new[i]) by {
            if i < kept.len() {
                assert(rest.contains(kept[i]));
                let k = choose|k: int| 0 <= k < rest.len() && rest[k] == kept[i];
                assert(entries[k] == new[i]);
            } else {
                assert(entries[entries.len() - 1] == new[i]);
            }
        }
        assert forall|i: int, j: int| 0 <= i < j < new.len() implies (#[trigger] new[i]).0 != (
        #[trigger] new[j]).0 by {
            if j == kept.len() {
                assert(rest.contains(kept[i]));
                let k = choose|k: int| 0 <= k < rest.len() && rest[k] == kept[i];
                assert(entries[k].0 != entries[entries.len() - 1].0);
            } else {
                assert(kept[i].0 != kept[j].0);
            }
        }
        if lookup(entries, key) is Some && last.0 != key {
            let i = choose|i: int| 0 <= i < entries.len() && (#[trigger] entries[i]).0 == key;
            assert(rest[i].0 == key);
        }
        if other != key {
            lemma_lookup(new, other);
            if lookup(entries, other) is Some {
                let value = lookup(entries, other)->0;
                let i = choose|i: int| 0 <= i < entries.len() && entries[i] == (other, value);
                lemma_lookup_at(entries, i);
                if i < rest.len() {
                    lemma_lookup_at(rest, i);
                    assert(lookup(kept, other) == Some(value));
                    lemma_lookup(kept, other);
                    let k = choose|k: int| 0 <= k < kept.len() && kept[k] == (other, value);
                    assert(new[k] == (other, value));
                    lemma_lookup_at(new, k);
                } else {
                    assert(new[kept.len() as int] == (other, value));
                    lemma_lookup_at(new, kept.len() as int);
                }
            } else if lookup(new, other) is Some {
                let k = choose|k: int| 0 <= k < new.len() && (#[trigger] new[k]).0 == other;
                assert(entries.contains(new[k]));
                let i = choose|i: int| 0 <= i < entries.len() && entries[i] == new[k];
                assert(entries[i].0 == other);
            }
        }
    }
}

/// Putting a context under a key keeps a cache well-formed.
pub proof fn inserting_keeps_well_formed(
    entries: Seq<Entry>,
    capacity: nat,
    key: Seq<char>,
    context: ContextView,
)
    requires
        well_formed(entries, capacity),
    ensures
        well_formed(inserted(entries, capacity, key, context), capacity),
{
    let new = inserted(entries, capacity, key, context);
    lemma_without(entries, key, key);
    lemma_lookup(entries, key);
    let others = new.drop_first();
    assert forall|i: int| 0 <= i < others.len() implies (#[trigger] others[i]).0 != key by {
        if lookup(entries, key) is Some {
            assert(others[i] == without(entries, key)[i]);
        } else {
            assert(others[i] == entries[i]);
        }
    }
    assert forall|i: int, j: int| 0 <= i < j < new.len() implies (#[trigger] new[i]).0 != (
    #[trigger] new[j]).0 by {
        assert(others[j - 1] == new[j]);
        if i > 0 {
            assert(others[i - 1] == new[i]);
            if lookup(entries, key) is Some {
                assert(without(entries, key)[i - 1].0 != without(entries, key)[j - 1].0);
            } else {
                assert(entries[i - 1].0 != entries[j - 1].0);
            }
        }
    }
}

/// A context that was put under a key is found there, as the entry used last.
pub proof fn inserted_context_is_found(
    entries: Seq<Entry>,
    capacity: nat,
    key: Seq<char>,
    context: ContextView,
)
    ensures
        lookup(inserted(entries, capacity, key, context), key) == Some(context),
        inserted(entries, capacity, key, context)[0] == (key, context),
{
}

proof fn lemma_lookup_of_pushed(entries: Seq<Entry>, entry: Entry, key: Seq<char>)
    ensures
        lookup(entries.push(entry), key) == if lookup(entries, key) is Some {
            lookup(entries, key)
        } else if entry.0 == key {
            Some(entry.1)
        } else {
            None
        },
    decreases entries.len(),
{
    let new = entries.push(entry);
    if entries.len() == 0 {
        assert(lookup(new.drop_first(), key) is None);
    } else {
        assert(new.drop_first() =~= entries.drop_first().push(entry));
        lemma_lookup_of_pushed(entries.drop_first(), entry, key);
    }
}

proof fn lemma_lookup_without(entries: Seq<Entry>, key: Seq<char>, other: Seq<char>)
    requires
        other != key,
    ensures
        lookup(without(entries, key), other) == lookup(entries, other),
    decreases entries.len(),
{
    reveal(Seq::filter);
    if entries.len() > 0 {
        let rest = entries.drop_last();
        let last = entries.last();
        assert(entries =~= rest.push(last));
        lemma_lookup_without(rest, key, other);
        lemma_lookup_of_pushed(rest, last, other);
        lemma_lookup_of_pushed(without(rest, key), last, other);
    }
}

/// Putting a context under a key changes nothing that is found under another key, whatever the
/// entries were. At most one thing is no longer found: what the entry used the longest time ago
/// holds, where the key is new and there is no room for it.
pub proof fn inserting_changes_no_other_key(
    entries: Seq<Entry>,
    capacity: nat,
    key: Seq<char>,
    context: ContextView,
    other: Seq<char>,
)
    requires
        other != key,
        capacity > 0,
    ensures
        ({
            let found = lookup(inserted(entries, capacity, key, context), other);
            &&& found is Some ==> found == lookup(entries, other)
            &&& lookup(entries, key) is Some || entries.len() < capacity || entries.last().0
                != other ==> found == lookup(entries, other)
        }),
{
    let new = inserted(entries, capacity, key, context);
    let others = new.drop_first();
    assert(lookup(new, other) == lookup(others, other));
    if lookup(entries, key) is Some {
        assert(others =~= without(entries, key));
        lemma_lookup_without(entries, key, other);
    } else if entries.len() < capacity {
        assert(others =~= entries);
    } else {
        assert(others =~= entries.drop_last());
        assert(entries =~= others.push(entries.last()));
        lemma_lookup_of_pushed(others, entries.last(), other);
    }
}

/// Putting a context under a key leaves every other key as it is. The one exception is the key
/// used the longest time ago, which is dropped where the key is new and the cache is full.
pub proof fn inserting_drops_the_oldest_alone(
    entries: Seq<Entry>,
    capacity: nat,
    key: Seq<char>,
    context: ContextView,
    other: Seq<char>,
)
    requires
        well_formed(entries, capacity),
        other != key,
    ensures
        ({
            let dropped = lookup(entries, key) is None && entries.len() == capacity
                && entries.last().0 == other;
            lookup(inserted(entries, capacity, key, context), other) == if dropped {
                None
            } else {
                lookup(entries, other)
            }
        }),
{
    let new = inserted(entries, capacity, key, context);
    let others = new.drop_first();
    assert(lookup(new, other) == lookup(others, other));
    if lookup(entries, key) is Some {
        assert(others =~= without(entries, key));
        lemma_without(entries, key, other);
    } else if entries.len() < capacity {
        assert(others =~= entries);
    } else {
        assert(others =~= entries.drop_last());
        lemma_lookup(entries, other);
        lemma_lookup(others, other);
        if lookup(entries, other) is Some {
            let value = lookup(entries, other)->0;
            let i = choose|i: int| 0 <= i < entries.len() && entries[i] == (other, value);
            if i < others.len() {
                assert(others[i] == entries[i]);
                lemma_lookup_at(others, i);
                assert(entries[i].0 != entries[entries.len() - 1].0);
            } else if lookup(others, other) is Some {
                let k = choose|k: int| 0 <= k < others.len() && (#[trigger] others[k]).0 == other;
                assert(entries[k].0 != entries[i].0);
            }
        } else if lookup(others, other) is Some {
            let k = choose|k: int| 0 <= k < others.len() && (#[trigger] others[k]).0 == other;
            assert(entries[k].0 == other);
        }
    }
}

/// What is found under a key is what the first entry of that key holds, and nothing is found where
/// no entry has the key.
pub proof fn first_entry_of_a_key_is_found(entries: Seq<Entry>, key: Seq<char>, i: int)
    requires
        0 <= i <= entries.len(),
        forall|k: int| 0 <= k < i ==> (#[trigger] entries[k]).0 != key,
    ensures
        i < entries.len() && entries[i].0 == key ==> lookup(entries, key) == Some(entries[i].1),
        i == entries.len() ==> lookup(entries, key) is None,
    decreases entries.len(),
{
    if entries.len() > 0 && i > 0 {
        assert(entries[0].0 != key);
        let rest = entries.drop_first();
        assert forall|k: int| 0 <= k < i - 1 implies (#[trigger] rest[k]).0 != key by {
            assert(rest[k] == entries[k + 1]);
        }
        first_entry_of_a_key_is_found(rest, key, i - 1);
    }
}

/// A change in place changes the first entry of the key alone, and nothing where no entry has the
/// key.
pub proof fn first_entry_of_a_key_is_replaced(
    entries: Seq<Entry>,
    key: Seq<char>,
    context: ContextView,
    i: int,
)
    requires
        0 <= i <= entries.len(),
        forall|k: int| 0 <= k < i ==> (#[trigger] entries[k]).0 != key,
    ensures
        i < entries.len() && entries[i].0 == key ==> replaced(entries, key, context)
            == entries.update(i, (key, context)),
        i == entries.len() ==> replaced(entries, key, context) == entries,
    decreases entries.len(),
{
    if entries.len() > 0 && i > 0 {
        assert(entries[0].0 != key);
        let rest = entries.drop_first();
        assert forall|k: int| 0 <= k < i - 1 implies (#[trigger] rest[k]).0 != key by {
            assert(rest[k] == entries[k + 1]);
        }
        first_entry_of_a_key_is_replaced(rest, key, context, i - 1);
        assert(seq![entries[0]] + rest =~= entries);
        if i < entries.len() {
            assert(seq![entries[0]] + rest.update(i - 1, (key, context)) =~= entries.update(
                i,
                (key, context),
            ));
        }
    }
}

proof fn lemma_without_absent_key(entries: Seq<Entry>, key: Seq<char>)
    requires
        forall|k: int| 0 <= k < entries.len() ==> (#[trigger] entries[k]).0 != key,
    ensures
        without(entries, key) == entries,
    decreases entries.len(),
{
    reveal(Seq::filter);
    if entries.len() > 0 {
        let rest = entries.drop_last();
        assert forall|k: int| 0 <= k < rest.len() implies (#[trigger] rest[k]).0 != key by {
            assert(rest[k] == entries[k]);
        }
        lemma_without_absent_key(rest, key);
        assert(entries[entries.len() - 1].0 != key);
        assert(without(entries, key) =~= entries);
    }
}

proof fn lemma_without_only_key(entries: Seq<Entry>, key: Seq<char>, i: int)
    requires
        0 <= i < entries.len(),
        entries[i].0 == key,
        forall|k: int| 0 <= k < entries.len() && k != i ==> (#[trigger] entries[k]).0 != key,
    ensures
        without(entries, key) == entries.remove(i),
{
    reveal_with_fuel(Seq::filter, 2);
    let other = |entry: Entry| entry.0 != key;
    let front = entries.take(i);
    let one = seq![entries[i]];
    let back = entries.skip(i + 1);
    assert forall|k: int| 0 <= k < back.len() implies (#[trigger] back[k]).0 != key by {
        assert(back[k] == entries[i + 1 + k]);
    }
    assert forall|k: int| 0 <= k < front.len() implies (#[trigger] front[k]).0 != key by {
        assert(front[k] == entries[k]);
    }
    lemma_without_absent_key(front, key);
    lemma_without_absent_key(back, key);
    Seq::filter_distributes_over_add(front, one + back, other);
    Seq::filter_distributes_over_add(one, back, other);
    assert(one.drop_last() =~= Seq::empty());
    assert(without(one, key) =~= Seq::empty());
    assert(entries =~= front + (one + back));
    assert(entries.remove(i) =~= front + back);
    assert(without(entries, key) =~= front + back);
}

/// A context that is put under a new key comes first, and all entries stay behind it in their
/// order; where there is no room, all but the last.
pub proof fn new_key_comes_first(
    entries: Seq<Entry>,
    capacity: nat,
    key: Seq<char>,
    context: ContextView,
)
    requires
        forall|k: int| 0 <= k < entries.len() ==> (#[trigger] entries[k]).0 != key,
    ensures
        entries.len() < capacity ==> inserted(entries, capacity, key, context) == seq![
            (key, context),
        ] + entries,
        entries.len() >= capacity ==> inserted(entries, capacity, key, context) == seq![
            (key, context),
        ] + entries.drop_last(),
{
    first_entry_of_a_key_is_found(entries, key, entries.len() as int);
}

/// A context that is put under a key that is there comes first in place of the entry of that key,
/// and all other entries stay behind it in their order, even where there is no room for more.
pub proof fn known_key_moves_to_the_front(
    entries: Seq<Entry>,
    capacity: nat,
    key: Seq<char>,
    context: ContextView,
    i: int,
)
    requires
        0 <= i < entries.len(),
        entries[i].0 == key,
        forall|k: int| 0 <= k < entries.len() && k != i ==> (#[trigger] entries[k]).0 != key,
    ensures
        inserted(entries, capacity, key, context) == seq![(key, context)] + entries.remove(i),
{
    first_entry_of_a_key_is_found(entries, key, i);
    lemma_without_only_key(entries, key, i);
}

/// The keys of entries are those of each, in order.
pub proof fn keys_are_those_of_the_entries(entries: Seq<Entry>, i: int)
    ensures
        keys(entries).len() == entries.len(),
        0 <= i < entries.len() ==> keys(entries)[i] == entries[i].0,
{
}

/// In a well-formed cache no key occurs twice, and there is room for all entries.
pub proof fn well_formed_cache_holds_each_key_once(
    entries: Seq<Entry>,
    capacity: nat,
    i: int,
    j: int,
)
    requires
        well_formed(entries, capacity),
    ensures
        0 <= i < entries.len() && 0 <= j < entries.len() && entries[i].0 == entries[j].0 ==> i == j,
        entries.len() <= capacity,
        capacity > 0,
{
}

} // verus!
