use vstd::prelude::*;
use cached::{Cached, LruCache};
use serde_json::Value;

verus! {

#[verifier::external_type_specification]
#[verifier::external_body]
#[verifier::reject_recursive_types(K)]
#[verifier::reject_recursive_types(V)]
#[verifier::reject_recursive_types(S)]
pub struct ExLruCache<K, V, S>(LruCache<K, V, S>);

/// A payload kept with the second at which it was fetched.
pub type Stamped = (u64, Option<Value>);

/// What an image cache holds, most recently used first.
pub uninterp spec fn image_entries(c: LruCache<String, Vec<u8>>) -> Seq<(Seq<char>, Seq<u8>)>;

/// The number of entries an image cache was made to hold at most.
pub uninterp spec fn image_capacity(c: LruCache<String, Vec<u8>>) -> nat;

/// What a payload cache holds, most recently used first.
pub uninterp spec fn payload_entries(c: LruCache<String, Stamped>) -> Seq<(Seq<char>, Stamped)>;

/// The number of entries a payload cache was made to hold at most.
pub uninterp spec fn payload_capacity(c: LruCache<String, Stamped>) -> nat;

/// Whether no two entries share a key.
pub open spec fn keys_distinct<V>(s: Seq<(Seq<char>, V)>) -> bool {
    forall|i: int, j: int| 0 <= i < j < s.len() ==> s[i].0 != s[j].0
}

pub open spec fn has_key<V>(s: Seq<(Seq<char>, V)>, k: Seq<char>) -> bool {
    exists|i: int| 0 <= i < s.len() && s[i].0 == k
}

/// Where `k` stands among the entries, when it is there.
pub open spec fn key_index<V>(s: Seq<(Seq<char>, V)>, k: Seq<char>) -> int {
    choose|i: int| 0 <= i < s.len() && s[i].0 == k
}

/// The value kept under `k`.
pub open spec fn lookup<V>(s: Seq<(Seq<char>, V)>, k: Seq<char>) -> Option<V> {
    if has_key(s, k) {
        Some(s[key_index(s, k)].1)
    } else {
        None
    }
}

/// The entries once `k` was read: a present key moves to the front.
pub open spec fn touched<V>(s: Seq<(Seq<char>, V)>, k: Seq<char>) -> Seq<(Seq<char>, V)> {
    if has_key(s, k) {
        seq![s[key_index(s, k)]] + s.remove(key_index(s, k))
    } else {
        s
    }
}

/// The entries once `k` was set to `v`: the pair goes to the front, in place
/// of any earlier value of `k`, and the least recently used entries beyond
/// the capacity are dropped.
pub open spec fn after_set<V>(s: Seq<(Seq<char>, V)>, k: Seq<char>, v: V, capacity: nat) -> Seq<
    (Seq<char>, V),
> {
    let rest = if has_key(s, k) {
        s.remove(key_index(s, k))
    } else {
        s
    };
    let placed = seq![(k, v)] + rest;
    if placed.len() > capacity {
        placed.subrange(0, capacity as int)
    } else {
        placed
    }
}

/// The entries as a mapping from keys to values.
pub open spec fn as_map<V>(s: Seq<(Seq<char>, V)>) -> Map<Seq<char>, V> {
    Map::new(|k: Seq<char>| has_key(s, k), |k: Seq<char>| s[key_index(s, k)].1)
}

/// Relies on `cached::LruCache::new`, which panics on a zero size and on a
/// size too large to allocate for.
#[verifier::external_body]
pub(crate) fn image_cache_new(max_size: usize) -> (r: LruCache<String, Vec<u8>>)
    requires
        0 < max_size <= 1_000_000,
    ensures
        image_entries(r) == Seq::<(Seq<char>, Seq<u8>)>::empty(),
        image_capacity(r) == max_size,
{
    LruCache::new(max_size)
}

/// Relies on `Cached::cache_get` of `cached::LruCache`: the value kept under
/// the key, which becomes the most recently used.
#[verifier::external_body]
pub(crate) fn image_cache_get(c: &mut LruCache<String, Vec<u8>>, k: &String) -> (r: Option<
    Vec<u8>,
>)
    requires
        keys_distinct(image_entries(*old(c))),
    ensures
        match lookup(image_entries(*old(c)), k@) {
            Some(v) => r is Some && r->Some_0@ == v,
            None => r is None,
        },
        image_entries(*final(c)) == touched(image_entries(*old(c)), k@),
        image_capacity(*final(c)) == image_capacity(*old(c)),
{
    c.cache_get(k).cloned()
}

/// Relies on `Cached::cache_set` of `cached::LruCache`: the pair becomes the
/// most recently used, and the least recently used go beyond the capacity.
#[verifier::external_body]
pub(crate) fn image_cache_set(c: &mut LruCache<String, Vec<u8>>, k: String, v: Vec<u8>)
    requires
        keys_distinct(image_entries(*old(c))),
    ensures
        image_entries(*final(c)) == after_set(
            image_entries(*old(c)),
            k@,
            v@,
            image_capacity(*old(c)),
        ),
        image_capacity(*final(c)) == image_capacity(*old(c)),
{
    c.cache_set(k, v);
}

/// Relies on `cached::LruCache::new`, which panics on a zero size and on a
/// size too large to allocate for.
#[verifier::external_body]
pub(crate) fn payload_cache_new(max_size: usize) -> (r: LruCache<String, Stamped>)
    requires
        0 < max_size <= 1_000_000,
    ensures
        payload_entries(r) == Seq::<(Seq<char>, Stamped)>::empty(),
        payload_capacity(r) == max_size,
{
    LruCache::new(max_size)
}

/// Relies on `Cached::cache_get` of `cached::LruCache`: the value kept under
/// the key, which becomes the most recently used.
#[verifier::external_body]
pub(crate) fn payload_cache_get(c: &mut LruCache<String, Stamped>, k: &String) -> (r: Option<
    Stamped,
>)
    requires
        keys_distinct(payload_entries(*old(c))),
    ensures
        r == lookup(payload_entries(*old(c)), k@),
        payload_entries(*final(c)) == touched(payload_entries(*old(c)), k@),
        payload_capacity(*final(c)) == payload_capacity(*old(c)),
{
    c.cache_get(k).cloned()
}

/// Relies on `Cached::cache_set` of `cached::LruCache`: the pair becomes the
/// most recently used, and the least recently used go beyond the capacity.
#[verifier::external_body]
pub(crate) fn payload_cache_set(c: &mut LruCache<String, Stamped>, k: String, v: Stamped)
    requires
        keys_distinct(payload_entries(*old(c))),
    ensures
        payload_entries(*final(c)) == after_set(
            payload_entries(*old(c)),
            k@,
            v,
            payload_capacity(*old(c)),
        ),
        payload_capacity(*final(c)) == payload_capacity(*old(c)),
{
    c.cache_set(k, v);
}

} // verus!
