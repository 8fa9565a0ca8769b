use vstd::prelude::*;
use cached::LruCache;
use serde_json::Value;
use usvg::Options;
use crate::lru::{
    after_set, as_map, has_key, image_cache_get, image_cache_new, image_cache_set, image_capacity,
    image_entries, key_index, keys_distinct, lookup, payload_cache_get, payload_cache_new,
    payload_cache_set, payload_capacity, payload_entries, touched, Stamped,
};
use crate::raster::{png_signed, to_raster, RenderFailure};

verus! {

/// An entry at position `j` is the one that `lookup` finds for its key.
proof fn lemma_found_at<V>(s: Seq<(Seq<char>, V)>, q: Seq<char>, j: int)
    requires
        keys_distinct(s),
        0 <= j < s.len(),
        s[j].0 == q,
    ensures
        has_key(s, q),
        key_index(s, q) == j,
        as_map(s).contains_key(q),
        as_map(s)[q] == s[j].1,
        lookup(s, q) == Some(s[j].1),
{
    assert(has_key(s, q));
}

/// Reading a key reorders the entries and changes nothing else.
proof fn lemma_touched<V>(s: Seq<(Seq<char>, V)>, k: Seq<char>)
    requires
        keys_distinct(s),
    ensures
        keys_distinct(touched(s, k)),
        touched(s, k).len() == s.len(),
        as_map(touched(s, k)) == as_map(s),
{
    if has_key(s, k) {
        let i = key_index(s, k);
        let t = touched(s, k);
        assert(t.len() == s.len());
        assert forall|j: int| 0 <= j < t.len() implies #[trigger] t[j] == s[
            if j == 0 {
                i
            } else if j - 1 < i {
                j - 1
            } else {
                j
            }
        ] by {}
        assert forall|a: int, b: int| 0 <= a < b < t.len() implies t[a].0 != t[b].0 by {
            assert(t[a] == s[
                if a == 0 {
                    i
                } else if a - 1 < i {
                    a - 1
                } else {
                    a
                }
            ]);
            assert(t[b] == s[
                if b == 0 {
                    i
                } else if b - 1 < i {
                    b - 1
                } else {
                    b
                }
            ]);
        }
        assert forall|q: Seq<char>| #[trigger] as_map(t).contains_key(q) == as_map(s).contains_key(q)
            && (as_map(s).contains_key(q) ==> as_map(t)[q] == as_map(s)[q]) by {
            if as_map(s).contains_key(q) {
                let m = key_index(s, q);
                let j = if m == i {
                    0
                } else if m < i {
                    m + 1
                } else {
                    m
                };
                assert(t[j] == s[m]);
                lemma_found_at(s, q, m);
                lemma_found_at(t, q, j);
            }
            if as_map(t).contains_key(q) {
                let j = key_index(t, q);
                let m = if j == 0 {
                    i
                } else if j - 1 < i {
                    j - 1
                } else {
                    j
                };
                assert(t[j] == s[m]);
                lemma_found_at(s, q, m);
            }
        }
        assert(as_map(t) =~= as_map(s));
    }
}

/// Setting a key keeps the keys distinct and within the capacity, maps the
/// key to its new value, and leaves every other key that stays as it was.
proof fn lemma_after_set<V>(s: Seq<(Seq<char>, V)>, k: Seq<char>, v: V, cap: nat)
    requires
        keys_distinct(s),
        s.len() <= cap,
        cap > 0,
    ensures
        keys_distinct(after_set(s, k, v, cap)),
        after_set(s, k, v, cap).len() <= cap,
        as_map(after_set(s, k, v, cap)).contains_key(k),
        as_map(after_set(s, k, v, cap))[k] == v,
        forall|q: Seq<char>|
            q != k && #[trigger] as_map(after_set(s, k, v, cap)).contains_key(q) ==> as_map(
                s,
            ).contains_key(q) && as_map(after_set(s, k, v, cap))[q] == as_map(s)[q],
        has_key(s, k) || s.len() < cap ==> as_map(after_set(s, k, v, cap)) == as_map(s).insert(
            k,
            v,
        ),
        !has_key(s, k) && s.len() == cap ==> as_map(after_set(s, k, v, cap)) == as_map(s).insert(
            k,
            v,
        ).remove(s.last().0),
{
    let present = has_key(s, k);
    let i = key_index(s, k);
    let rest = if present {
        s.remove(i)
    } else {
        s
    };
    // the position in `s` of each entry of `rest`
    let orig = |j: int|
        if present && j >= i {
            j + 1
        } else {
            j
        };
    assert forall|j: int| 0 <= j < rest.len() implies #[trigger] rest[j] == s[orig(j)] by {}
    assert forall|j: int| 0 <= j < rest.len() implies #[trigger] rest[j].0 != k by {
        assert(rest[j] == s[orig(j)]);
        if present {
            assert(s[i].0 == k);
        } else {
            assert(!(0 <= orig(j) < s.len() && s[orig(j)].0 == k));
        }
    }
    let placed = seq![(k, v)] + rest;
    let a = after_set(s, k, v, cap);
    assert(rest.len() <= s.len());
    assert(a.len() <= placed.len());
    assert forall|j: int| 0 <= j < a.len() implies #[trigger] a[j] == placed[j] by {}
    assert forall|x: int, y: int| 0 <= x < y < a.len() implies a[x].0 != a[y].0 by {
        assert(a[x] == placed[x]);
        assert(a[y] == placed[y]);
        assert(placed[y] == rest[y - 1]);
        if x > 0 {
            assert(placed[x] == rest[x - 1]);
            assert(rest[x - 1] == s[orig(x - 1)]);
            assert(rest[y - 1] == s[orig(y - 1)]);
        }
    }
    assert(a[0] == (k, v));
    lemma_found_at(a, k, 0);
    assert forall|q: Seq<char>|
        q != k && #[trigger] as_map(a).contains_key(q) implies as_map(s).contains_key(q)
        && as_map(a)[q] == as_map(s)[q] by {
        let j = key_index(a, q);
        assert(j > 0);
        assert(a[j] == placed[j]);
        assert(placed[j] == rest[j - 1]);
        assert(rest[j - 1] == s[orig(j - 1)]);
        lemma_found_at(s, q, orig(j - 1));
    }
    if present || s.len() < cap {
        assert(placed.len() <= cap);
        assert(a == placed);
        assert forall|q: Seq<char>|
            q != k && #[trigger] as_map(s).contains_key(q) implies as_map(a).contains_key(q) by {
            let m = key_index(s, q);
            let j = if present && m > i {
                m - 1
            } else {
                m
            };
            if present {
                assert(m != i);
            }
            assert(rest[j] == s[orig(j)]);
            assert(placed[j + 1] == rest[j]);
            lemma_found_at(a, q, j + 1);
        }
        assert(as_map(a) =~= as_map(s).insert(k, v));
    }
    if !present && s.len() == cap {
        let last = s.last().0;
        assert(last != k) by {
            assert(!(0 <= s.len() - 1 < s.len() && s[s.len() - 1].0 == k));
        }
        assert forall|j: int| 0 <= j < a.len() implies #[trigger] a[j] == if j == 0 {
            (k, v)
        } else {
            s[j - 1]
        } by {
            if j > 0 {
                assert(a[j] == placed[j]);
                assert(placed[j] == rest[j - 1]);
                assert(rest[j - 1] == s[orig(j - 1)]);
            }
        }
        let expected = as_map(s).insert(k, v).remove(last);
        assert forall|q: Seq<char>| #[trigger] as_map(a).contains_key(q) == expected.contains_key(q)
            && (expected.contains_key(q) ==> as_map(a)[q] == expected[q]) by {
            if q != k && as_map(a).contains_key(q) {
                let j = key_index(a, q);
                assert(a[j] == s[j - 1]);
                assert(j - 1 != s.len() - 1);
                lemma_found_at(s, q, j - 1);
            }
            if q != k && q != last && as_map(s).contains_key(q) {
                let m = key_index(s, q);
                assert(m != s.len() - 1);
                assert(a[m + 1] == s[m]);
                lemma_found_at(a, q, m + 1);
            }
        }
        assert(as_map(a) =~= expected);
    }
}

/// The keys of the entries, in the order the entries stand.
pub open spec fn keys_of<V>(s: Seq<(Seq<char>, V)>) -> Seq<Seq<char>> {
    s.map_values(|e: (Seq<char>, V)| e.0)
}

/// A recency order once `k` was read: a present key moves to the front.
pub open spec fn moved_to_front(order: Seq<Seq<char>>, k: Seq<char>) -> Seq<Seq<char>> {
    if order.contains(k) {
        seq![k] + order.remove(order.index_of(k))
    } else {
        order
    }
}

/// A recency order once `k` was set: `k` goes to the front, and the keys
/// beyond the capacity at the back go.
pub open spec fn placed_in_front(order: Seq<Seq<char>>, k: Seq<char>, cap: nat) -> Seq<Seq<char>> {
    let placed = seq![k] + if order.contains(k) {
        order.remove(order.index_of(k))
    } else {
        order
    };
    if placed.len() > cap {
        placed.subrange(0, cap as int)
    } else {
        placed
    }
}

/// With distinct keys, the key sequence finds `k` where the entries do.
proof fn lemma_keys_index<V>(s: Seq<(Seq<char>, V)>, k: Seq<char>)
    requires
        keys_distinct(s),
    ensures
        keys_of(s).contains(k) == has_key(s, k),
        has_key(s, k) ==> keys_of(s).index_of(k) == key_index(s, k),
{
    let ks = keys_of(s);
    if has_key(s, k) {
        let i = key_index(s, k);
        assert(ks[i] == k);
        let j = ks.index_of(k);
        assert(s[j].0 == k);
    }
    if ks.contains(k) {
        let j = choose|j: int| 0 <= j < ks.len() && ks[j] == k;
        assert(s[j].0 == k);
    }
}

/// Reading moves the key to the front of the recency order.
proof fn lemma_keys_touched<V>(s: Seq<(Seq<char>, V)>, k: Seq<char>)
    requires
        keys_distinct(s),
    ensures
        keys_of(touched(s, k)) == moved_to_front(keys_of(s), k),
{
    lemma_keys_index(s, k);
    assert(keys_of(touched(s, k)) =~= moved_to_front(keys_of(s), k));
}

/// Setting places the key at the front of the recency order.
proof fn lemma_keys_after_set<V>(s: Seq<(Seq<char>, V)>, k: Seq<char>, v: V, cap: nat)
    requires
        keys_distinct(s),
    ensures
        keys_of(after_set(s, k, v, cap)) == placed_in_front(keys_of(s), k, cap),
{
    lemma_keys_index(s, k);
    assert(keys_of(after_set(s, k, v, cap)) =~= placed_in_front(keys_of(s), k, cap));
}

/// Entries each cache holds at most.
pub const CACHE_CAPACITY: usize = 1000;

/// Seconds for which a fetched payload is served from the cache.
pub const PAYLOAD_TTL_SECS: u64 = 300;

/// Upper bound on the capacity a cache can be made with.
pub const MAX_CAPACITY: usize = 1_000_000;

/// What the payload cache serves for `url` at second `now`: the payload
/// kept for it, while fewer than `ttl` seconds have passed since it was
/// fetched; nothing otherwise, which calls for a fetch.
pub open spec fn served(m: Map<Seq<char>, Stamped>, ttl: nat, url: Seq<char>, now: u64) -> Option<
    Option<Value>,
> {
    if m.contains_key(url) && now < m[url].0 + ttl {
        Some(m[url].1)
    } else {
        None
    }
}

/// Upstream payloads by URL, each with the second it was fetched at. An
/// entry older than the lifespan counts as absent; beyond the capacity the
/// least recently used entries go.
pub struct PayloadCache {
    entries: LruCache<String, Stamped>,
    lifespan: u64,
}

impl View for PayloadCache {
    type V = Map<Seq<char>, Stamped>;

    closed spec fn view(&self) -> Map<Seq<char>, Stamped> {
        as_map(payload_entries(self.entries))
    }
}

impl PayloadCache {
    pub closed spec fn wf(&self) -> bool {
        &&& keys_distinct(payload_entries(self.entries))
        &&& payload_entries(self.entries).len() <= payload_capacity(self.entries)
        &&& payload_capacity(self.entries) > 0
        &&& self@.len() <= payload_capacity(self.entries)
    }

    /// Entries the cache holds at most.
    pub closed spec fn capacity(&self) -> nat {
        payload_capacity(self.entries)
    }

    /// The keys held, most recently used first.
    pub closed spec fn order(&self) -> Seq<Seq<char>> {
        keys_of(payload_entries(self.entries))
    }

    /// A well-formed cache holds at most its capacity, and its recency order
    /// lists each key it holds once.
    pub proof fn lemma_bounded(&self)
        requires
            self.wf(),
        ensures
            self@.dom().finite(),
            self@.len() <= self.capacity(),
            self.order().no_duplicates(),
            self.order().to_set() == self@.dom(),
    {
        lemma_map_len_bound(payload_entries(self.entries));
    }

    /// Seconds for which an entry is served.
    pub closed spec fn ttl(&self) -> nat {
        self.lifespan as nat
    }

    /// A cache of the given capacity and lifespan in seconds.
    pub fn with_size_and_lifespan(size: usize, seconds: u64) -> (c: PayloadCache)
        requires
            0 < size <= MAX_CAPACITY,
        ensures
            c.wf(),
            c@ == Map::<Seq<char>, Stamped>::empty(),
            c.order() == Seq::<Seq<char>>::empty(),
            c.capacity() == size,
            c.ttl() == seconds,
    {
        let c = PayloadCache { entries: payload_cache_new(size), lifespan: seconds };
        assert(c@ =~= Map::<Seq<char>, Stamped>::empty());
        assert(c.order() =~= Seq::<Seq<char>>::empty());
        c
    }

    /// A cache of a thousand entries, each served for 300 seconds.
    pub fn new() -> (c: PayloadCache)
        ensures
            c.wf(),
            c@ == Map::<Seq<char>, Stamped>::empty(),
            c.capacity() == CACHE_CAPACITY,
            c.ttl() == PAYLOAD_TTL_SECS,
    {
        PayloadCache::with_size_and_lifespan(CACHE_CAPACITY, PAYLOAD_TTL_SECS)
    }

    /// The payload kept for `url`, if it is fresh at second `now`. `None`
    /// means that the caller fetches it and stores it with `insert`.
    pub fn get(&mut self, url: &String, now: u64) -> (r: Option<Option<Value>>)
        requires
            old(self).wf(),
        ensures
            final(self).wf(),
            final(self)@ == old(self)@,
            final(self).capacity() == old(self).capacity(),
            final(self).ttl() == old(self).ttl(),
            final(self).order() == moved_to_front(old(self).order(), url@),
            final(self)@.len() <= final(self).capacity(),
            r == served(old(self)@, old(self).ttl(), url@, now),
    {
        proof {
            lemma_touched(payload_entries(self.entries), url@);
            lemma_keys_touched(payload_entries(self.entries), url@);
        }
        let found = payload_cache_get(&mut self.entries, url);
        match found {
            Some((stamp, payload)) => {
                if (now as u128) < (stamp as u128) + (self.lifespan as u128) {
                    Some(payload)
                } else {
                    None
                }
            },
            None => None,
        }
    }

    /// Keeps `payload`, fetched at second `now`, for `url`. The entry
    /// becomes the most recently used; when the cache is full, the least
    /// recently used one gives way.
    pub fn insert(&mut self, url: String, payload: Option<Value>, now: u64)
        requires
            old(self).wf(),
        ensures
            final(self).wf(),
            final(self).capacity() == old(self).capacity(),
            final(self).ttl() == old(self).ttl(),
            final(self)@.contains_key(url@),
            final(self)@[url@] == (now, payload),
            forall|q: Seq<char>|
                q != url@ && #[trigger] final(self)@.contains_key(q) ==> old(self)@.contains_key(q)
                    && final(self)@[q] == old(self)@[q],
            old(self)@.contains_key(url@) || old(self)@.len() < old(self).capacity()
                ==> final(self)@ == old(self)@.insert(url@, (now, payload)),
            !old(self)@.contains_key(url@) && old(self)@.len() == old(self).capacity()
                ==> final(self)@ == old(self)@.insert(url@, (now, payload)).remove(
                old(self).order().last(),
            ),
            final(self).order() == placed_in_front(old(self).order(), url@, old(self).capacity()),
            final(self)@.len() <= final(self).capacity(),
    {
        let ghost s = payload_entries(self.entries);
        let ghost cap = payload_capacity(self.entries);
        proof {
            lemma_after_set(s, url@, (now, payload), cap);
            lemma_keys_after_set(s, url@, (now, payload), cap);
            lemma_map_len_bound(s);
            lemma_map_len_bound(after_set(s, url@, (now, payload), cap));
        }
        payload_cache_set(&mut self.entries, url, (now, payload));
    }
}

/// The mapping of a sequence of entries has no more keys than it has
/// entries, and as many where the keys are distinct.
proof fn lemma_map_len_bound<V>(s: Seq<(Seq<char>, V)>)
    ensures
        as_map(s).dom().finite(),
        as_map(s).len() <= s.len(),
        keys_of(s).to_set() == as_map(s).dom(),
        keys_distinct(s) ==> as_map(s).len() == s.len() && keys_of(s).no_duplicates(),
{
    let keys = keys_of(s);
    assert(as_map(s).dom() =~= keys.to_set()) by {
        assert forall|q: Seq<char>| #[trigger] as_map(s).dom().contains(q) == keys.to_set().contains(q) by {
            if as_map(s).dom().contains(q) {
                let i = key_index(s, q);
                assert(keys[i] == q);
            }
            if keys.to_set().contains(q) {
                let i = choose|i: int| 0 <= i < keys.len() && keys[i] == q;
                assert(s[i].0 == q);
            }
        }
    }
    keys.lemma_cardinality_of_set();
    if keys_distinct(s) {
        assert(keys.no_duplicates());
        keys.unique_seq_to_set();
    }
}

/// A payload kept at second `t` is served for its URL exactly while fewer
/// than the cache's lifespan of seconds have passed: until then a second
/// request makes no upstream call, and from then on it makes one.
pub proof fn lemma_served_until_expiry(
    c: PayloadCache,
    url: Seq<char>,
    payload: Option<Value>,
    t: u64,
    now: u64,
)
    requires
        c@.contains_key(url),
        c@[url] == (t, payload),
    ensures
        served(c@, c.ttl(), url, now) == (if now < t + c.ttl() {
            Some(payload)
        } else {
            None
        }),
{
}

/// The count after one more rendering, held at the largest `u64`.
pub open spec fn one_more(n: nat) -> nat {
    if n < u64::MAX {
        n + 1
    } else {
        n
    }
}

/// PNG images by the SVG document they were rendered from, with a count of
/// the renderings made. Beyond the capacity the least recently used go.
pub struct RasterCache {
    entries: LruCache<String, Vec<u8>>,
    renders: u64,
}

impl View for RasterCache {
    type V = Map<Seq<char>, Seq<u8>>;

    closed spec fn view(&self) -> Map<Seq<char>, Seq<u8>> {
        as_map(image_entries(self.entries))
    }
}

impl RasterCache {
    pub closed spec fn wf(&self) -> bool {
        &&& keys_distinct(image_entries(self.entries))
        &&& image_entries(self.entries).len() <= image_capacity(self.entries)
        &&& image_capacity(self.entries) > 0
        &&& self@.len() <= image_capacity(self.entries)
    }

    /// Entries the cache holds at most.
    pub closed spec fn capacity(&self) -> nat {
        image_capacity(self.entries)
    }

    /// The keys held, most recently used first.
    pub closed spec fn order(&self) -> Seq<Seq<char>> {
        keys_of(image_entries(self.entries))
    }

    /// A well-formed cache holds at most its capacity, and its recency order
    /// lists each key it holds once.
    pub proof fn lemma_bounded(&self)
        requires
            self.wf(),
        ensures
            self@.dom().finite(),
            self@.len() <= self.capacity(),
            self.order().no_duplicates(),
            self.order().to_set() == self@.dom(),
    {
        lemma_map_len_bound(image_entries(self.entries));
    }

    /// Renderings made through this cache.
    pub closed spec fn render_count(&self) -> nat {
        self.renders as nat
    }

    /// Whether `after` and `r` are what `rasterize` leaves and returns for
    /// `svg` on `before`: a kept image is handed out with no rendering;
    /// otherwise one rendering is made, and its image kept where it worked.
    pub open spec fn rasterized(
        before: RasterCache,
        after: RasterCache,
        svg: Seq<char>,
        r: Result<Vec<u8>, RenderFailure>,
    ) -> bool {
        if before@.contains_key(svg) {
            &&& r is Ok
            &&& r->Ok_0@ == before@[svg]
            &&& after@ == before@
            &&& after.render_count() == before.render_count()
        } else {
            &&& after.render_count() == one_more(before.render_count())
            &&& match r {
                Ok(png) => {
                    &&& png_signed(png@)
                    &&& after@.contains_key(svg)
                    &&& after@[svg] == png@
                    &&& forall|q: Seq<char>|
                        q != svg && #[trigger] after@.contains_key(q) ==> before@.contains_key(q)
                            && after@[q] == before@[q]
                },
                Err(_) => after@ == before@,
            }
        }
    }

    /// A cache of the given capacity.
    pub fn with_size(size: usize) -> (c: RasterCache)
        requires
            0 < size <= MAX_CAPACITY,
        ensures
            c.wf(),
            c@ == Map::<Seq<char>, Seq<u8>>::empty(),
            c.order() == Seq::<Seq<char>>::empty(),
            c.capacity() == size,
            c.render_count() == 0,
    {
        let c = RasterCache { entries: image_cache_new(size), renders: 0 };
        assert(c@ =~= Map::<Seq<char>, Seq<u8>>::empty());
        assert(c.order() =~= Seq::<Seq<char>>::empty());
        c
    }

    /// A cache of a thousand images.
    pub fn new() -> (c: RasterCache)
        ensures
            c.wf(),
            c@ == Map::<Seq<char>, Seq<u8>>::empty(),
            c.capacity() == CACHE_CAPACITY,
            c.render_count() == 0,
    {
        RasterCache::with_size(CACHE_CAPACITY)
    }

    /// Renderings made through this cache.
    pub fn renders(&self) -> (r: u64)
        ensures
            r == self.render_count(),
    {
        self.renders
    }

    /// The image kept for `svg`, if any.
    pub fn lookup(&mut self, svg: &String) -> (r: Option<Vec<u8>>)
        requires
            old(self).wf(),
        ensures
            final(self).wf(),
            final(self)@ == old(self)@,
            final(self).capacity() == old(self).capacity(),
            final(self).render_count() == old(self).render_count(),
            match r {
                Some(png) => old(self)@.contains_key(svg@) && old(self)@[svg@] == png@,
                None => !old(self)@.contains_key(svg@),
            },
            final(self).order() == moved_to_front(old(self).order(), svg@),
            final(self)@.len() <= final(self).capacity(),
    {
        proof {
            lemma_touched(image_entries(self.entries), svg@);
            lemma_keys_touched(image_entries(self.entries), svg@);
        }
        image_cache_get(&mut self.entries, svg)
    }

    /// Keeps `png` as the image of `svg`. The entry becomes the most recently
    /// used; when the cache is full, the least recently used one gives way.
    pub fn store(&mut self, svg: String, png: Vec<u8>)
        requires
            old(self).wf(),
        ensures
            final(self).wf(),
            final(self).capacity() == old(self).capacity(),
            final(self).render_count() == old(self).render_count(),
            final(self)@.contains_key(svg@),
            final(self)@[svg@] == png@,
            forall|q: Seq<char>|
                q != svg@ && #[trigger] final(self)@.contains_key(q) ==> old(self)@.contains_key(q)
                    && final(self)@[q] == old(self)@[q],
            old(self)@.contains_key(svg@) || old(self)@.len() < old(self).capacity()
                ==> final(self)@ == old(self)@.insert(svg@, png@),
            !old(self)@.contains_key(svg@) && old(self)@.len() == old(self).capacity()
                ==> final(self)@ == old(self)@.insert(svg@, png@).remove(old(self).order().last()),
            final(self).order() == placed_in_front(old(self).order(), svg@, old(self).capacity()),
            final(self)@.len() <= final(self).capacity(),
    {
        let ghost s = image_entries(self.entries);
        let ghost cap = image_capacity(self.entries);
        proof {
            lemma_after_set(s, svg@, png@, cap);
            lemma_keys_after_set(s, svg@, png@, cap);
            lemma_map_len_bound(s);
            lemma_map_len_bound(after_set(s, svg@, png@, cap));
        }
        image_cache_set(&mut self.entries, svg, png);
    }

    /// The PNG image of `svg`: the kept one if there is one, else a new
    /// rendering with the fonts of `fonts`, kept where it worked.
    pub fn rasterize(&mut self, svg: &String, fonts: &Options) -> (r: Result<Vec<u8>, RenderFailure>)
        requires
            old(self).wf(),
        ensures
            final(self).wf(),
            final(self).capacity() == old(self).capacity(),
            RasterCache::rasterized(*old(self), *final(self), svg@, r),
    {
        match self.lookup(svg) {
            Some(png) => Ok(png),
            None => {
                if self.renders < u64::MAX {
                    self.renders = self.renders + 1;
                }
                match to_raster(svg.as_str(), fonts) {
                    Ok(png) => {
                        let kept = png.clone();
                        self.store(svg.clone(), kept);
                        Ok(png)
                    },
                    Err(e) => Err(e),
                }
            },
        }
    }
}

/// Asking twice for the image of the same SVG document gives the same bytes,
/// and the second time renders nothing.
pub proof fn lemma_second_rasterize_cached(
    c0: RasterCache,
    c1: RasterCache,
    c2: RasterCache,
    svg: Seq<char>,
    r1: Result<Vec<u8>, RenderFailure>,
    r2: Result<Vec<u8>, RenderFailure>,
)
    requires
        RasterCache::rasterized(c0, c1, svg, r1),
        r1 is Ok,
        RasterCache::rasterized(c1, c2, svg, r2),
    ensures
        r2 is Ok,
        r2->Ok_0@ == r1->Ok_0@,
        c2.render_count() == c1.render_count(),
        c2@ == c1@,
{
}

} // verus!
