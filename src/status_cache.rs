//! A bounded cache from report identifier to (owner, status), evicting the
//! least recently used entry when it is full.
//!
//! The entries are modelled as a sequence ordered from least to most recently
//! used, each key at most once.

use lru::LruCache;
use std::collections::hash_map::RandomState;
use std::num::NonZeroUsize;
use vstd::prelude::*;

use crate::report_status::ReportStatus;

verus! {

/// lru::LruCache, held opaque: its contents are seen through `lru_entries`.
#[verifier::external_type_specification]
#[verifier::external_body]
#[verifier::reject_recursive_types(K)]
#[verifier::reject_recursive_types(V)]
#[verifier::reject_recursive_types(S)]
pub struct ExLruCache<K, V, S>(LruCache<K, V, S>);

/// The entries of an LRU cache, from least to most recently used.
pub uninterp spec fn lru_entries(cache: LruCache<u128, (u128, ReportStatus), RandomState>) -> Seq<
    (u128, (u128, ReportStatus)),
>;

/// The capacity an LRU cache was created with.
pub uninterp spec fn lru_capacity(cache: LruCache<u128, (u128, ReportStatus), RandomState>) -> nat;

/// Whether some entry of `s` has key `k`.
pub open spec fn has_key<V>(s: Seq<(u128, V)>, k: u128) -> bool {
    exists|i: int| 0 <= i < s.len() && #[trigger] s[i].0 == k
}

/// The position of the entry with key `k` in `s`, when there is one.
pub open spec fn key_index<V>(s: Seq<(u128, V)>, k: u128) -> int {
    choose|i: int| 0 <= i < s.len() && #[trigger] s[i].0 == k
}

/// No key occurs twice in `s`.
pub open spec fn keys_unique<V>(s: Seq<(u128, V)>) -> bool {
    forall|i: int, j: int|
        0 <= i < s.len() && 0 <= j < s.len() && #[trigger] s[i].0 == #[trigger] s[j].0 ==> i == j
}

/// A well-formed cache content for capacity `cap`.
pub open spec fn cache_wf<V>(s: Seq<(u128, V)>, cap: nat) -> bool {
    0 < cap && s.len() <= cap && keys_unique(s)
}

/// The value stored under `k`, if any.
pub open spec fn cache_lookup<V>(s: Seq<(u128, V)>, k: u128) -> Option<V> {
    if has_key(s, k) {
        Some(s[key_index(s, k)].1)
    } else {
        None
    }
}

/// The entries after reading `k`: a present entry becomes the most recently used.
pub open spec fn after_get<V>(s: Seq<(u128, V)>, k: u128) -> Seq<(u128, V)> {
    if has_key(s, k) {
        s.remove(key_index(s, k)).push(s[key_index(s, k)])
    } else {
        s
    }
}

/// The entries after pushing `(k, v)` into a cache of capacity `cap`: an entry
/// with key `k` is replaced; otherwise, when the cache is full, the least
/// recently used entry is evicted. The new entry is the most recently used.
pub open spec fn after_push<V>(s: Seq<(u128, V)>, cap: nat, k: u128, v: V) -> Seq<(u128, V)> {
    if has_key(s, k) {
        s.remove(key_index(s, k)).push((k, v))
    } else if s.len() == cap {
        s.drop_first().push((k, v))
    } else {
        s.push((k, v))
    }
}

/// The entry that pushing `(k, v)` displaces: the old entry under `k`, or the
/// evicted least recently used entry.
pub open spec fn pushed_out<V>(s: Seq<(u128, V)>, cap: nat, k: u128) -> Option<(u128, V)> {
    if has_key(s, k) {
        Some((k, s[key_index(s, k)].1))
    } else if s.len() == cap {
        Some(s[0])
    } else {
        None
    }
}

/// Relies on lru::LruCache::with_hasher: an empty cache holding at most `cap` entries.
#[verifier::external_body]
fn lru_new(cap: usize) -> (r: LruCache<u128, (u128, ReportStatus), RandomState>)
    requires
        cap > 0,
    ensures
        lru_entries(r) == Seq::<(u128, (u128, ReportStatus))>::empty(),
        lru_capacity(r) == cap,
{
    LruCache::with_hasher(NonZeroUsize::new(cap).unwrap(), RandomState::new())
}

/// Relies on lru::LruCache::push: replaces the entry under the key or evicts the
/// least recently used one when full, and returns what was displaced.
#[verifier::external_body]
fn lru_push(
    cache: &mut LruCache<u128, (u128, ReportStatus), RandomState>,
    k: u128,
    v: (u128, ReportStatus),
) -> (r: Option<(u128, (u128, ReportStatus))>)
    requires
        cache_wf(lru_entries(*old(cache)), lru_capacity(*old(cache))),
    ensures
        lru_entries(*final(cache)) == after_push(
            lru_entries(*old(cache)),
            lru_capacity(*old(cache)),
            k,
            v,
        ),
        lru_capacity(*final(cache)) == lru_capacity(*old(cache)),
        r == pushed_out(lru_entries(*old(cache)), lru_capacity(*old(cache)), k),
{
    cache.push(k, v)
}

/// Relies on lru::LruCache::get: the value under the key, which becomes the most
/// recently used entry.
#[verifier::external_body]
fn lru_get(cache: &mut LruCache<u128, (u128, ReportStatus), RandomState>, k: u128) -> (r: Option<
    (u128, ReportStatus),
>)
    requires
        cache_wf(lru_entries(*old(cache)), lru_capacity(*old(cache))),
    ensures
        lru_entries(*final(cache)) == after_get(lru_entries(*old(cache)), k),
        lru_capacity(*final(cache)) == lru_capacity(*old(cache)),
        r == cache_lookup(lru_entries(*old(cache)), k),
{
    cache.get(&k).copied()
}

/// The capacity the report status cache is given by default.
pub const DEFAULT_CAPACITY: usize = 200;

/// A bounded least-recently-used map from report identifier to (owner, status).
pub struct StatusCache {
    cache: LruCache<u128, (u128, ReportStatus), RandomState>,
}

impl View for StatusCache {
    type V = Seq<(u128, (u128, ReportStatus))>;

    closed spec fn view(&self) -> Seq<(u128, (u128, ReportStatus))> {
        lru_entries(self.cache)
    }
}

impl StatusCache {
    /// The most entries the cache holds.
    pub closed spec fn capacity(&self) -> nat {
        lru_capacity(self.cache)
    }

    /// Within capacity, each key at most once.
    pub open spec fn wf(&self) -> bool {
        cache_wf(self@, self.capacity())
    }

    /// An empty cache holding at most `capacity` entries.
    pub fn new(capacity: usize) -> (r: StatusCache)
        requires
            capacity > 0,
        ensures
            r.wf(),
            r@ == Seq::<(u128, (u128, ReportStatus))>::empty(),
            r.capacity() == capacity,
    {
        StatusCache { cache: lru_new(capacity) }
    }

    /// The (owner, status) cached for `report_id`; a hit becomes the most
    /// recently used entry.
    pub fn get(&mut self, report_id: u128) -> (r: Option<(u128, ReportStatus)>)
        requires
            old(self).wf(),
        ensures
            final(self).wf(),
            final(self).capacity() == old(self).capacity(),
            final(self)@ == after_get(old(self)@, report_id),
            r == cache_lookup(old(self)@, report_id),
    {
        let r = lru_get(&mut self.cache, report_id);
        proof {
            lemma_after_get_wf(lru_entries(self.cache), self.capacity(), report_id);
        }
        r
    }

    /// Inserts or overwrites the entry for `report_id`, evicting the least
    /// recently used entry when the cache is full.
    pub fn put(&mut self, report_id: u128, owner: u128, status: ReportStatus)
        requires
            old(self).wf(),
        ensures
            final(self).wf(),
            final(self).capacity() == old(self).capacity(),
            final(self)@ == after_push(old(self)@, old(self).capacity(), report_id, (owner, status)),
    {
        proof {
            lemma_after_push_wf(self@, self.capacity(), report_id, (owner, status));
        }
        let _ = lru_push(&mut self.cache, report_id, (owner, status));
    }
}

/// Pushing a new key into a full cache evicts exactly the least recently used
/// entry: it is the one handed back, its key is gone, and every other entry stays.
pub proof fn lemma_full_push_evicts_least_recent<V>(s: Seq<(u128, V)>, cap: nat, k: u128, v: V)
    requires
        cache_wf(s, cap),
        s.len() == cap,
        !has_key(s, k),
    ensures
        pushed_out(s, cap, k) == Some(s[0]),
        after_push(s, cap, k, v) == s.drop_first().push((k, v)),
        !has_key(after_push(s, cap, k, v), s[0].0),
        forall|i: int| 1 <= i < s.len() ==> has_key(after_push(s, cap, k, v), #[trigger] s[i].0),
{
    let t = after_push(s, cap, k, v);
    assert forall|i: int| 1 <= i < s.len() implies has_key(t, #[trigger] s[i].0) by {
        assert(t[i - 1] == s[i]);
    }
    if has_key(t, s[0].0) {
        let j = choose|j: int| 0 <= j < t.len() && #[trigger] t[j].0 == s[0].0;
        if j < t.len() - 1 {
            assert(t[j] == s[j + 1]);
        }
    }
}

/// Reading an entry protects it: after a `get` of a present key, pushing a new
/// key into a cache of capacity two or more keeps that entry.
pub proof fn lemma_get_protects_from_eviction<V>(
    s: Seq<(u128, V)>,
    cap: nat,
    k: u128,
    k2: u128,
    v: V,
)
    requires
        cache_wf(s, cap),
        cap >= 2,
        has_key(s, k),
        !has_key(s, k2),
    ensures
        has_key(after_push(after_get(s, k), cap, k2, v), k),
        cache_lookup(after_push(after_get(s, k), cap, k2, v), k) == cache_lookup(s, k),
{
    lemma_after_get_wf(s, cap, k);
    let g = after_get(s, k);
    let i = key_index(s, k);
    assert(g[g.len() - 1] == s[i]);
    assert(!has_key(g, k2)) by {
        if has_key(g, k2) {
            let j = key_index(g, k2);
            if j < g.len() - 1 {
                let sj = if j < i { j } else { j + 1 };
                assert(g[j] == s[sj]);
            }
        }
    }
    lemma_after_push_wf(g, cap, k2, v);
    let t = after_push(g, cap, k2, v);
    if g.len() == cap {
        assert(t[t.len() - 2] == g[g.len() - 1]);
        assert(has_key(t, k));
        assert(t[key_index(t, k)].0 == k);
        assert(key_index(t, k) == t.len() - 2);
    } else {
        assert(t[t.len() - 2] == g[g.len() - 1]);
        assert(has_key(t, k));
        assert(key_index(t, k) == t.len() - 2);
    }
}

/// After pushing `(k, v)` the cache is well formed and holds `v` under `k`.
pub proof fn lemma_lookup_after_push<V>(s: Seq<(u128, V)>, cap: nat, k: u128, v: V)
    requires
        cache_wf(s, cap),
    ensures
        cache_wf(after_push(s, cap, k, v), cap),
        cache_lookup(after_push(s, cap, k, v), k) == Some(v),
{
    lemma_after_push_wf(s, cap, k, v);
    let t = after_push(s, cap, k, v);
    assert(t[t.len() - 1] == (k, v));
    assert(t[t.len() - 1].0 == k);
    assert(has_key(t, k));
    assert(key_index(t, k) == t.len() - 1);
}

/// Reading `k` keeps the cache well formed and keeps the value under `k`.
pub proof fn lemma_lookup_after_get<V>(s: Seq<(u128, V)>, cap: nat, k: u128)
    requires
        cache_wf(s, cap),
    ensures
        cache_wf(after_get(s, k), cap),
        cache_lookup(after_get(s, k), k) == cache_lookup(s, k),
{
    lemma_after_get_wf(s, cap, k);
    if has_key(s, k) {
        let t = after_get(s, k);
        assert(t[t.len() - 1] == s[key_index(s, k)]);
        assert(t[t.len() - 1].0 == k);
        assert(has_key(t, k));
        assert(key_index(t, k) == t.len() - 1);
    }
}

proof fn lemma_after_get_wf<V>(s: Seq<(u128, V)>, cap: nat, k: u128)
    requires
        cache_wf(s, cap),
    ensures
        cache_wf(after_get(s, k), cap),
{
    if has_key(s, k) {
        let i = key_index(s, k);
        let t = after_get(s, k);
        assert forall|a: int, b: int|
            0 <= a < t.len() && 0 <= b < t.len() && #[trigger] t[a].0 == #[trigger] t[b].0 implies a
            == b by {
            let ia = if a == t.len() - 1 { i } else if a < i { a } else { a + 1 };
            let ib = if b == t.len() - 1 { i } else if b < i { b } else { b + 1 };
            assert(t[a] == s[ia]);
            assert(t[b] == s[ib]);
        }
    }
}

proof fn lemma_after_push_wf<V>(s: Seq<(u128, V)>, cap: nat, k: u128, v: V)
    requires
        cache_wf(s, cap),
    ensures
        cache_wf(after_push(s, cap, k, v), cap),
{
    let t = after_push(s, cap, k, v);
    if has_key(s, k) {
        let i = key_index(s, k);
        assert forall|a: int, b: int|
            0 <= a < t.len() && 0 <= b < t.len() && #[trigger] t[a].0 == #[trigger] t[b].0 implies a
            == b by {
            if a != t.len() - 1 && b != t.len() - 1 {
                let ia = if a < i { a } else { a + 1 };
                let ib = if b < i { b } else { b + 1 };
                assert(t[a] == s[ia]);
                assert(t[b] == s[ib]);
            } else if a != t.len() - 1 {
                let ia = if a < i { a } else { a + 1 };
                assert(t[a] == s[ia]);
            } else if b != t.len() - 1 {
                let ib = if b < i { b } else { b + 1 };
                assert(t[b] == s[ib]);
            }
        }
    } else if s.len() == cap {
        assert forall|a: int, b: int|
            0 <= a < t.len() && 0 <= b < t.len() && #[trigger] t[a].0 == #[trigger] t[b].0 implies a
            == b by {
            if a != t.len() - 1 {
                assert(t[a] == s[a + 1]);
            }
            if b != t.len() - 1 {
                assert(t[b] == s[b + 1]);
            }
        }
    } else {
        assert forall|a: int, b: int|
            0 <= a < t.len() && 0 <= b < t.len() && #[trigger] t[a].0 == #[trigger] t[b].0 implies a
            == b by {
            if a != t.len() - 1 {
                assert(t[a] == s[a]);
            }
            if b != t.len() - 1 {
                assert(t[b] == s[b]);
            }
        }
    }
}

} // verus!
