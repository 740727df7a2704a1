//! Decoded frames by source and time, the least recently used leaving first.
use crate::io::slot_pool::{releases, FrameSlotId, FrameSlotPool};
use crate::timeline::{DecodedFrameMeta, SourceId};
use dashmap::DashMap;
use lru::LruCache;
use std::num::NonZeroUsize;
use vstd::prelude::*;

verus! {

/// `dashmap::DashMap`.
#[verifier::external_type_specification]
#[verifier::external_body]
#[verifier::reject_recursive_types(K)]
#[verifier::reject_recursive_types(V)]
#[verifier::reject_recursive_types(S)]
pub struct ExDashMap<K, V, S>(DashMap<K, V, S>);

/// `lru::LruCache`.
#[verifier::external_type_specification]
#[verifier::external_body]
#[verifier::reject_recursive_types(K)]
#[verifier::reject_recursive_types(V)]
#[verifier::reject_recursive_types(S)]
pub struct ExLruCache<K, V, S>(LruCache<K, V, S>);

/// `lru::DefaultHasher`, the hasher of a `LruCache` that names none.
#[verifier::external_type_specification]
#[verifier::external_body]
pub struct ExDefaultHasher(lru::DefaultHasher);

/// The entries of an index.
pub uninterp spec fn index_entries(index: DashMap<(u32, i64), (FrameSlotId, DecodedFrameMeta)>) -> Map<
    (u32, i64),
    (FrameSlotId, DecodedFrameMeta),
>;

/// The keys of a recency list, least recently used first.
pub uninterp spec fn lru_order(lru: LruCache<(u32, i64), ()>) -> Seq<(u32, i64)>;

/// The most keys a recency list holds.
pub uninterp spec fn lru_capacity(lru: LruCache<(u32, i64), ()>) -> nat;

/// The test that every key but `key` passes.
pub open spec fn other_than(key: (u32, i64)) -> spec_fn((u32, i64)) -> bool {
    |k: (u32, i64)| k != key
}

/// The test that the keys outside `keys` pass.
pub open spec fn not_among(keys: Seq<(u32, i64)>) -> spec_fn((u32, i64)) -> bool {
    |k: (u32, i64)| !keys.contains(k)
}

/// The test that the keys of other sources pass.
pub open spec fn not_of_source(source: u32) -> spec_fn((u32, i64)) -> bool {
    |k: (u32, i64)| k.0 != source
}

/// `keys` without the occurrences of `key`.
pub open spec fn without(keys: Seq<(u32, i64)>, key: (u32, i64)) -> Seq<(u32, i64)> {
    keys.filter(other_than(key))
}

/// The index of an empty cache.
pub open spec fn no_entries() -> Map<(u32, i64), (FrameSlotId, DecodedFrameMeta)> {
    Map::empty()
}

/// `DashMap::new`: a map without entries.
#[verifier::external_body]
fn index_new() -> (r: DashMap<(u32, i64), (FrameSlotId, DecodedFrameMeta)>)
    ensures
        index_entries(r) == no_entries(),
{
    DashMap::new()
}

/// `DashMap::insert`: the key holds the value afterwards, whatever it held before.
#[verifier::external_body]
fn index_insert(
    index: &mut DashMap<(u32, i64), (FrameSlotId, DecodedFrameMeta)>,
    key: (u32, i64),
    value: (FrameSlotId, DecodedFrameMeta),
)
    ensures
        index_entries(*final(index)) == index_entries(*old(index)).insert(key, value),
{
    index.insert(key, value);
}

/// `DashMap::remove`: takes the key's entry out and returns its value, if there was one.
#[verifier::external_body]
fn index_remove(
    index: &mut DashMap<(u32, i64), (FrameSlotId, DecodedFrameMeta)>,
    key: (u32, i64),
) -> (r: Option<(FrameSlotId, DecodedFrameMeta)>)
    ensures
        index_entries(*final(index)) == index_entries(*old(index)).remove(key),
        r == if index_entries(*old(index)).dom().contains(key) {
            Some(index_entries(*old(index))[key])
        } else {
            None
        },
{
    index.remove(&key).map(|entry| entry.1)
}

/// `DashMap::get`: the value of the key, if it has one.
#[verifier::external_body]
fn index_get(index: &DashMap<(u32, i64), (FrameSlotId, DecodedFrameMeta)>, key: (u32, i64)) -> (r: Option<
    (FrameSlotId, DecodedFrameMeta),
>)
    ensures
        r == if index_entries(*index).dom().contains(key) {
            Some(index_entries(*index)[key])
        } else {
            None
        },
{
    index.get(&key).map(|entry| *entry)
}

/// `DashMap::len`: the number of entries.
#[verifier::external_body]
fn index_len(index: &DashMap<(u32, i64), (FrameSlotId, DecodedFrameMeta)>) -> (r: usize)
    ensures
        index_entries(*index).dom().finite() ==> r == index_entries(*index).dom().len(),
{
    index.len()
}

/// `DashMap::iter`, handing out the keys: each key of the map once, in no stated order.
#[verifier::external_body]
fn index_keys(index: &DashMap<(u32, i64), (FrameSlotId, DecodedFrameMeta)>) -> (r: Vec<(u32, i64)>)
    ensures
        r@.no_duplicates(),
        forall|key: (u32, i64)| #[trigger]
            r@.contains(key) <==> index_entries(*index).dom().contains(key),
{
    index.iter().map(|entry| *entry.key()).collect()
}

/// `LruCache::new`: an empty list that holds at most `capacity` keys.  Above the bound
/// in the `requires` its table would not fit the address space.
#[verifier::external_body]
fn lru_new(capacity: usize) -> (r: LruCache<(u32, i64), ()>)
    requires
        0 < capacity <= usize::MAX / 128,
    ensures
        lru_order(r) == Seq::<(u32, i64)>::empty(),
        lru_capacity(r) == capacity,
{
    LruCache::new(NonZeroUsize::new(capacity).unwrap())
}

/// `LruCache::push`: the key becomes the most recently used.  Returned is the key itself
/// if it was there already, else the least recently used key if it had to make room.
#[verifier::external_body]
fn lru_push(lru: &mut LruCache<(u32, i64), ()>, key: (u32, i64)) -> (r: Option<(u32, i64)>)
    ensures
        lru_capacity(*final(lru)) == lru_capacity(*old(lru)),
        ({
            let keys = lru_order(*old(lru));
            if keys.contains(key) {
                r == Some(key) && lru_order(*final(lru)) == without(keys, key).push(key)
            } else if keys.len() > 0 && keys.len() == lru_capacity(*old(lru)) {
                r == Some(keys[0]) && lru_order(*final(lru)) == keys.drop_first().push(key)
            } else {
                r is None && lru_order(*final(lru)) == keys.push(key)
            }
        }),
{
    lru.push(key, ()).map(|entry| entry.0)
}

/// `LruCache::promote`: the key, if present, becomes the most recently used.
#[verifier::external_body]
fn lru_promote(lru: &mut LruCache<(u32, i64), ()>, key: (u32, i64))
    ensures
        lru_capacity(*final(lru)) == lru_capacity(*old(lru)),
        lru_order(*final(lru)) == if lru_order(*old(lru)).contains(key) {
            without(lru_order(*old(lru)), key).push(key)
        } else {
            lru_order(*old(lru))
        },
{
    lru.promote(&key);
}

/// `LruCache::pop_lru`: takes the least recently used key out, if there is any key.
#[verifier::external_body]
fn lru_pop_lru(lru: &mut LruCache<(u32, i64), ()>) -> (r: Option<(u32, i64)>)
    ensures
        lru_capacity(*final(lru)) == lru_capacity(*old(lru)),
        lru_order(*old(lru)).len() == 0 ==> r is None && lru_order(*final(lru)) == lru_order(
            *old(lru),
        ),
        lru_order(*old(lru)).len() > 0 ==> r == Some(lru_order(*old(lru))[0]) && lru_order(
            *final(lru),
        ) == lru_order(*old(lru)).drop_first(),
{
    lru.pop_lru().map(|entry| entry.0)
}

/// `LruCache::pop`: takes the key out, if it is there.
#[verifier::external_body]
fn lru_pop(lru: &mut LruCache<(u32, i64), ()>, key: (u32, i64))
    ensures
        lru_capacity(*final(lru)) == lru_capacity(*old(lru)),
        lru_order(*final(lru)) == without(lru_order(*old(lru)), key),
{
    lru.pop(&key);
}

/// `LruCache::clear`: takes every key out.
#[verifier::external_body]
fn lru_clear(lru: &mut LruCache<(u32, i64), ()>)
    ensures
        lru_capacity(*final(lru)) == lru_capacity(*old(lru)),
        lru_order(*final(lru)) == Seq::<(u32, i64)>::empty(),
{
    lru.clear();
}

/// Indices of the slots of tier `t` among `ids`, in order.
pub open spec fn indices_of(ids: Seq<FrameSlotId>, t: int) -> Seq<u16>
    decreases ids.len(),
{
    if ids.len() == 0 {
        Seq::empty()
    } else {
        let rest = indices_of(ids.drop_last(), t);
        if ids.last().tier == t {
            rest.push(ids.last().index)
        } else {
            rest
        }
    }
}

/// `after` is `before` with the slots `ids` released one after the other.
pub open spec fn releases_all(
    before: FrameSlotPool,
    after: FrameSlotPool,
    ids: Seq<FrameSlotId>,
) -> bool {
    &&& after.tiers().len() == before.tiers().len()
    &&& forall|t: int|
        0 <= t < before.tiers().len() ==> {
            &&& (#[trigger] after.tiers()[t]).slot_size() == before.tiers()[t].slot_size()
            &&& after.tiers()[t].buffers() == before.tiers()[t].buffers()
            &&& after.tiers()[t].free() == before.tiers()[t].free() + indices_of(ids, t)
        }
}

pub proof fn lemma_releases_none(pool: FrameSlotPool)
    ensures
        releases_all(pool, pool, Seq::empty()),
{
    assert forall|t: int| 0 <= t < pool.tiers().len() implies (#[trigger] pool.tiers()[t]).free()
        == pool.tiers()[t].free() + indices_of(Seq::empty(), t) by {
        assert(pool.tiers()[t].free() + Seq::<u16>::empty() =~= pool.tiers()[t].free());
    }
}

pub proof fn lemma_releases_one_more(
    before: FrameSlotPool,
    between: FrameSlotPool,
    after: FrameSlotPool,
    ids: Seq<FrameSlotId>,
    id: FrameSlotId,
)
    requires
        releases_all(before, between, ids),
        releases(between, after, id),
        id.tier < before.tiers().len(),
    ensures
        releases_all(before, after, ids.push(id)),
{
    assert(ids.push(id).drop_last() =~= ids);
    assert forall|t: int| 0 <= t < before.tiers().len() implies {
        &&& (#[trigger] after.tiers()[t]).slot_size() == before.tiers()[t].slot_size()
        &&& after.tiers()[t].buffers() == before.tiers()[t].buffers()
        &&& after.tiers()[t].free() == before.tiers()[t].free() + indices_of(ids.push(id), t)
    } by {
        assert(between.tiers()[t].free() == before.tiers()[t].free() + indices_of(ids, t));
        if t == id.tier {
            assert(after.tiers()[t].free() =~= before.tiers()[t].free() + indices_of(ids, t).push(
                id.index,
            ));
        }
    }
}

/// Filtering twice keeps what passes both tests.
proof fn lemma_filter_twice(
    s: Seq<(u32, i64)>,
    p: spec_fn((u32, i64)) -> bool,
    q: spec_fn((u32, i64)) -> bool,
    r: spec_fn((u32, i64)) -> bool,
)
    requires
        forall|k: (u32, i64)| #[trigger] r(k) <==> p(k) && q(k),
    ensures
        s.filter(p).filter(q) == s.filter(r),
    decreases s.len(),
{
    reveal(Seq::filter);
    if s.len() > 0 {
        lemma_filter_twice(s.drop_last(), p, q, r);
        let t = s.drop_last().filter(p);
        assert(t.push(s.last()).drop_last() =~= t);
        assert(r(s.last()) <==> p(s.last()) && q(s.last()));
    } else {
        assert(s.filter(p) =~= Seq::empty());
    }
}

/// A test that everything passes filters nothing out.
proof fn lemma_filter_all(s: Seq<(u32, i64)>, p: spec_fn((u32, i64)) -> bool)
    requires
        forall|k: (u32, i64)| s.contains(k) ==> #[trigger] p(k),
    ensures
        s.filter(p) == s,
    decreases s.len(),
{
    reveal(Seq::filter);
    if s.len() > 0 {
        assert forall|k: (u32, i64)| s.drop_last().contains(k) implies #[trigger] p(k) by {
            let i = choose|i: int| 0 <= i < s.drop_last().len() && s.drop_last()[i] == k;
            assert(s[i] == k);
        }
        lemma_filter_all(s.drop_last(), p);
        assert(s.contains(s.last()));
        assert(s.drop_last().push(s.last()) =~= s);
    }
}

/// What a filter keeps: the elements that pass, still in order and still distinct.
proof fn lemma_filter_keys(s: Seq<(u32, i64)>, p: spec_fn((u32, i64)) -> bool)
    ensures
        forall|k: (u32, i64)| #[trigger] s.filter(p).contains(k) <==> s.contains(k) && p(k),
        s.no_duplicates() ==> s.filter(p).no_duplicates(),
        s.filter(p).len() <= s.len(),
        forall|k: (u32, i64)| s.contains(k) && !p(k) ==> s.filter(p).len() < s.len(),
    decreases s.len(),
{
    reveal(Seq::filter);
    if s.len() > 0 {
        let t = s.drop_last();
        lemma_filter_keys(t, p);
        let f = t.filter(p);
        assert forall|k: (u32, i64)| #[trigger]
            s.filter(p).contains(k) <==> s.contains(k) && p(k) by {
            if s.contains(k) {
                let i = choose|i: int| 0 <= i < s.len() && s[i] == k;
                if i < s.len() - 1 {
                    assert(t[i] == k);
                    assert(t.contains(k));
                    if p(k) {
                        assert(f.contains(k));
                        let j = choose|j: int| 0 <= j < f.len() && f[j] == k;
                        assert(s.filter(p)[j] == k);
                    }
                } else if p(k) {
                    assert(s.filter(p)[f.len() as int] == k);
                }
            }
            if s.filter(p).contains(k) {
                let j = choose|j: int| 0 <= j < s.filter(p).len() && s.filter(p)[j] == k;
                if j < f.len() {
                    assert(f[j] == k);
                    assert(f.contains(k));
                    let i = choose|i: int| 0 <= i < t.len() && t[i] == k;
                    assert(s[i] == k);
                } else {
                    assert(s[s.len() - 1] == k);
                }
            }
        }
        if s.no_duplicates() {
            assert(t.no_duplicates());
            if p(s.last()) {
                assert(!t.contains(s.last()));
                assert(!f.contains(s.last()));
            }
        }
        assert forall|k: (u32, i64)| s.contains(k) && !p(k) implies s.filter(p).len() < s.len() by {
            let i = choose|i: int| 0 <= i < s.len() && s[i] == k;
            if i < s.len() - 1 {
                assert(t[i] == k);
                assert(t.contains(k));
            }
        }
    }
}

/// Cached frames: the slot each lies in, and how its pixels are laid out and coloured.
pub struct FrameCache {
    index: DashMap<(u32, i64), (FrameSlotId, DecodedFrameMeta)>,
    lru: LruCache<(u32, i64), ()>,
}

impl FrameCache {
    pub closed spec fn entries(&self) -> Map<(u32, i64), (FrameSlotId, DecodedFrameMeta)> {
        index_entries(self.index)
    }

    /// The cached keys, least recently used first.
    pub closed spec fn order(&self) -> Seq<(u32, i64)> {
        lru_order(self.lru)
    }

    pub closed spec fn capacity(&self) -> nat {
        lru_capacity(self.lru)
    }

    /// Index and recency list hold the same keys, no more of them than the capacity, and
    /// every frame lies in one of the four tiers.
    pub open spec fn wf(&self) -> bool {
        &&& self.capacity() > 0
        &&& self.order().no_duplicates()
        &&& self.order().len() <= self.capacity()
        &&& forall|k: (u32, i64)| #[trigger]
            self.entries().dom().contains(k) <==> self.order().contains(k)
        &&& forall|k: (u32, i64)|
            self.entries().dom().contains(k) ==> (#[trigger] self.entries()[k]).0.tier < 4
    }

    /// The cached value of a key.
    pub open spec fn lookup(&self, key: (u32, i64)) -> Option<(FrameSlotId, DecodedFrameMeta)> {
        if self.entries().dom().contains(key) {
            Some(self.entries()[key])
        } else {
            None
        }
    }

    /// The key that has to leave when `key` is inserted.
    pub open spec fn displaced(&self, key: (u32, i64)) -> Option<(u32, i64)> {
        if self.order().contains(key) {
            Some(key)
        } else if self.order().len() == self.capacity() {
            Some(self.order()[0])
        } else {
            None
        }
    }

    /// Create a cache of `capacity` frames.
    pub fn new(capacity: usize) -> (r: Self)
        requires
            0 < capacity <= usize::MAX / 128,
        ensures
            r.wf(),
            r.entries() == no_entries(),
            r.order() == Seq::<(u32, i64)>::empty(),
            r.capacity() == capacity,
    {
        FrameCache { index: index_new(), lru: lru_new(capacity) }
    }

    /// Look up a cached frame, without making it more recent.
    pub fn get(&self, source_id: SourceId, pts: i64) -> (r: Option<(FrameSlotId, DecodedFrameMeta)>)
        ensures
            r == self.lookup((source_id.id, pts)),
    {
        index_get(&self.index, (source_id.id, pts))
    }

    /// Look up a cached frame and make it the most recently used.
    pub fn touch(&mut self, source_id: SourceId, pts: i64) -> (r: Option<(FrameSlotId, DecodedFrameMeta)>)
        requires
            old(self).wf(),
        ensures
            final(self).wf(),
            r == old(self).lookup((source_id.id, pts)),
            final(self).entries() == old(self).entries(),
            final(self).capacity() == old(self).capacity(),
            final(self).order() == if r is Some {
                without(old(self).order(), (source_id.id, pts)).push((source_id.id, pts))
            } else {
                old(self).order()
            },
    {
        let key: (u32, i64) = (source_id.id, pts);
        let slot = self.get(source_id, pts);
        if slot.is_some() {
            lru_promote(&mut self.lru, key);
            proof {
                let kept = without(old(self).order(), key);
                lemma_filter_keys(old(self).order(), other_than(key));
                lemma_push_contains(kept, key);
                assert(!kept.contains(key));
            }
        }
        slot
    }

    /// Insert a decoded frame as the most recently used one.
    ///
    /// The frame that leaves for it, be it an older one under the same key or the least
    /// recently used one of a full cache, gives its slot back to the pool.
    pub fn insert(
        &mut self,
        pool: &mut FrameSlotPool,
        source_id: SourceId,
        pts: i64,
        slot_id: FrameSlotId,
        meta: DecodedFrameMeta,
    )
        requires
            old(self).wf(),
            old(pool).wf(),
            slot_id.tier < 4,
        ensures
            final(self).wf(),
            final(pool).wf(),
            inserts(
                *old(self),
                *final(self),
                *old(pool),
                *final(pool),
                (source_id.id, pts),
                (slot_id, meta),
            ),
    {
        let key: (u32, i64) = (source_id.id, pts);
        let ghost victim = self.displaced(key);
        let ghost keys = self.order();
        proof {
            lemma_filter_keys(keys, other_than(key));
            lemma_push_contains(without(keys, key), key);
            lemma_push_contains(keys, key);
            assert(!without(keys, key).contains(key));
            if keys.len() > 0 {
                assert(keys.contains(keys[0]));
                lemma_without_first(keys);
                lemma_filter_keys(keys, other_than(keys[0]));
                lemma_push_contains(keys.drop_first(), key);
            }
        }
        if let Some(evicted_key) = lru_push(&mut self.lru, key) {
            if let Some(evicted) = index_remove(&mut self.index, evicted_key) {
                assert(old(self).entries()[evicted_key].0.tier < 4);
                pool.release(evicted.0);
            }
        }
        index_insert(&mut self.index, key, (slot_id, meta));
    }

    /// Evict the least recently used frame; `false` when the cache is empty.
    pub fn evict_one(&mut self, pool: &mut FrameSlotPool) -> (r: bool)
        requires
            old(self).wf(),
            old(pool).wf(),
        ensures
            final(self).wf(),
            final(pool).wf(),
            r == (old(self).order().len() > 0),
            evicts_one(*old(self), *final(self), *old(pool), *final(pool)),
    {
        let ghost keys = self.order();
        proof {
            if keys.len() > 0 {
                assert(keys.contains(keys[0]));
                assert(self.entries().dom().contains(keys[0]));
                lemma_without_first(keys);
                lemma_filter_keys(keys, other_than(keys[0]));
            }
        }
        if let Some(evicted_key) = lru_pop_lru(&mut self.lru) {
            if let Some(evicted) = index_remove(&mut self.index, evicted_key) {
                assert(old(self).entries()[evicted_key].0.tier < 4);
                pool.release(evicted.0);
                return true;
            }
        }
        assert(self.order() == old(self).order() && self.entries() == old(self).entries());
        false
    }

    /// Evict every frame of a source.
    pub fn evict_source(&mut self, pool: &mut FrameSlotPool, source_id: SourceId)
        requires
            old(self).wf(),
            old(pool).wf(),
        ensures
            final(self).wf(),
            final(pool).wf(),
            final(self).capacity() == old(self).capacity(),
            final(self).order() == old(self).order().filter(not_of_source(source_id.id)),
            forall|k: (u32, i64)| #[trigger]
                final(self).lookup(k) == if k.0 == source_id.id {
                    None
                } else {
                    old(self).lookup(k)
                },
            exists|keys: Seq<(u32, i64)>| #[trigger]
                lists(keys, *old(self), Some(source_id.id)) && releases_all(
                    *old(pool),
                    *final(pool),
                    slots_of(keys, old(self).entries()),
                ),
    {
        let keys: Vec<(u32, i64)> = index_keys(&self.index);
        let mut to_remove: Vec<(u32, i64)> = Vec::new();
        let mut i: usize = 0;
        while i < keys.len()
            invariant
                i <= keys.len(),
                keys@.no_duplicates(),
                to_remove@.no_duplicates(),
                forall|k: (u32, i64)| #[trigger]
                    to_remove@.contains(k) <==> keys@.take(i as int).contains(k) && k.0
                        == source_id.id,
            decreases keys.len() - i,
        {
            let key: (u32, i64) = keys[i];
            proof {
                let (before, after) = (keys@.take(i as int), keys@.take(i + 1));
                assert(after =~= before.push(key));
                assert(!before.contains(key)) by {
                    if before.contains(key) {
                        let j = choose|j: int| 0 <= j < before.len() && before[j] == key;
                        assert(keys@[j] == keys@[i as int]);
                    }
                }
                lemma_push_contains(before, key);
                lemma_push_contains(to_remove@, key);
                assert(!to_remove@.contains(key));
            }
            if key.0 == source_id.id {
                to_remove.push(key);
            }
            i += 1;
        }
        assert(keys@.take(i as int) =~= keys@);
        self.remove_keys(pool, &to_remove);
        proof {
            let old_order = old(self).order();
            let p = not_of_source(source_id.id);
            let q = not_among(to_remove@);
            lemma_same_filter(old_order, p, q);
            assert(lists(to_remove@, *old(self), Some(source_id.id)));
        }
    }

    /// Take `to_remove` out of index and recency list, releasing the slots in that order.
    fn remove_keys(&mut self, pool: &mut FrameSlotPool, to_remove: &Vec<(u32, i64)>)
        requires
            old(self).wf(),
            old(pool).wf(),
            to_remove@.no_duplicates(),
            forall|k: (u32, i64)| #[trigger]
                to_remove@.contains(k) ==> old(self).entries().dom().contains(k),
        ensures
            final(self).wf(),
            final(pool).wf(),
            final(self).capacity() == old(self).capacity(),
            final(self).order() == old(self).order().filter(not_among(to_remove@)),
            forall|k: (u32, i64)| #[trigger]
                final(self).lookup(k) == if to_remove@.contains(k) {
                    None
                } else {
                    old(self).lookup(k)
                },
            releases_all(*old(pool), *final(pool), slots_of(to_remove@, old(self).entries())),
    {
        let mut i: usize = 0;
        proof {
            lemma_releases_none(*pool);
            assert(slots_of(to_remove@.take(0), self.entries()) =~= Seq::empty());
            lemma_filter_all(self.order(), not_among(to_remove@.take(0)));
        }
        while i < to_remove.len()
            invariant
                i <= to_remove.len(),
                to_remove@.no_duplicates(),
                forall|k: (u32, i64)| #[trigger]
                    to_remove@.contains(k) ==> old(self).entries().dom().contains(k),
                old(self).wf(),
                self.wf(),
                old(pool).wf(),
                pool.wf(),
                self.capacity() == old(self).capacity(),
                self.order() == old(self).order().filter(not_among(to_remove@.take(i as int))),
                forall|k: (u32, i64)| #[trigger]
                    self.lookup(k) == if to_remove@.take(i as int).contains(k) {
                        None
                    } else {
                        old(self).lookup(k)
                    },
                releases_all(
                    *old(pool),
                    *pool,
                    slots_of(to_remove@.take(i as int), old(self).entries()),
                ),
            decreases to_remove.len() - i,
        {
            let key: (u32, i64) = to_remove[i];
            let ghost (before, after) = (to_remove@.take(i as int), to_remove@.take(i + 1));
            let ghost order = self.order();
            let ghost prior = *self;
            let ghost prior_pool = *pool;
            proof {
                assert(after =~= before.push(key));
                assert(to_remove@.contains(key));
                assert(!before.contains(key)) by {
                    if before.contains(key) {
                        let j = choose|j: int| 0 <= j < before.len() && before[j] == key;
                        assert(to_remove@[j] == to_remove@[i as int]);
                    }
                }
                lemma_push_contains(before, key);
                assert(self.lookup(key) == old(self).lookup(key));
                lemma_filter_twice(
                    old(self).order(),
                    not_among(before),
                    other_than(key),
                    not_among(after),
                );
                lemma_filter_keys(order, other_than(key));
                assert(slots_of(after, old(self).entries()) =~= slots_of(
                    before,
                    old(self).entries(),
                ).push(old(self).entries()[key].0));
            }
            if let Some(entry) = index_remove(&mut self.index, key) {
                pool.release(entry.0);
            }
            proof {
                lemma_releases_one_more(
                    *old(pool),
                    prior_pool,
                    *pool,
                    slots_of(before, old(self).entries()),
                    old(self).entries()[key].0,
                );
            }
            lru_pop(&mut self.lru, key);
            proof {
                assert forall|k: (u32, i64)| #[trigger]
                    self.lookup(k) == if after.contains(k) {
                        None
                    } else {
                        old(self).lookup(k)
                    } by {
                    assert(prior.lookup(k) == if before.contains(k) {
                        None
                    } else {
                        old(self).lookup(k)
                    });
                }
            }
            i += 1;
        }
        assert(to_remove@.take(i as int) =~= to_remove@);
    }

    /// Number of cached frames.
    pub fn len(&self) -> (r: usize)
        requires
            self.wf(),
        ensures
            r == self.order().len(),
            r <= self.capacity(),
    {
        proof {
            self.order().unique_seq_to_set();
            assert(self.entries().dom() =~= self.order().to_set());
        }
        index_len(&self.index)
    }

    /// Evict all cached frames, releasing their slots back to the pool.
    pub fn clear_all(&mut self, pool: &mut FrameSlotPool)
        requires
            old(self).wf(),
            old(pool).wf(),
        ensures
            final(self).wf(),
            final(pool).wf(),
            final(self).capacity() == old(self).capacity(),
            final(self).order() == Seq::<(u32, i64)>::empty(),
            final(self).entries() == no_entries(),
            exists|keys: Seq<(u32, i64)>| #[trigger]
                lists(keys, *old(self), None) && releases_all(
                    *old(pool),
                    *final(pool),
                    slots_of(keys, old(self).entries()),
                ),
    {
        let keys: Vec<(u32, i64)> = index_keys(&self.index);
        self.remove_keys(pool, &keys);
        let ghost emptied = *self;
        lru_clear(&mut self.lru);
        proof {
            assert forall|k: (u32, i64)| !self.entries().dom().contains(k) by {
                assert(keys@.contains(k) <==> old(self).entries().dom().contains(k));
                assert(emptied.lookup(k) is None);
            }
            assert(self.entries() =~= no_entries());
            assert(lists(keys@, *old(self), None));
        }
    }
}

/// Taking the first of distinct keys out leaves the others.
proof fn lemma_without_first(s: Seq<(u32, i64)>)
    requires
        s.len() > 0,
        s.no_duplicates(),
    ensures
        without(s, s[0]) == s.drop_first(),
    decreases s.len(),
{
    reveal(Seq::filter);
    let p = other_than(s[0]);
    let t = s.drop_last();
    if s.len() == 1 {
        assert(t.filter(p) =~= Seq::empty());
        assert(s.drop_first() =~= Seq::empty());
    } else {
        lemma_without_first(t);
        assert(t.drop_first().push(s.last()) =~= s.drop_first());
    }
}

proof fn lemma_push_contains(s: Seq<(u32, i64)>, key: (u32, i64))
    ensures
        forall|k: (u32, i64)| #[trigger] s.push(key).contains(k) <==> s.contains(k) || k == key,
{
    assert forall|k: (u32, i64)| #[trigger] s.push(key).contains(k) <==> s.contains(k) || k
        == key by {
        if s.contains(k) {
            let i = choose|i: int| 0 <= i < s.len() && s[i] == k;
            assert(s.push(key)[i] == k);
        }
        assert(s.push(key)[s.len() as int] == key);
    }
}

proof fn lemma_same_filter(
    s: Seq<(u32, i64)>,
    p: spec_fn((u32, i64)) -> bool,
    q: spec_fn((u32, i64)) -> bool,
)
    requires
        forall|k: (u32, i64)| s.contains(k) ==> (#[trigger] p(k) <==> q(k)),
    ensures
        s.filter(p) == s.filter(q),
    decreases s.len(),
{
    reveal(Seq::filter);
    if s.len() > 0 {
        assert forall|k: (u32, i64)| s.drop_last().contains(k) implies (#[trigger] p(k) <==> q(
            k,
        )) by {
            let i = choose|i: int| 0 <= i < s.drop_last().len() && s.drop_last()[i] == k;
            assert(s[i] == k);
        }
        lemma_same_filter(s.drop_last(), p, q);
        assert(s.contains(s.last()));
        assert(p(s.last()) <==> q(s.last()));
    }
}

/// `keys` lists, each once, the cached keys of `source`, or all of them when it is `None`.
pub open spec fn lists(keys: Seq<(u32, i64)>, cache: FrameCache, source: Option<u32>) -> bool {
    &&& keys.no_duplicates()
    &&& forall|k: (u32, i64)| #[trigger]
        keys.contains(k) <==> cache.entries().dom().contains(k) && (source is Some ==> k.0
            == source->0)
}

/// The slots of the frames cached under `keys`.
pub open spec fn slots_of(
    keys: Seq<(u32, i64)>,
    entries: Map<(u32, i64), (FrameSlotId, DecodedFrameMeta)>,
) -> Seq<FrameSlotId> {
    Seq::new(keys.len(), |i: int| entries[keys[i]].0)
}

/// What inserting `value` under `key` does to the cache and to the pool.
pub open spec fn inserts(
    before: FrameCache,
    after: FrameCache,
    pool_before: FrameSlotPool,
    pool_after: FrameSlotPool,
    key: (u32, i64),
    value: (FrameSlotId, DecodedFrameMeta),
) -> bool {
    &&& after.capacity() == before.capacity()
    &&& match before.displaced(key) {
        Some(victim) => {
            &&& after.entries() == before.entries().remove(victim).insert(key, value)
            &&& after.order() == without(before.order(), victim).push(key)
            &&& releases(pool_before, pool_after, before.entries()[victim].0)
        },
        None => {
            &&& after.entries() == before.entries().insert(key, value)
            &&& after.order() == before.order().push(key)
            &&& pool_after == pool_before
        },
    }
}

/// What evicting the least recently used frame does to the cache and to the pool.
pub open spec fn evicts_one(
    before: FrameCache,
    after: FrameCache,
    pool_before: FrameSlotPool,
    pool_after: FrameSlotPool,
) -> bool {
    &&& after.capacity() == before.capacity()
    &&& if before.order().len() == 0 {
        &&& after.entries() == before.entries()
        &&& after.order() == before.order()
        &&& pool_after == pool_before
    } else {
        &&& after.entries() == before.entries().remove(before.order()[0])
        &&& after.order() == before.order().drop_first()
        &&& releases(pool_before, pool_after, before.entries()[before.order()[0]].0)
    }
}

impl FrameCache {
    /// Every cached frame lies in a slot of its own that the pool counts as in use.
    pub open spec fn owns_its_slots(&self, pool: FrameSlotPool) -> bool {
        &&& self.wf()
        &&& pool.sound()
        &&& forall|k: (u32, i64)|
            self.entries().dom().contains(k) ==> {
                &&& pool.has((#[trigger] self.entries()[k]).0)
                &&& !pool.is_free(self.entries()[k].0)
            }
        &&& forall|j: (u32, i64), k: (u32, i64)|
            self.entries().dom().contains(j) && self.entries().dom().contains(k) && j != k ==> (
            #[trigger] self.entries()[j]).0 != (#[trigger] self.entries()[k]).0
    }

    /// No cached frame lies in `slot`.
    pub open spec fn lacks(&self, slot: FrameSlotId) -> bool {
        forall|k: (u32, i64)|
            self.entries().dom().contains(k) ==> (#[trigger] self.entries()[k]).0 != slot
    }
}

/// Inserting a frame in a slot acquired for it keeps every cached frame in a slot of its
/// own, gives the slot of the frame that left back, and leaves the new one in use.
pub proof fn law_insert_keeps_slots(
    before: FrameCache,
    after: FrameCache,
    pool_before: FrameSlotPool,
    pool_after: FrameSlotPool,
    key: (u32, i64),
    value: (FrameSlotId, DecodedFrameMeta),
)
    requires
        before.owns_its_slots(pool_before),
        after.wf(),
        pool_before.has(value.0),
        !pool_before.is_free(value.0),
        before.lacks(value.0),
        inserts(before, after, pool_before, pool_after, key, value),
    ensures
        after.owns_its_slots(pool_after),
        after.lookup(key) == Some(value),
        after.order().len() > 0 && after.order().last() == key,
        match before.displaced(key) {
            Some(victim) => pool_after.is_free(before.entries()[victim].0),
            None => pool_after == pool_before,
        },
{
    match before.displaced(key) {
        Some(victim) => {
            assert(before.order().contains(victim)) by {
                assert(before.order()[0] == before.order()[0]);
            }
            let slot = before.entries()[victim].0;
            assert(before.entries().dom().contains(victim));
            crate::io::slot_pool::law_release_frees_the_slot(pool_before, pool_after, slot);
            assert(forall|k: (u32, i64)|
                after.entries().dom().contains(k) && k != key ==> before.entries().dom().contains(k)
                    && k != victim && #[trigger] after.entries()[k] == before.entries()[k]);
        },
        None => {
            assert(forall|k: (u32, i64)|
                after.entries().dom().contains(k) && k != key ==> before.entries().dom().contains(k)
                    && #[trigger] after.entries()[k] == before.entries()[k]);
        },
    }
}

/// Evicting from a cache that is not empty frees exactly the least recently used frame's
/// slot: there is always a slot to be had while frames of its size are cached.
pub proof fn law_evict_one_frees_a_slot(
    before: FrameCache,
    after: FrameCache,
    pool_before: FrameSlotPool,
    pool_after: FrameSlotPool,
)
    requires
        before.owns_its_slots(pool_before),
        after.wf(),
        before.order().len() > 0,
        evicts_one(before, after, pool_before, pool_after),
    ensures
        after.owns_its_slots(pool_after),
        after.order().len() == before.order().len() - 1,
        after.lookup(before.order()[0]) is None,
        pool_after.is_free(before.entries()[before.order()[0]].0),
{
    let victim = before.order()[0];
    assert(before.order().contains(victim));
    assert(before.entries().dom().contains(victim));
    crate::io::slot_pool::law_release_frees_the_slot(
        pool_before,
        pool_after,
        before.entries()[victim].0,
    );
    assert(forall|k: (u32, i64)|
        after.entries().dom().contains(k) ==> before.entries().dom().contains(k) && k != victim
            && #[trigger] after.entries()[k] == before.entries()[k]);
}

proof fn lemma_indices_contain(ids: Seq<FrameSlotId>, i: int)
    requires
        0 <= i < ids.len(),
    ensures
        indices_of(ids, ids[i].tier as int).contains(ids[i].index),
    decreases ids.len(),
{
    let t = ids[i].tier as int;
    let rest = indices_of(ids.drop_last(), t);
    if i == ids.len() - 1 {
        assert(rest.push(ids[i].index)[rest.len() as int] == ids[i].index);
    } else {
        lemma_indices_contain(ids.drop_last(), i);
        let j = choose|j: int| 0 <= j < rest.len() && rest[j] == ids[i].index;
        assert(indices_of(ids, t)[j] == ids[i].index);
    }
}

/// Whatever frames are dropped together, by source or all at once, their slots are free
/// afterwards.
pub proof fn law_dropped_frames_free_their_slots(
    before: FrameCache,
    pool_before: FrameSlotPool,
    pool_after: FrameSlotPool,
    keys: Seq<(u32, i64)>,
    source: Option<u32>,
    key: (u32, i64),
)
    requires
        before.wf(),
        pool_before.wf(),
        lists(keys, before, source),
        releases_all(pool_before, pool_after, slots_of(keys, before.entries())),
        before.entries().dom().contains(key),
        source is Some ==> key.0 == source->0,
    ensures
        pool_after.is_free(before.entries()[key].0),
{
    assert(keys.contains(key));
    let i = choose|i: int| 0 <= i < keys.len() && keys[i] == key;
    let ids = slots_of(keys, before.entries());
    let id = before.entries()[key].0;
    assert(ids[i] == id);
    lemma_indices_contain(ids, i);
    let t = id.tier as int;
    let added = indices_of(ids, t);
    let j = choose|j: int| 0 <= j < added.len() && added[j] == id.index;
    let free = pool_before.tiers()[t].free();
    assert((free + added)[free.len() + j] == id.index);
    assert(pool_after.tiers()[t].free().contains(id.index));
}

/// A frame that is inserted is found, is the most recently used, and costs no more than it
/// must: with room to spare nothing leaves; in a full cache the least recently used frame
/// leaves, and only that one; and a frame under the same key is replaced, and only that one.
/// The pool gets a slot back exactly when a frame leaves.
pub proof fn law_inserting_costs_the_least_recent(
    before: FrameCache,
    after: FrameCache,
    pool_before: FrameSlotPool,
    pool_after: FrameSlotPool,
    key: (u32, i64),
    value: (FrameSlotId, DecodedFrameMeta),
    other: (u32, i64),
)
    requires
        before.wf(),
        pool_before.wf(),
        inserts(before, after, pool_before, pool_after, key, value),
        other != key,
    ensures
        ({
            let known = before.entries().dom().contains(key);
            let full = before.order().len() == before.capacity();
            &&& after.capacity() == before.capacity()
            &&& after.entries().dom().contains(key) && after.entries()[key] == value
            &&& after.order().len() > 0 && after.order().last() == key
            &&& known || !full ==> (after.entries().dom().contains(other)
                <==> before.entries().dom().contains(other))
            &&& !known && full ==> (after.entries().dom().contains(other)
                <==> before.entries().dom().contains(other) && other != before.order()[0])
            &&& after.entries().dom().contains(other) ==> after.entries()[other]
                == before.entries()[other]
            &&& !known && !full ==> pool_after == pool_before && after.order()
                == before.order().push(key)
            &&& !known && full ==> after.order() == before.order().drop_first().push(key)
            &&& known ==> pool_after.is_free(before.entries()[key].0)
            &&& !known && full ==> pool_after.is_free(
                before.entries()[before.order()[0]].0,
            )
        }),
{
    let keys = before.order();
    if keys.contains(key) {
        let slot = before.entries()[key].0;
        lemma_released_is_free(pool_before, pool_after, slot);
    } else if keys.len() == before.capacity() {
        assert(keys.contains(keys[0]));
        let slot = before.entries()[keys[0]].0;
        assert(before.entries().dom().contains(keys[0]));
        lemma_released_is_free(pool_before, pool_after, slot);
        lemma_without_first(keys);
    }
}

proof fn lemma_released_is_free(before: FrameSlotPool, after: FrameSlotPool, id: FrameSlotId)
    requires
        before.wf(),
        id.tier < 4,
        releases(before, after, id),
    ensures
        after.is_free(id),
{
    let free = before.tiers()[id.tier as int].free();
    assert(after.tiers()[id.tier as int].free()[free.len() as int] == id.index);
}

/// What evicting one frame costs: the least recently used one, whose slot is free afterwards;
/// every other frame stays where it is, in the same order of use.
pub proof fn law_evicting_costs_the_least_recent(
    before: FrameCache,
    after: FrameCache,
    pool_before: FrameSlotPool,
    pool_after: FrameSlotPool,
    key: (u32, i64),
)
    requires
        before.wf(),
        pool_before.wf(),
        evicts_one(before, after, pool_before, pool_after),
    ensures
        before.order().len() > 0 ==> {
            let victim = before.order()[0];
            &&& after.entries().dom().contains(key) <==> before.entries().dom().contains(key)
                && key != victim
            &&& after.entries().dom().contains(key) ==> after.entries()[key]
                == before.entries()[key]
            &&& after.order() == before.order().drop_first()
            &&& pool_after.is_free(before.entries()[victim].0)
        },
        before.order().len() == 0 ==> pool_after == pool_before && after.entries()
            == before.entries() && after.order().len() == 0,
        after.capacity() == before.capacity(),
{
    if before.order().len() > 0 {
        let victim = before.order()[0];
        assert(before.order().contains(victim));
        assert(before.entries().dom().contains(victim));
        lemma_released_is_free(pool_before, pool_after, before.entries()[victim].0);
    }
}

/// Where a key stands after it has been used: last, with every other key as far from the end
/// among the others as it was.
pub proof fn law_used_keys_stand_last(order: Seq<(u32, i64)>, key: (u32, i64))
    requires
        order.no_duplicates(),
        order.contains(key),
    ensures
        ({
            let used = without(order, key).push(key);
            let at = order.index_of(key);
            &&& used.len() == order.len()
            &&& used.last() == key
            &&& forall|i: int| 0 <= i < at ==> #[trigger] used[i] == order[i]
            &&& forall|i: int| at <= i < order.len() - 1 ==> #[trigger] used[i] == order[i + 1]
        }),
    decreases order.len(),
{
    let at = order.index_of(key);
    assert(order[at] == key);
    lemma_without(order, key, at);
}

proof fn lemma_without(order: Seq<(u32, i64)>, key: (u32, i64), at: int)
    requires
        order.no_duplicates(),
        0 <= at < order.len(),
        order[at] == key,
    ensures
        without(order, key) == order.subrange(0, at) + order.subrange(
            at + 1,
            order.len() as int,
        ),
    decreases order.len(),
{
    reveal(Seq::filter);
    let t = order.drop_last();
    let n = order.len() as int;
    if at == n - 1 {
        assert(t =~= order.subrange(0, at));
        assert forall|k: (u32, i64)| t.contains(k) implies #[trigger] other_than(key)(k) by {
            let i = choose|i: int| 0 <= i < t.len() && t[i] == k;
            assert(order[i] == k);
        }
        lemma_filter_all(t, other_than(key));
        assert(order.subrange(0, at) + order.subrange(at + 1, n) =~= t);
    } else {
        lemma_without(t, key, at);
        assert(t.subrange(0, at) =~= order.subrange(0, at));
        assert(t.subrange(at + 1, n - 1).push(order.last()) =~= order.subrange(at + 1, n));
        assert(order.last() != key);
        assert((t.subrange(0, at) + t.subrange(at + 1, n - 1)).push(order.last())
            =~= order.subrange(0, at) + order.subrange(at + 1, n));
    }
}

/// Dropping a source drops its frames and no others, and what stays keeps its order of use.
pub proof fn law_a_source_is_dropped_alone(order: Seq<(u32, i64)>, source: u32, key: (u32, i64))
    requires
        order.no_duplicates(),
    ensures
        order.filter(not_of_source(source)).contains(key) <==> order.contains(key) && key.0
            != source,
        order.filter(not_of_source(source)).no_duplicates(),
{
    lemma_filter_keys(order, not_of_source(source));
}

} // verus!
