//! Frames by source and time: out of the cache, or decoded into a staging slot or into the
//! source's textures.
use crate::io::decoder::DecodedFrame;
use crate::io::demuxer::Packet;
use crate::io::ffi::hw_accel::HwDeviceType;
use crate::io::frame_cache::{
    indices_of, inserts, lemma_releases_none, lemma_releases_one_more, lists, no_entries,
    releases_all, slots_of, without, FrameCache,
};
use crate::io::interop_decode::{
    DecodeOutcome, InteropDecode, InteropDecodeTargets, InteropFrame, InteropPlanes, TargetStep,
};
use crate::io::prefetch::PrefetchRequest;
use crate::io::slot_pool::{acquires, releases, FrameSlotId, FrameSlotPool};
use crate::timeline::{DecodedFrameMeta, Rational, SourceId, VideoStreamInfo};
use dashmap::DashMap;
use vstd::prelude::*;

verus! {

/// The entries of a map from sources to numbers.
pub uninterp spec fn by_source(map: DashMap<u32, i64>) -> Map<u32, i64>;

/// The map that holds nothing.
pub open spec fn no_sources() -> Map<u32, i64> {
    Map::empty()
}

/// The value of a key, if it has one.
pub open spec fn find(map: Map<u32, i64>, key: u32) -> Option<i64> {
    if map.dom().contains(key) { Some(map[key]) } else { None }
}

/// `DashMap::new`: a map without entries.
#[verifier::external_body]
fn sources_new() -> (r: DashMap<u32, i64>)
    ensures
        by_source(r) == no_sources(),
{
    DashMap::new()
}

/// `DashMap::get`: the value of the key, if it has one.
#[verifier::external_body]
fn sources_get(map: &DashMap<u32, i64>, key: u32) -> (r: Option<i64>)
    ensures
        r == find(by_source(*map), key),
{
    map.get(&key).map(|entry| *entry)
}

/// `DashMap::insert`: the key holds the value afterwards, whatever it held before.
#[verifier::external_body]
fn sources_insert(map: &mut DashMap<u32, i64>, key: u32, value: i64)
    ensures
        by_source(*final(map)) == by_source(*old(map)).insert(key, value),
{
    map.insert(key, value);
}

/// `DashMap::remove`: takes the key's entry out and returns its value, if there was one.
#[verifier::external_body]
fn sources_remove(map: &mut DashMap<u32, i64>, key: u32) -> (r: Option<i64>)
    ensures
        by_source(*final(map)) == by_source(*old(map)).remove(key),
        r == find(by_source(*old(map)), key),
{
    map.remove(&key).map(|entry| entry.1)
}

/// `DashMap::clear`: takes every entry out.
#[verifier::external_body]
fn sources_clear(map: &mut DashMap<u32, i64>)
    ensures
        by_source(*final(map)) == no_sources(),
{
    map.clear();
}

/// What is known of each source, by its number.
pub struct SourceTable {
    map: DashMap<u32, i64>,
}

impl View for SourceTable {
    type V = Map<u32, i64>;

    closed spec fn view(&self) -> Map<u32, i64> {
        by_source(self.map)
    }
}

impl SourceTable {
    fn new() -> (r: Self)
        ensures
            r@ == no_sources(),
    {
        SourceTable { map: sources_new() }
    }

    fn get(&self, key: u32) -> (r: Option<i64>)
        ensures
            r == find(self@, key),
    {
        sources_get(&self.map, key)
    }

    fn insert(&mut self, key: u32, value: i64)
        ensures
            final(self)@ == old(self)@.insert(key, value),
    {
        sources_insert(&mut self.map, key, value);
    }

    fn remove(&mut self, key: u32) -> (r: Option<i64>)
        ensures
            final(self)@ == old(self)@.remove(key),
            r == find(old(self)@, key),
    {
        sources_remove(&mut self.map, key)
    }

    fn clear(&mut self)
        ensures
            final(self)@ == no_sources(),
    {
        sources_clear(&mut self.map);
    }
}

/// Packets read at most for one frame; a damaged file cannot keep a reader longer.
pub const MAX_PACKETS: u32 = 600;

/// What the project knows of a source.
#[derive(Debug, Clone, Copy, PartialEq, Eq, Structural)]
pub struct SourceFacts {
    pub source_id: SourceId,
    /// The source itself, or the proxy that stands in for it.
    pub resolved: SourceId,
    /// The source is a still image.
    pub still: bool,
    /// What stands in for it is a still image.
    pub resolved_still: bool,
    /// What stands in for it has a path.
    pub has_path: bool,
    /// Bytes of a decoded frame, if they are known.
    pub frame_bytes: Option<u64>,
    /// The video stream of what stands in for it, if it is known.
    pub info: Option<VideoStreamInfo>,
}

/// Where a frame is wanted.
#[derive(Debug, Clone, Copy, PartialEq, Eq, Structural)]
pub enum Goal {
    /// In a staging slot.
    Host,
    /// In the source's textures.
    Textures,
}

/// What the caller has to do next.
#[derive(Debug, Clone, Copy, PartialEq, Eq, Structural)]
pub enum IoCall {
    /// Close what is open of a still image.
    Close { demuxer: Option<i64>, decoder: Option<i64> },
    OpenDemuxer { resolved: SourceId },
    OpenDecoder { resolved: SourceId, demuxer: i64, software: bool },
    /// Say where `pts` of the project lies in the stream's clock, after seeking there if
    /// `seek` is set; then flush the decoder if `flush` is set.
    Position { demuxer: i64, decoder: i64, pts: i64, seek: bool, flush: bool },
    ReadPacket { demuxer: i64 },
    /// Decode the packet into the slot.
    Decode { decoder: i64, slot: FrameSlotId, packet: Packet },
    /// Take a frame out of the decoder, into the slot, at the end of the file.
    Drain { decoder: i64, slot: FrameSlotId },
    /// Allocate textures for the source.
    AllocateTextures { width: u32, height: u32 },
    /// Wait for the submission, if there is one, then decode the packet into the textures.
    DecodeTextures { decoder: i64, packet: Packet, planes: InteropPlanes, wait: Option<u64> },
    /// The frame is in the slot.
    Cached { slot: FrameSlotId, meta: DecodedFrameMeta },
    /// The frame is in the textures.
    Resident { frame: InteropFrame },
    NoFrame,
}

/// What came of it.
#[derive(Debug, Clone, Copy, PartialEq, Eq, Structural)]
pub enum IoReply {
    Closed,
    /// The handle of what was opened, or nothing if that failed.
    Opened { handle: Option<i64> },
    /// The time in the stream's clock, or nothing if there is none; and the decoder's device.
    Positioned { target: Option<i64>, hw: HwDeviceType },
    /// The packet, or nothing at the end of the file or after an error.
    Packet { packet: Option<Packet> },
    /// The frame, or nothing if there was none or decoding failed.
    Decoded { frame: Option<DecodedFrame> },
    Allocated { planes: Option<InteropPlanes> },
    Outcome { outcome: DecodeOutcome },
}

/// What a request is waiting for.
#[derive(Debug, Clone, Copy, PartialEq, Eq, Structural)]
pub enum RunStage {
    Closing,
    OpeningDemuxer,
    OpeningDecoder { demuxer: i64 },
    /// `flush` is set when the decoder starts anew.
    Positioning { demuxer: i64, decoder: i64, flush: bool },
    Reading { at: Reader },
    Decoding { at: Reader, packet: Packet },
    Draining { at: Reader },
    Allocating { at: Reader, packet: Packet },
    DecodingTextures { at: Reader, packet: Packet, planes: InteropPlanes },
    Over,
}

/// A request that reads forward.
#[derive(Debug, Clone, Copy, PartialEq, Eq, Structural)]
pub struct Reader {
    pub demuxer: i64,
    pub decoder: i64,
    pub hw: HwDeviceType,
    /// The time looked for, in the stream's clock.
    pub target: i64,
    /// Packets read so far.
    pub read: u32,
    /// The slot the frame goes to.
    pub slot: Option<FrameSlotId>,
}

/// A request for one frame.
#[derive(Debug, Clone, Copy, PartialEq, Eq, Structural)]
pub struct DecodeRun {
    pub facts: SourceFacts,
    /// The time wanted, in the project's clock.
    pub pts: i64,
    pub goal: Goal,
    pub stage: RunStage,
}

/// The frame in question is not just ahead of the one decoded last: more than five seconds,
/// or behind it, or nothing has been decoded.
pub open spec fn must_seek(previous: Option<i64>, pts: i64, den: i64) -> bool {
    match previous {
        None => true,
        Some(previous) => previous == i64::MIN || pts < previous || pts - previous > 5 * den,
    }
}

fn needs_seek(previous: Option<i64>, pts: i64, den: i64) -> (r: bool)
    ensures
        r == must_seek(previous, pts, den),
{
    match previous {
        None => true,
        Some(previous) => {
            previous == i64::MIN || pts < previous || pts as i128 - previous as i128 > 5
                * den as i128
        },
    }
}

/// The time a frame goes by: its own, or its packet's where it has none.
pub open spec fn effective_pts(frame_pts: i64, packet_pts: i64) -> i64 {
    if frame_pts == 0 { packet_pts } else { frame_pts }
}

/// The cache and the staging slots, the textures, and what is open of each source.
pub struct IoLayer {
    pub pool: FrameSlotPool,
    pub cache: FrameCache,
    pub interop: InteropDecodeTargets,
    /// Open files and decoders, by what stands in for the source.
    pub demuxers: SourceTable,
    pub decoders: SourceTable,
    /// The time last decoded of each source, in the project's clock.
    pub last_decoded_pts: SourceTable,
    pub project_tb: Rational,
}

/// `k` frames left the cache, the least recently used ones, before a slot could be had; all
/// of them, if none could.  `t` is the tier asked.
pub open spec fn room_after(
    cache: FrameCache,
    pool: FrameSlotPool,
    cache_after: FrameCache,
    pool_after: FrameSlotPool,
    r: Option<FrameSlotId>,
    k: int,
    between: FrameSlotPool,
    t: Option<usize>,
) -> bool {
    let gone = cache.order().take(k);
    &&& 0 <= k <= cache.order().len()
    &&& cache_after.capacity() == cache.capacity()
    &&& cache_after.order() == cache.order().skip(k)
    &&& forall|key: (u32, i64)| #[trigger]
        cache_after.lookup(key) == if gone.contains(key) { None } else { cache.lookup(key) }
    &&& releases_all(pool, between, slots_of(gone, cache.entries()))
    &&& acquires(between, pool_after, t, r)
    &&& r is None ==> k == cache.order().len()
    &&& k > 0 && t is Some ==> {
        &&& pool.tiers()[t->0 as int].free().len() == 0
        &&& indices_of(slots_of(cache.order().take(k - 1), cache.entries()), t->0 as int).len() == 0
    }
}

/// A slot for `required` bytes was asked for, frames leaving the cache until there was one.
pub open spec fn makes_room(
    cache: FrameCache,
    pool: FrameSlotPool,
    cache_after: FrameCache,
    pool_after: FrameSlotPool,
    required: u64,
    r: Option<FrameSlotId>,
) -> bool {
    exists|k: int, between: FrameSlotPool, t: Option<usize>|
        pool.is_tier_for(required, t) && #[trigger] room_after(
            cache,
            pool,
            cache_after,
            pool_after,
            r,
            k,
            between,
            t,
        )
}

/// A frame was looked for: `r` is the cached frame, or the request that has it decoded.
pub open spec fn gets(
    before: FrameCache,
    after: FrameCache,
    source_id: SourceId,
    pts: i64,
    r: Result<(FrameSlotId, DecodedFrameMeta), PrefetchRequest>,
) -> bool {
    &&& after.entries() == before.entries()
    &&& after.capacity() == before.capacity()
    &&& match r {
        Ok(frame) => {
            let key = (source_id.id, pts);
            &&& before.lookup(key) == Some(frame)
            &&& after.order() == without(before.order(), key).push(key)
        },
        Err(request) => {
            &&& before.lookup((source_id.id, pts)) is None
            &&& after.order() == before.order()
            &&& request == (PrefetchRequest { source_id, pts, priority: 0 })
        },
    }
}

/// `requests` are for every source at every one of the times, time by time.
pub open spec fn primes(
    requests: Seq<PrefetchRequest>,
    source_ids: Seq<SourceId>,
    pts_list: Seq<i64>,
) -> bool {
    &&& requests.len() == pts_list.len() * source_ids.len()
    &&& forall|i: int, j: int|
        0 <= i < pts_list.len() && 0 <= j < source_ids.len() ==> #[trigger] requests[i
            * source_ids.len() + j] == (PrefetchRequest {
            source_id: source_ids[j],
            pts: pts_list[i],
            priority: 0,
        })
}

proof fn lemma_one_tier_fits(
    a: FrameSlotPool,
    b: FrameSlotPool,
    required: u64,
    t: Option<usize>,
    u: Option<usize>,
)
    requires
        a.tiers().len() == b.tiers().len(),
        forall|i: int|
            0 <= i < a.tiers().len() ==> (#[trigger] b.tiers()[i]).slot_size()
                == a.tiers()[i].slot_size(),
        a.is_tier_for(required, t),
        b.is_tier_for(required, u),
    ensures
        t == u,
{
    if t is Some && u is Some {
        let (i, j) = (t->0 as int, u->0 as int);
        assert(b.tiers()[i].slot_size() == a.tiers()[i].slot_size());
        assert(b.tiers()[j].slot_size() == a.tiers()[j].slot_size());
    } else if t is Some {
        let i = t->0 as int;
        assert(b.tiers()[i].slot_size() == a.tiers()[i].slot_size());
    } else if u is Some {
        let j = u->0 as int;
        assert(b.tiers()[j].slot_size() == a.tiers()[j].slot_size());
    }
}

proof fn lemma_push_has(s: Seq<(u32, i64)>, last: (u32, i64), key: (u32, i64))
    ensures
        s.push(last).contains(key) <==> s.contains(key) || key == last,
{
    if s.contains(key) {
        let i = choose|i: int| 0 <= i < s.len() && s[i] == key;
        assert(s.push(last)[i] == key);
    }
    assert(s.push(last)[s.len() as int] == last);
    if s.push(last).contains(key) {
        let i = choose|i: int| 0 <= i < s.push(last).len() && s.push(last)[i] == key;
        if i < s.len() {
            assert(s[i] == key);
        }
    }
}

impl IoLayer {
    pub open spec fn wf(&self) -> bool {
        &&& self.pool.wf()
        &&& self.cache.wf()
        &&& self.interop@.inv()
    }

    /// Build the layer; nothing is open.
    pub fn new(
        pool: FrameSlotPool,
        cache: FrameCache,
        interop: InteropDecodeTargets,
        project_tb: Rational,
    ) -> (r: Self)
        requires
            pool.wf(),
            cache.wf(),
            interop@.inv(),
        ensures
            r.wf(),
            r.pool == pool,
            r.cache == cache,
            r.interop == interop,
            r.project_tb == project_tb,
            r.demuxers@ == no_sources(),
            r.decoders@ == no_sources(),
            r.last_decoded_pts@ == no_sources(),
    {
        IoLayer {
            pool,
            cache,
            interop,
            demuxers: SourceTable::new(),
            decoders: SourceTable::new(),
            last_decoded_pts: SourceTable::new(),
            project_tb,
        }
    }

    /// The textures.
    pub fn interop(&self) -> (r: &InteropDecodeTargets)
        ensures
            *r == self.interop,
    {
        &self.interop
    }

    /// Forget everything: the sources mean something else from now on.
    pub fn reset_for_new_project(&mut self)
        requires
            old(self).wf(),
        ensures
            final(self).wf(),
            final(self).demuxers@ == no_sources(),
            final(self).decoders@ == no_sources(),
            final(self).last_decoded_pts@ == no_sources(),
            final(self).cache.order() == Seq::<(u32, i64)>::empty(),
            final(self).cache.entries() == no_entries(),
            final(self).cache.capacity() == old(self).cache.capacity(),
            final(self).interop@ == old(self).interop@.cleared(),
            final(self).project_tb == old(self).project_tb,
            exists|keys: Seq<(u32, i64)>| #[trigger]
                lists(keys, old(self).cache, None) && releases_all(
                    old(self).pool,
                    final(self).pool,
                    slots_of(keys, old(self).cache.entries()),
                ),
    {
        self.demuxers.clear();
        self.decoders.clear();
        self.last_decoded_pts.clear();
        self.cache.clear_all(&mut self.pool);
        self.interop.clear();
    }

    /// A cached frame, or the request that has it decoded ahead of time.
    pub fn get_or_decode(&mut self, source_id: SourceId, pts: i64) -> (r: Result<
        (FrameSlotId, DecodedFrameMeta),
        PrefetchRequest,
    >)
        requires
            old(self).wf(),
        ensures
            final(self).wf(),
            *final(self) == (IoLayer { cache: final(self).cache, ..*old(self) }),
            gets(old(self).cache, final(self).cache, source_id, pts, r),
    {
        match self.cache.touch(source_id, pts) {
            Some(frame) => Ok(frame),
            None => Err(PrefetchRequest { source_id, pts, priority: 0 }),
        }
    }

    /// Requests for every source at every one of the times, time by time.
    pub fn prime_export_prefetch(source_ids: &Vec<SourceId>, pts_list: &Vec<i64>) -> (r: Vec<
        PrefetchRequest,
    >)
        ensures
            primes(r@, source_ids@, pts_list@),
    {
        let mut requests: Vec<PrefetchRequest> = Vec::new();
        let ghost n = source_ids@.len() as int;
        let mut i: usize = 0;
        assert(0 * n == 0) by (nonlinear_arith);
        while i < pts_list.len()
            invariant
                i <= pts_list.len(),
                n == source_ids@.len(),
                requests@.len() == i * n,
                forall|a: int, b: int|
                    0 <= a < i && 0 <= b < n ==> #[trigger] requests@[a * n + b] == (
                    PrefetchRequest {
                        source_id: source_ids@[b],
                        pts: pts_list@[a],
                        priority: 0,
                    }),
            decreases pts_list.len() - i,
        {
            let mut j: usize = 0;
            while j < source_ids.len()
                invariant
                    i < pts_list.len(),
                    j <= source_ids.len(),
                    n == source_ids@.len(),
                    requests@.len() == i * n + j,
                    forall|a: int, b: int|
                        0 <= b < n && (0 <= a < i || (a == i && b < j))
                            ==> #[trigger] requests@[a * n + b] == (PrefetchRequest {
                            source_id: source_ids@[b],
                            pts: pts_list@[a],
                            priority: 0,
                        }),
                decreases source_ids.len() - j,
            {
                let ghost before = requests@;
                requests.push(
                    PrefetchRequest { source_id: source_ids[j], pts: pts_list[i], priority: 0 },
                );
                proof {
                    assert forall|a: int, b: int|
                        0 <= b < n && (0 <= a < i || (a == i && b < j + 1)) implies #[trigger] requests@[a
                        * n + b] == (PrefetchRequest {
                        source_id: source_ids@[b],
                        pts: pts_list@[a],
                        priority: 0,
                    }) by {
                        if a == i && b == j {
                        } else {
                            assert(a * n + b < i * n + j) by (nonlinear_arith)
                                requires
                                    0 <= b < n,
                                    a < i || (a == i && b < j),
                                    0 <= j,
                                    0 <= a,
                            ;
                            assert(0 <= a * n + b) by (nonlinear_arith)
                                requires
                                    0 <= a,
                                    0 <= b,
                                    0 <= n,
                            ;
                            assert(requests@[a * n + b] == before[a * n + b]);
                        }
                    }
                }
                j += 1;
            }
            assert(i * n + n == (i + 1) * n) by (nonlinear_arith);
            i += 1;
        }
        requests
    }

    /// A slot for `required` bytes, frames leaving the cache until there is one.
    fn acquire_slot(&mut self, required: u64) -> (r: Option<FrameSlotId>)
        requires
            old(self).wf(),
        ensures
            final(self).wf(),
            *final(self) == (IoLayer {
                cache: final(self).cache,
                pool: final(self).pool,
                ..*old(self)
            }),
            makes_room(
                old(self).cache,
                old(self).pool,
                final(self).cache,
                final(self).pool,
                required,
                r,
            ),
            r matches Some(slot) ==> slot.tier < 4,
    {
        let ghost (cache, pool) = (self.cache, self.pool);
        let ghost order = cache.order();
        let ghost mut k: int = 0;
        let mut slot: Option<FrameSlotId> = self.pool.acquire(required);
        let ghost t = choose|t: Option<usize>| #[trigger]
            pool.is_tier_for(required, t) && acquires(pool, self.pool, t, slot);
        let ghost mut between = pool;
        proof {
            lemma_releases_none(pool);
            assert(slots_of(order.take(0), cache.entries()) =~= Seq::empty());
            assert(order.skip(0) =~= order);
        }
        while slot.is_none()
            invariant
                *self == (IoLayer { cache: self.cache, pool: self.pool, ..*old(self) }),
                cache == old(self).cache,
                pool == old(self).pool,
                cache.wf(),
                pool.wf(),
                order == cache.order(),
                self.wf(),
                pool.is_tier_for(required, t),
                between.wf(),
                0 <= k <= order.len(),
                slot matches Some(s) ==> s.tier < 4,
                self.cache.capacity() == cache.capacity(),
                self.cache.order() == order.skip(k),
                forall|key: (u32, i64)| #[trigger]
                    self.cache.lookup(key) == if order.take(k).contains(key) {
                        None
                    } else {
                        cache.lookup(key)
                    },
                releases_all(pool, between, slots_of(order.take(k), cache.entries())),
                acquires(between, self.pool, t, slot),
                k > 0 && t is Some ==> {
                    &&& pool.tiers()[t->0 as int].free().len() == 0
                    &&& indices_of(slots_of(order.take(k - 1), cache.entries()), t->0 as int).len()
                        == 0
                },
            ensures
                slot is None ==> k == order.len(),
            decreases order.len() - k,
        {
            let ghost before = *self;
            let evicted: bool = self.cache.evict_one(&mut self.pool);
            if !evicted {
                assert(forall|key: (u32, i64)| #[trigger]
                    self.cache.lookup(key) == before.cache.lookup(key));
                assert(order.skip(k).len() == 0);
                break;
            }
            let ghost key = order[k];
            let ghost gone = order.take(k);
            proof {
                assert(before.cache.order()[0] == key);
                assert(order.take(k + 1) =~= gone.push(key));
                assert(order.skip(k).drop_first() =~= order.skip(k + 1));
                assert(!gone.contains(key)) by {
                    if gone.contains(key) {
                        let j = choose|j: int| 0 <= j < gone.len() && gone[j] == key;
                        assert(order[j] == order[k]);
                    }
                }
                assert(before.cache.order().contains(key));
                assert(before.cache.lookup(key) == cache.lookup(key));
                assert(before.cache.entries()[key] == cache.entries()[key]);
                assert forall|other: (u32, i64)| #[trigger]
                    self.cache.lookup(other) == if order.take(k + 1).contains(other) {
                        None
                    } else {
                        cache.lookup(other)
                    } by {
                    assert(before.cache.lookup(other) == if gone.contains(other) {
                        None
                    } else {
                        cache.lookup(other)
                    });
                    lemma_push_has(gone, key, other);
                }
                let id = cache.entries()[key].0;
                assert(slots_of(order.take(k + 1), cache.entries()) =~= slots_of(
                    gone,
                    cache.entries(),
                ).push(id));
                assert(releases_all(pool, before.pool, slots_of(gone, cache.entries())));
                assert(cache.order().contains(key));
                assert(cache.entries().dom().contains(key));
                lemma_releases_one_more(
                    pool,
                    before.pool,
                    self.pool,
                    slots_of(gone, cache.entries()),
                    id,
                );
                k = k + 1;
                between = self.pool;
            }
            slot = self.pool.acquire(required);
            proof {
                let u = choose|u: Option<usize>| #[trigger]
                    between.is_tier_for(required, u) && acquires(between, self.pool, u, slot);
                lemma_one_tier_fits(pool, between, required, t, u);
            }
        }
        assert(room_after(cache, pool, self.cache, self.pool, slot, k, between, t));
        slot
    }
}

/// The caches hold the same frames, in the same order of use.
pub open spec fn same_frames(a: FrameCache, b: FrameCache) -> bool {
    &&& a.entries() == b.entries()
    &&& a.order() == b.order()
    &&& a.capacity() == b.capacity()
}

/// `b` is `a` after a frame has been looked for: it is the most recently used one, if it is
/// there.
pub open spec fn touched(a: FrameCache, b: FrameCache, key: (u32, i64)) -> bool {
    &&& b.entries() == a.entries()
    &&& b.capacity() == a.capacity()
    &&& b.order() == if a.lookup(key) is Some {
        without(a.order(), key).push(key)
    } else {
        a.order()
    }
}

impl DecodeRun {
    pub open spec fn at(self, stage: RunStage) -> DecodeRun {
        DecodeRun { stage, ..self }
    }

    /// Where the request is reading, if it is.
    pub open spec fn reader(self) -> Option<Reader> {
        match self.stage {
            RunStage::Reading { at } => Some(at),
            RunStage::Decoding { at, .. } => Some(at),
            RunStage::Draining { at } => Some(at),
            RunStage::Allocating { at, .. } => Some(at),
            RunStage::DecodingTextures { at, .. } => Some(at),
            _ => None,
        }
    }

    pub open spec fn inv(self) -> bool {
        &&& self.goal is Textures ==> self.facts.info is Some
        &&& self.reader() matches Some(at) ==> {
            &&& at.read < MAX_PACKETS
            &&& self.goal is Host ==> at.slot is Some && at.slot->0.tier < 4
        }
        &&& self.stage is Decoding || self.stage is Draining ==> self.goal is Host
        &&& self.stage is Allocating || self.stage is DecodingTextures ==> self.goal is Textures
        &&& self.stage is Closing ==> self.goal is Host
    }

    /// A frame is wanted of a still image, which has only one.
    pub open spec fn frozen(self) -> bool {
        self.goal is Host && self.facts.still
    }

    pub open spec fn answers(self, layer: IoLayer, reply: IoReply) -> bool {
        match reply {
            IoReply::Closed => self.stage is Closing,
            IoReply::Opened { .. } => self.stage is OpeningDemuxer || self.stage is OpeningDecoder,
            IoReply::Positioned { .. } => self.stage is Positioning,
            IoReply::Packet { .. } => self.stage is Reading,
            IoReply::Decoded { .. } => self.stage is Decoding || self.stage is Draining,
            IoReply::Allocated { .. } => {
                &&& self.stage is Allocating
                &&& layer.interop@.available
                &&& !layer.interop@.rejected.dom().contains(self.facts.source_id.id)
                &&& !layer.interop@.targets.dom().contains(self.facts.source_id.id)
            },
            IoReply::Outcome { .. } => self.stage is DecodingTextures,
        }
    }

    pub open spec fn ends(self, after: DecodeRun, call: IoCall, result: IoCall) -> bool {
        &&& after == self.at(RunStage::Over)
        &&& call == result
    }

    /// Say where the time wanted lies in the stream, seeking if that is called for.
    pub open spec fn positions(
        self,
        layer: IoLayer,
        demuxer: i64,
        decoder: i64,
        after: DecodeRun,
        call: IoCall,
    ) -> bool {
        let needed = self.frozen() || must_seek(
            find(layer.last_decoded_pts@, self.facts.source_id.id),
            self.pts,
            layer.project_tb.den,
        );
        &&& after == self.at(RunStage::Positioning { demuxer, decoder, flush: needed })
        &&& call == (IoCall::Position {
            demuxer,
            decoder,
            pts: if self.frozen() { 0 } else { self.pts },
            seek: needed && !self.frozen(),
            flush: needed,
        })
    }

    /// Use the decoder that is open, or open one.
    pub open spec fn opens_decoder(
        self,
        layer: IoLayer,
        demuxer: i64,
        after: DecodeRun,
        call: IoCall,
    ) -> bool {
        match find(layer.decoders@, self.facts.resolved.id) {
            Some(decoder) => self.positions(layer, demuxer, decoder, after, call),
            None => {
                &&& after == self.at(RunStage::OpeningDecoder { demuxer })
                &&& call == (IoCall::OpenDecoder {
                    resolved: self.facts.resolved,
                    demuxer,
                    software: self.facts.resolved_still,
                })
            },
        }
    }

    /// Use the file that is open, or open it.
    pub open spec fn opens_demuxer(self, layer: IoLayer, after: DecodeRun, call: IoCall) -> bool {
        match find(layer.demuxers@, self.facts.resolved.id) {
            Some(demuxer) => self.opens_decoder(layer, demuxer, after, call),
            None => if self.facts.has_path {
                &&& after == self.at(RunStage::OpeningDemuxer)
                &&& call == (IoCall::OpenDemuxer { resolved: self.facts.resolved })
            } else {
                self.ends(after, call, IoCall::NoFrame)
            },
        }
    }

    /// Nothing was found: the slot goes back, and the frame decoded last is shown if it is
    /// still there.
    pub open spec fn gives_up(
        self,
        layer: IoLayer,
        at: Reader,
        layer_after: IoLayer,
        after: DecodeRun,
        call: IoCall,
    ) -> bool {
        if self.goal is Textures {
            layer_after == layer && self.ends(after, call, IoCall::NoFrame)
        } else {
            &&& layer_after == (IoLayer {
                pool: layer_after.pool,
                cache: layer_after.cache,
                ..layer
            })
            &&& releases(layer.pool, layer_after.pool, at.slot->0)
            &&& match find(layer.last_decoded_pts@, self.facts.source_id.id) {
                Some(previous) => {
                    let key = (self.facts.source_id.id, previous);
                    &&& touched(layer.cache, layer_after.cache, key)
                    &&& match layer.cache.lookup(key) {
                        Some(frame) => self.ends(
                            after,
                            call,
                            IoCall::Cached { slot: frame.0, meta: frame.1 },
                        ),
                        None => self.ends(after, call, IoCall::NoFrame),
                    }
                },
                None => {
                    &&& same_frames(layer.cache, layer_after.cache)
                    &&& self.ends(after, call, IoCall::NoFrame)
                },
            }
        }
    }

    /// The packet did not bring the frame: read another one, unless enough have been read.
    pub open spec fn reads_on(
        self,
        layer: IoLayer,
        at: Reader,
        layer_after: IoLayer,
        after: DecodeRun,
        call: IoCall,
    ) -> bool {
        if at.read + 1 < MAX_PACKETS {
            &&& layer_after == layer
            &&& after == self.at(
                RunStage::Reading { at: Reader { read: (at.read + 1) as u32, ..at } },
            )
            &&& call == (IoCall::ReadPacket { demuxer: at.demuxer })
        } else {
            self.gives_up(layer, at, layer_after, after, call)
        }
    }

    /// The frame is in the slot: it is cached at the time it was asked for.
    pub open spec fn finds(
        self,
        layer: IoLayer,
        at: Reader,
        meta: DecodedFrameMeta,
        layer_after: IoLayer,
        after: DecodeRun,
        call: IoCall,
    ) -> bool {
        let id = self.facts.source_id.id;
        &&& layer_after == (IoLayer {
            pool: layer_after.pool,
            cache: layer_after.cache,
            last_decoded_pts: layer_after.last_decoded_pts,
            ..layer
        })
        &&& layer_after.last_decoded_pts@ == layer.last_decoded_pts@.insert(id, self.pts)
        &&& inserts(
            layer.cache,
            layer_after.cache,
            layer.pool,
            layer_after.pool,
            (id, self.pts),
            (at.slot->0, meta),
        )
        &&& self.ends(after, call, IoCall::Cached { slot: at.slot->0, meta })
    }

    /// The frame is in the textures: it is held at the time it was asked for.
    pub open spec fn holds(
        self,
        layer: IoLayer,
        frame: InteropFrame,
        layer_after: IoLayer,
        after: DecodeRun,
        call: IoCall,
    ) -> bool {
        let id = self.facts.source_id.id;
        &&& layer_after == (IoLayer {
            interop: layer_after.interop,
            last_decoded_pts: layer_after.last_decoded_pts,
            ..layer
        })
        &&& layer_after.last_decoded_pts@ == layer.last_decoded_pts@.insert(id, self.pts)
        &&& layer_after.interop@ == layer.interop@.mark_held(id, self.pts, frame)
        &&& self.ends(after, call, IoCall::Resident { frame })
    }

    /// Go on as the registry of textures says.
    pub open spec fn steps(
        self,
        at: Reader,
        packet: Packet,
        step: TargetStep,
        after: DecodeRun,
        call: IoCall,
    ) -> bool {
        match step {
            TargetStep::Unavailable(_) => self.ends(after, call, IoCall::NoFrame),
            TargetStep::Allocate { width, height } => {
                &&& after == self.at(RunStage::Allocating { at, packet })
                &&& call == (IoCall::AllocateTextures { width, height })
            },
            TargetStep::Decode { planes, wait } => {
                &&& after == self.at(RunStage::DecodingTextures { at, packet, planes })
                &&& call == (IoCall::DecodeTextures { decoder: at.decoder, packet, planes, wait })
            },
        }
    }

    /// The place in the stream is known: read from there, into a slot or into the textures,
    /// of which nothing is known if the decoder starts anew.
    pub open spec fn starts_reading(
        self,
        layer: IoLayer,
        at: Reader,
        flush: bool,
        layer_after: IoLayer,
        after: DecodeRun,
        call: IoCall,
    ) -> bool {
        if self.goal is Host {
            match self.facts.frame_bytes {
                None => layer_after == layer && self.ends(after, call, IoCall::NoFrame),
                Some(required) => exists|slot: Option<FrameSlotId>|
                    {
                        &&& layer_after == (IoLayer {
                            pool: layer_after.pool,
                            cache: layer_after.cache,
                            ..layer
                        })
                        &&& #[trigger] makes_room(
                            layer.cache,
                            layer.pool,
                            layer_after.cache,
                            layer_after.pool,
                            required,
                            slot,
                        )
                        &&& if slot is Some {
                            &&& after == self.at(RunStage::Reading { at: Reader { slot, ..at } })
                            &&& call == (IoCall::ReadPacket { demuxer: at.demuxer })
                        } else {
                            self.ends(after, call, IoCall::NoFrame)
                        }
                    },
            }
        } else {
            &&& layer_after == (IoLayer { interop: layer_after.interop, ..layer })
            &&& layer_after.interop@ == if flush {
                layer.interop@.invalidate(self.facts.source_id.id)
            } else {
                layer.interop@
            }
            &&& after == self.at(RunStage::Reading { at })
            &&& call == (IoCall::ReadPacket { demuxer: at.demuxer })
        }
    }

    /// What follows `reply`.
    pub open spec fn follows(
        self,
        layer: IoLayer,
        reply: IoReply,
        layer_after: IoLayer,
        after: DecodeRun,
        call: IoCall,
    ) -> bool {
        let id = self.facts.source_id.id;
        let resolved = self.facts.resolved.id;
        match (self.stage, reply) {
            (RunStage::Closing, IoReply::Closed) => {
                &&& layer_after == layer
                &&& self.opens_demuxer(layer, after, call)
            },
            (RunStage::OpeningDemuxer, IoReply::Opened { handle }) => match handle {
                Some(demuxer) => {
                    &&& layer_after == (IoLayer { demuxers: layer_after.demuxers, ..layer })
                    &&& layer_after.demuxers@ == layer.demuxers@.insert(resolved, demuxer)
                    &&& self.opens_decoder(layer_after, demuxer, after, call)
                },
                None => layer_after == layer && self.ends(after, call, IoCall::NoFrame),
            },
            (RunStage::OpeningDecoder { demuxer }, IoReply::Opened { handle }) => match handle {
                Some(decoder) => {
                    &&& layer_after == (IoLayer { decoders: layer_after.decoders, ..layer })
                    &&& layer_after.decoders@ == layer.decoders@.insert(resolved, decoder)
                    &&& self.positions(layer_after, demuxer, decoder, after, call)
                },
                None => layer_after == layer && self.ends(after, call, IoCall::NoFrame),
            },
            (
                RunStage::Positioning { demuxer, decoder, flush },
                IoReply::Positioned { target, hw },
            ) => match target {
                    Some(target) => self.starts_reading(
                        layer,
                        Reader { demuxer, decoder, hw, target, read: 0, slot: None },
                        flush,
                        layer_after,
                        after,
                        call,
                    ),
                    None => layer_after == layer && self.ends(after, call, IoCall::NoFrame),
                },
            (RunStage::Reading { at }, IoReply::Packet { packet }) => match packet {
                Some(packet) => if self.goal is Host {
                    &&& layer_after == layer
                    &&& after == self.at(RunStage::Decoding { at, packet })
                    &&& call == (IoCall::Decode { decoder: at.decoder, slot: at.slot->0, packet })
                } else {
                    &&& layer_after == (IoLayer { interop: layer_after.interop, ..layer })
                    &&& layer_after.interop@ == layer.interop@.begun(id, self.facts.info->0, at.hw)
                    &&& exists|step: TargetStep| #[trigger]
                        layer.interop@.begins_with(id, self.facts.info->0, at.hw, step)
                            && self.steps(at, packet, step, after, call)
                },
                None => if self.goal is Host {
                    &&& layer_after == layer
                    &&& after == self.at(RunStage::Draining { at })
                    &&& call == (IoCall::Drain { decoder: at.decoder, slot: at.slot->0 })
                } else {
                    layer_after == layer && self.ends(after, call, IoCall::NoFrame)
                },
            },
            (RunStage::Decoding { at, packet }, IoReply::Decoded { frame }) => match frame {
                Some(frame) => if effective_pts(frame.pts, packet.pts) >= at.target {
                    self.finds(
                        layer,
                        at,
                        frame.meta,
                        layer_after,
                        after,
                        call,
                    )
                } else {
                    self.reads_on(layer, at, layer_after, after, call)
                },
                None => self.reads_on(layer, at, layer_after, after, call),
            },
            (RunStage::Draining { at }, IoReply::Decoded { frame }) => match frame {
                Some(frame) => if frame.pts >= at.target {
                    self.finds(
                        layer,
                        at,
                        frame.meta,
                        layer_after,
                        after,
                        call,
                    )
                } else {
                    &&& layer_after == layer
                    &&& after == self
                    &&& call == (IoCall::Drain { decoder: at.decoder, slot: at.slot->0 })
                },
                None => self.gives_up(layer, at, layer_after, after, call),
            },
            (RunStage::Allocating { at, packet }, IoReply::Allocated { planes }) => {
                &&& layer_after == (IoLayer { interop: layer_after.interop, ..layer })
                &&& layer_after.interop@ == layer.interop@.after_allocation(id, planes)
                &&& match planes {
                    Some(planes) => self.steps(
                        at,
                        packet,
                        TargetStep::Decode { planes, wait: None },
                        after,
                        call,
                    ),
                    None => self.ends(after, call, IoCall::NoFrame),
                }
            },
            (RunStage::DecodingTextures { at, packet, planes }, IoReply::Outcome { outcome }) =>
                match outcome {
                    DecodeOutcome::Frame(frame) => if effective_pts(frame.pts, packet.pts)
                        >= at.target {
                        self.holds(
                            layer,
                            InteropFrame {
                                planes,
                                meta: frame.meta,
                                pts: frame.pts,
                                width: frame.width,
                                height: frame.height,
                            },
                            layer_after,
                            after,
                            call,
                        )
                    } else {
                        self.reads_on(layer, at, layer_after, after, call)
                    },
                    DecodeOutcome::NoFrame => self.reads_on(layer, at, layer_after, after, call),
                    DecodeOutcome::Failed => layer_after == layer && self.ends(
                        after,
                        call,
                        IoCall::NoFrame,
                    ),
                },
            _ => true,
        }
    }

    fn end(&mut self, result: IoCall) -> (r: IoCall)
        ensures
            old(self).ends(*final(self), r, result),
    {
        self.stage = RunStage::Over;
        result
    }

    fn is_frozen(&self) -> (r: bool)
        ensures
            r == self.frozen(),
    {
        self.goal == Goal::Host && self.facts.still
    }

    fn position(&mut self, layer: &IoLayer, demuxer: i64, decoder: i64) -> (r: IoCall)
        ensures
            old(self).positions(*layer, demuxer, decoder, *final(self), r),
    {
        let previous: Option<i64> = layer.last_decoded_pts.get(self.facts.source_id.id);
        let frozen: bool = self.is_frozen();
        let needed: bool = frozen || needs_seek(previous, self.pts, layer.project_tb.den);
        self.stage = RunStage::Positioning { demuxer, decoder, flush: needed };
        IoCall::Position {
            demuxer,
            decoder,
            pts: if frozen { 0 } else { self.pts },
            seek: needed && !frozen,
            flush: needed,
        }
    }

    fn get_or_open_decoder(&mut self, layer: &IoLayer, demuxer: i64) -> (r: IoCall)
        ensures
            old(self).opens_decoder(*layer, demuxer, *final(self), r),
    {
        match layer.decoders.get(self.facts.resolved.id) {
            Some(decoder) => self.position(layer, demuxer, decoder),
            None => {
                self.stage = RunStage::OpeningDecoder { demuxer };
                IoCall::OpenDecoder {
                    resolved: self.facts.resolved,
                    demuxer,
                    software: self.facts.resolved_still,
                }
            },
        }
    }

    fn get_or_open_demuxer(&mut self, layer: &IoLayer) -> (r: IoCall)
        ensures
            old(self).opens_demuxer(*layer, *final(self), r),
    {
        match layer.demuxers.get(self.facts.resolved.id) {
            Some(demuxer) => self.get_or_open_decoder(layer, demuxer),
            None => {
                if self.facts.has_path {
                    self.stage = RunStage::OpeningDemuxer;
                    IoCall::OpenDemuxer { resolved: self.facts.resolved }
                } else {
                    self.end(IoCall::NoFrame)
                }
            },
        }
    }

    fn give_up(&mut self, layer: &mut IoLayer, at: Reader) -> (r: IoCall)
        requires
            old(layer).wf(),
            old(self).goal is Host ==> at.slot is Some && at.slot->0.tier < 4,
        ensures
            final(layer).wf(),
            old(self).gives_up(*old(layer), at, *final(layer), *final(self), r),
    {
        if self.goal == Goal::Textures {
            return self.end(IoCall::NoFrame);
        }
        if let Some(slot) = at.slot {
            layer.pool.release(slot);
        }
        if let Some(previous) = layer.last_decoded_pts.get(self.facts.source_id.id) {
            if let Some(frame) = layer.cache.touch(self.facts.source_id, previous) {
                return self.end(IoCall::Cached { slot: frame.0, meta: frame.1 });
            }
        }
        self.end(IoCall::NoFrame)
    }

    fn read_on(&mut self, layer: &mut IoLayer, at: Reader) -> (r: IoCall)
        requires
            old(layer).wf(),
            old(self).inv(),
            old(self).reader() == Some(at),
        ensures
            final(layer).wf(),
            final(self).inv(),
            old(self).reads_on(*old(layer), at, *final(layer), *final(self), r),
    {
        if at.read + 1 < MAX_PACKETS {
            let mut next: Reader = at;
            next.read = at.read + 1;
            self.stage = RunStage::Reading { at: next };
            IoCall::ReadPacket { demuxer: at.demuxer }
        } else {
            self.give_up(layer, at)
        }
    }

    fn find_frame(&mut self, layer: &mut IoLayer, at: Reader, meta: DecodedFrameMeta) -> (r: IoCall)
        requires
            old(layer).wf(),
            at.slot is Some,
            at.slot->0.tier < 4,
        ensures
            final(layer).wf(),
            old(self).finds(*old(layer), at, meta, *final(layer), *final(self), r),
    {
        match at.slot {
            Some(slot) => {
                layer.last_decoded_pts.insert(self.facts.source_id.id, self.pts);
                layer.cache.insert(
                    &mut layer.pool,
                    self.facts.source_id,
                    self.pts,
                    slot,
                    meta,
                );
                self.end(IoCall::Cached { slot, meta })
            },
            None => self.end(IoCall::NoFrame),
        }
    }

    fn step(&mut self, at: Reader, packet: Packet, step: TargetStep) -> (r: IoCall)
        requires
            old(self).inv(),
            old(self).goal is Textures,
            at.read < MAX_PACKETS,
        ensures
            final(self).inv(),
            old(self).steps(at, packet, step, *final(self), r),
    {
        match step {
            TargetStep::Unavailable(_) => self.end(IoCall::NoFrame),
            TargetStep::Allocate { width, height } => {
                self.stage = RunStage::Allocating { at, packet };
                IoCall::AllocateTextures { width, height }
            },
            TargetStep::Decode { planes, wait } => {
                self.stage = RunStage::DecodingTextures { at, packet, planes };
                IoCall::DecodeTextures { decoder: at.decoder, packet, planes, wait }
            },
        }
    }

    fn start_reading(&mut self, layer: &mut IoLayer, at: Reader, flush: bool) -> (r: IoCall)
        requires
            old(layer).wf(),
            old(self).inv(),
            at.read == 0,
        ensures
            final(layer).wf(),
            final(self).inv(),
            old(self).starts_reading(*old(layer), at, flush, *final(layer), *final(self), r),
    {
        if self.goal == Goal::Host {
            match self.facts.frame_bytes {
                None => self.end(IoCall::NoFrame),
                Some(required) => {
                    let slot: Option<FrameSlotId> = layer.acquire_slot(required);
                    assert(makes_room(
                        old(layer).cache,
                        old(layer).pool,
                        layer.cache,
                        layer.pool,
                        required,
                        slot,
                    ));
                    if slot.is_none() {
                        return self.end(IoCall::NoFrame);
                    }
                    let mut reader: Reader = at;
                    reader.slot = slot;
                    self.stage = RunStage::Reading { at: reader };
                    IoCall::ReadPacket { demuxer: at.demuxer }
                },
            }
        } else {
            if flush {
                layer.interop.invalidate(self.facts.source_id);
            }
            self.stage = RunStage::Reading { at };
            IoCall::ReadPacket { demuxer: at.demuxer }
        }
    }

    fn packet_read(&mut self, layer: &mut IoLayer, at: Reader, packet: Option<Packet>) -> (r: IoCall)
        requires
            old(layer).wf(),
            old(self).inv(),
            old(self).stage == (RunStage::Reading { at }),
        ensures
            final(layer).wf(),
            final(self).inv(),
            old(self).follows(
                *old(layer),
                IoReply::Packet { packet },
                *final(layer),
                *final(self),
                r,
            ),
    {
        match (self.goal, packet, at.slot) {
            (Goal::Host, Some(packet), Some(slot)) => {
                self.stage = RunStage::Decoding { at, packet };
                IoCall::Decode { decoder: at.decoder, slot, packet }
            },
            (Goal::Host, None, Some(slot)) => {
                self.stage = RunStage::Draining { at };
                IoCall::Drain { decoder: at.decoder, slot }
            },
            (Goal::Textures, Some(packet), _) => {
                match self.facts.info {
                    Some(info) => {
                        let step = layer.interop.decode_into_target(
                            self.facts.source_id,
                            &info,
                            at.hw,
                        );
                        assert(old(layer).interop@.begins_with(
                            self.facts.source_id.id,
                            self.facts.info->0,
                            at.hw,
                            step,
                        ));
                        self.step(at, packet, step)
                    },
                    None => self.end(IoCall::NoFrame),
                }
            },
            _ => self.end(IoCall::NoFrame),
        }
    }

    fn outcome(&mut self, layer: &mut IoLayer, outcome: DecodeOutcome) -> (r: IoCall)
        requires
            old(layer).wf(),
            old(self).inv(),
            old(self).stage is DecodingTextures,
        ensures
            final(layer).wf(),
            final(self).inv(),
            old(self).follows(
                *old(layer),
                IoReply::Outcome { outcome },
                *final(layer),
                *final(self),
                r,
            ),
    {
        match self.stage {
            RunStage::DecodingTextures { at, packet, planes } => {
                match InteropDecodeTargets::frame_decoded(planes, outcome) {
                    InteropDecode::Decoded(frame) => {
                        let pts: i64 = if frame.pts == 0 { packet.pts } else { frame.pts };
                        if pts < at.target {
                            return self.read_on(layer, at);
                        }
                        layer.last_decoded_pts.insert(self.facts.source_id.id, self.pts);
                        layer.interop.mark_held(self.facts.source_id, self.pts, &frame);
                        self.end(IoCall::Resident { frame })
                    },
                    InteropDecode::Pending => self.read_on(layer, at),
                    InteropDecode::Unavailable(_) => self.end(IoCall::NoFrame),
                }
            },
            _ => IoCall::NoFrame,
        }
    }

    fn decoded(&mut self, layer: &mut IoLayer, frame: Option<DecodedFrame>) -> (r: IoCall)
        requires
            old(layer).wf(),
            old(self).inv(),
            old(self).stage is Decoding || old(self).stage is Draining,
        ensures
            final(layer).wf(),
            final(self).inv(),
            old(self).follows(
                *old(layer),
                IoReply::Decoded { frame },
                *final(layer),
                *final(self),
                r,
            ),
    {
        match (self.stage, frame) {
            (RunStage::Decoding { at, packet }, Some(frame)) => {
                let pts: i64 = if frame.pts == 0 { packet.pts } else { frame.pts };
                if pts >= at.target {
                    self.find_frame(layer, at, frame.meta)
                } else {
                    self.read_on(layer, at)
                }
            },
            (RunStage::Decoding { at, .. }, None) => self.read_on(layer, at),
            (RunStage::Draining { at }, Some(frame)) => {
                if frame.pts >= at.target {
                    return self.find_frame(layer, at, frame.meta);
                }
                match at.slot {
                    Some(slot) => IoCall::Drain { decoder: at.decoder, slot },
                    None => IoCall::NoFrame,
                }
            },
            (RunStage::Draining { at }, None) => self.give_up(layer, at),
            _ => IoCall::NoFrame,
        }
    }

    /// Take what came of the last call and say what to do next.
    pub fn resume(&mut self, layer: &mut IoLayer, reply: IoReply) -> (r: IoCall)
        requires
            old(layer).wf(),
            old(self).inv(),
            old(self).answers(*old(layer), reply),
        ensures
            final(layer).wf(),
            final(self).inv(),
            old(self).follows(*old(layer), reply, *final(layer), *final(self), r),
    {
        match (self.stage, reply) {
            (RunStage::Closing, IoReply::Closed) => self.get_or_open_demuxer(layer),
            (RunStage::OpeningDemuxer, IoReply::Opened { handle }) => {
                match handle {
                    Some(demuxer) => {
                        layer.demuxers.insert(self.facts.resolved.id, demuxer);
                        self.get_or_open_decoder(layer, demuxer)
                    },
                    None => self.end(IoCall::NoFrame),
                }
            },
            (RunStage::OpeningDecoder { demuxer }, IoReply::Opened { handle }) => {
                match handle {
                    Some(decoder) => {
                        layer.decoders.insert(self.facts.resolved.id, decoder);
                        self.position(layer, demuxer, decoder)
                    },
                    None => self.end(IoCall::NoFrame),
                }
            },
            (
                RunStage::Positioning { demuxer, decoder, flush },
                IoReply::Positioned { target, hw },
            ) => {
                match target {
                    Some(target) => {
                        let at: Reader = Reader {
                            demuxer,
                            decoder,
                            hw,
                            target,
                            read: 0,
                            slot: None,
                        };
                        self.start_reading(layer, at, flush)
                    },
                    None => self.end(IoCall::NoFrame),
                }
            },
            (RunStage::Reading { at }, IoReply::Packet { packet }) => {
                self.packet_read(layer, at, packet)
            },
            (_, IoReply::Decoded { frame }) => self.decoded(layer, frame),
            (RunStage::Allocating { at, packet }, IoReply::Allocated { planes }) => {
                let step = layer.interop.target_allocated(self.facts.source_id, planes);
                self.step(at, packet, step)
            },
            (_, IoReply::Outcome { outcome }) => self.outcome(layer, outcome),
            _ => self.end(IoCall::NoFrame),
        }
    }
}

impl IoLayer {
    /// What a request for a frame in a staging slot begins with.
    pub open spec fn begins_blocking(
        self,
        facts: SourceFacts,
        pts: i64,
        layer_after: IoLayer,
        run: DecodeRun,
        call: IoCall,
    ) -> bool {
        let key = (facts.source_id.id, pts);
        let fresh = DecodeRun { facts, pts, goal: Goal::Host, stage: RunStage::Over };
        &&& touched(self.cache, layer_after.cache, key)
        &&& match self.cache.lookup(key) {
            Some(frame) => {
                &&& layer_after == (IoLayer { cache: layer_after.cache, ..self })
                &&& run == fresh
                &&& call == (IoCall::Cached { slot: frame.0, meta: frame.1 })
            },
            None => if facts.still {
                &&& layer_after == (IoLayer {
                    cache: layer_after.cache,
                    demuxers: layer_after.demuxers,
                    decoders: layer_after.decoders,
                    last_decoded_pts: layer_after.last_decoded_pts,
                    ..self
                })
                &&& layer_after.demuxers@ == self.demuxers@.remove(facts.resolved.id)
                &&& layer_after.decoders@ == self.decoders@.remove(facts.resolved.id)
                &&& layer_after.last_decoded_pts@ == self.last_decoded_pts@.remove(facts.source_id.id)
                &&& run == fresh.at(RunStage::Closing)
                &&& call == (IoCall::Close {
                    demuxer: find(self.demuxers@, facts.resolved.id),
                    decoder: find(self.decoders@, facts.resolved.id),
                })
            } else {
                &&& layer_after == (IoLayer { cache: layer_after.cache, ..self })
                &&& fresh.opens_demuxer(layer_after, run, call)
            },
        }
    }

    /// What a request for a frame in the source's textures begins with.
    pub open spec fn begins_interop(
        self,
        facts: SourceFacts,
        pts: i64,
        run: DecodeRun,
        call: IoCall,
    ) -> bool {
        let fresh = DecodeRun { facts, pts, goal: Goal::Textures, stage: RunStage::Over };
        let id = facts.source_id.id;
        if self.interop@.available && self.interop@.held_frame(id, pts) is Some {
            &&& run.stage is Over
            &&& call == (IoCall::Resident { frame: self.interop@.held_frame(id, pts)->0 })
        } else if !self.interop@.available || self.interop@.rejected.dom().contains(id)
            || facts.resolved_still || facts.info is None {
            run.stage is Over && call is NoFrame
        } else {
            fresh.opens_demuxer(self, run, call)
        }
    }

    /// Start decoding a frame into a staging slot, unless it is cached.
    pub fn decode_blocking(&mut self, facts: SourceFacts, pts: i64) -> (r: (DecodeRun, IoCall))
        requires
            old(self).wf(),
        ensures
            final(self).wf(),
            r.0.inv(),
            old(self).begins_blocking(facts, pts, *final(self), r.0, r.1),
    {
        let mut run: DecodeRun = DecodeRun { facts, pts, goal: Goal::Host, stage: RunStage::Over };
        if let Some(frame) = self.cache.touch(facts.source_id, pts) {
            return (run, IoCall::Cached { slot: frame.0, meta: frame.1 });
        }
        if facts.still {
            let demuxer: Option<i64> = self.demuxers.remove(facts.resolved.id);
            let decoder: Option<i64> = self.decoders.remove(facts.resolved.id);
            let _ = self.last_decoded_pts.remove(facts.source_id.id);
            run.stage = RunStage::Closing;
            return (run, IoCall::Close { demuxer, decoder });
        }
        let call = run.get_or_open_demuxer(self);
        (run, call)
    }

    /// Start decoding a frame into the source's textures, unless they hold it.
    pub fn decode_interop(&self, facts: SourceFacts, pts: i64) -> (r: (DecodeRun, IoCall))
        requires
            self.wf(),
        ensures
            r.0.inv(),
            self.begins_interop(facts, pts, r.0, r.1),
    {
        let mut run: DecodeRun = DecodeRun {
            facts,
            pts,
            goal: Goal::Host,
            stage: RunStage::Over,
        };
        if !self.interop.is_available() {
            return (run, IoCall::NoFrame);
        }
        if let Some(frame) = self.interop.held_frame(facts.source_id, pts) {
            return (run, IoCall::Resident { frame });
        }
        if self.interop.rejection_reason(facts.source_id).is_some() {
            return (run, IoCall::NoFrame);
        }
        if facts.resolved_still || facts.info.is_none() {
            return (run, IoCall::NoFrame);
        }
        run.goal = Goal::Textures;
        let call = run.get_or_open_demuxer(self);
        (run, call)
    }
}

/// A request that fails gives its slot back, and a request that succeeds leaves it to the
/// cache: no slot is lost, whatever comes of the decode.
pub proof fn law_no_slot_is_lost(
    run: DecodeRun,
    layer: IoLayer,
    reply: IoReply,
    layer_after: IoLayer,
    after: DecodeRun,
    call: IoCall,
    at: Reader,
    slot: FrameSlotId,
)
    requires
        run.inv(),
        run.goal is Host,
        run.reader() == Some(at),
        at.slot == Some(slot),
        layer.cache.owns_its_slots(layer.pool),
        layer.pool.has(slot),
        !layer.pool.is_free(slot),
        layer.cache.lacks(slot),
        layer_after.cache.wf(),
        run.answers(layer, reply),
        run.follows(layer, reply, layer_after, after, call),
    ensures
        after.stage is Over ==> {
            ||| layer_after.pool.is_free(slot)
            ||| layer_after.cache.lookup((run.facts.source_id.id, run.pts)) matches Some(frame)
                && frame.0 == slot
        },
        !(after.stage is Over) ==> (after.reader() matches Some(next) && next.slot == Some(slot)),
{
    if after.stage is Over {
        if releases(layer.pool, layer_after.pool, slot) {
            crate::io::slot_pool::law_release_frees_the_slot(layer.pool, layer_after.pool, slot);
        }
    }
}

/// The frame that is cached is one at or past the time looked for, and it is cached under
/// the time that was asked for.
pub proof fn law_cached_frames_are_not_early(
    run: DecodeRun,
    layer: IoLayer,
    frame: DecodedFrame,
    layer_after: IoLayer,
    after: DecodeRun,
    call: IoCall,
    at: Reader,
    packet: Packet,
)
    requires
        run.inv(),
        run.stage == (RunStage::Decoding { at, packet }),
        run.follows(layer, IoReply::Decoded { frame: Some(frame) }, layer_after, after, call),
    ensures
        find(layer_after.last_decoded_pts@, run.facts.source_id.id) == Some(run.pts)
            && effective_pts(frame.pts, packet.pts) >= at.target || layer_after.last_decoded_pts
            == layer.last_decoded_pts && effective_pts(frame.pts, packet.pts) < at.target,
{
}

/// The decoder is drained only when the file has run dry: the bound on packets alone never
/// puts it there, for it would take no more packets afterwards.
pub proof fn law_only_the_end_drains(
    run: DecodeRun,
    layer: IoLayer,
    reply: IoReply,
    layer_after: IoLayer,
    after: DecodeRun,
    call: IoCall,
)
    requires
        run.inv(),
        run.answers(layer, reply),
        run.follows(layer, reply, layer_after, after, call),
        call is Drain,
    ensures
        reply == (IoReply::Packet { packet: None }) || run.stage is Draining,
{
}

/// A request reads a bounded number of packets: every packet brings it nearer to its end.
pub proof fn law_reading_is_bounded(
    run: DecodeRun,
    layer: IoLayer,
    reply: IoReply,
    layer_after: IoLayer,
    after: DecodeRun,
    call: IoCall,
    at: Reader,
)
    requires
        run.inv(),
        run.reader() == Some(at),
        !(run.stage is Reading),
        run.answers(layer, reply),
        run.follows(layer, reply, layer_after, after, call),
        call is ReadPacket,
    ensures
        after.reader() matches Some(next) && at.read < next.read < MAX_PACKETS,
{
}

/// A frame that follows the one decoded last is decoded without a seek, so that playing
/// forward never throws the decoder's references away.
pub proof fn law_playing_forward_never_seeks(previous: i64, pts: i64, den: i64)
    requires
        previous != i64::MIN,
        previous <= pts,
        pts - previous <= 5 * den,
    ensures
        !must_seek(Some(previous), pts, den),
{
}

/// What a request for a staging slot makes of a frame that came out of a packet.  The frame
/// counts at its own time, or at its packet's where it has none.  At or past the time looked
/// for it is the one: it is handed out from the request's slot, with its own layout and
/// colour, and can be found in the cache at the time asked for.  Before that time it is
/// passed over, and the next packet is read into the same slot.
pub proof fn law_decoded_frame_is_delivered_or_passed_over(
    run: DecodeRun,
    layer: IoLayer,
    frame: DecodedFrame,
    layer_after: IoLayer,
    after: DecodeRun,
    call: IoCall,
    at: Reader,
    packet: Packet,
)
    requires
        run.inv(),
        layer.pool.wf(),
        run.stage == (RunStage::Decoding { at, packet }),
        run.follows(layer, IoReply::Decoded { frame: Some(frame) }, layer_after, after, call),
    ensures
        ({
            let time = if frame.pts != 0 { frame.pts } else { packet.pts };
            let id = run.facts.source_id.id;
            &&& time >= at.target ==> {
                &&& call == (IoCall::Cached { slot: at.slot->0, meta: frame.meta })
                &&& after == (DecodeRun { stage: RunStage::Over, ..run })
                &&& layer_after.cache.lookup((id, run.pts)) == Some((at.slot->0, frame.meta))
                &&& layer_after.last_decoded_pts@.dom().contains(id)
                &&& layer_after.last_decoded_pts@[id] == run.pts
            }
            &&& time < at.target && at.read < 599 ==> {
                &&& call == (IoCall::ReadPacket { demuxer: at.demuxer })
                &&& after == (DecodeRun {
                    stage: RunStage::Reading { at: Reader { read: (at.read + 1) as u32, ..at } },
                    ..run
                })
                &&& layer_after == layer
            }
            &&& time < at.target && at.read >= 599 ==> after.stage is Over
                && layer_after.pool.is_free(at.slot->0)
        }),
{
    lemma_inserted_is_found(run, layer, at, frame.meta, layer_after, after, call);
    lemma_given_up_slot_is_free(run, layer, at, layer_after, after, call);
}

/// What a request makes of a frame that the decoder held back to the end of the file.  Such
/// a frame counts at its own time.  At or past the time looked for it is the one, and is
/// handed out and cached as any other; before it the decoder is asked for another, and
/// nothing else changes.
pub proof fn law_drained_frame_is_delivered_or_passed_over(
    run: DecodeRun,
    layer: IoLayer,
    frame: DecodedFrame,
    layer_after: IoLayer,
    after: DecodeRun,
    call: IoCall,
    at: Reader,
)
    requires
        run.inv(),
        run.stage == (RunStage::Draining { at }),
        run.follows(layer, IoReply::Decoded { frame: Some(frame) }, layer_after, after, call),
    ensures
        ({
            let id = run.facts.source_id.id;
            &&& frame.pts >= at.target ==> {
                &&& call == (IoCall::Cached { slot: at.slot->0, meta: frame.meta })
                &&& after == (DecodeRun { stage: RunStage::Over, ..run })
                &&& layer_after.cache.lookup((id, run.pts)) == Some((at.slot->0, frame.meta))
                &&& layer_after.last_decoded_pts@.dom().contains(id)
                &&& layer_after.last_decoded_pts@[id] == run.pts
            }
            &&& frame.pts < at.target ==> {
                &&& call == (IoCall::Drain { decoder: at.decoder, slot: at.slot->0 })
                &&& after == run
                &&& layer_after == layer
            }
        }),
{
    lemma_inserted_is_found(run, layer, at, frame.meta, layer_after, after, call);
}

proof fn lemma_inserted_is_found(
    run: DecodeRun,
    layer: IoLayer,
    at: Reader,
    meta: DecodedFrameMeta,
    layer_after: IoLayer,
    after: DecodeRun,
    call: IoCall,
)
    ensures
        run.finds(layer, at, meta, layer_after, after, call) ==> {
            let id = run.facts.source_id.id;
            &&& layer_after.cache.lookup((id, run.pts)) == Some((at.slot->0, meta))
            &&& layer_after.last_decoded_pts@.dom().contains(id)
            &&& layer_after.last_decoded_pts@[id] == run.pts
        },
{
}

proof fn lemma_given_up_slot_is_free(
    run: DecodeRun,
    layer: IoLayer,
    at: Reader,
    layer_after: IoLayer,
    after: DecodeRun,
    call: IoCall,
)
    requires
        run.goal is Host,
        at.slot is Some,
    ensures
        run.gives_up(layer, at, layer_after, after, call) && at.slot->0.tier
            < layer.pool.tiers().len() ==> layer_after.pool.is_free(at.slot->0),
{
    if run.gives_up(layer, at, layer_after, after, call) && at.slot->0.tier
        < layer.pool.tiers().len() {
        let free = layer.pool.tiers()[at.slot->0.tier as int].free();
        assert(free.push(at.slot->0.index)[free.len() as int] == at.slot->0.index);
    }
}

/// What a request for the textures makes of a decoded frame, by the same rule: at or past the
/// time looked for the textures hold it at the time asked for, and before it the next packet
/// is read.
pub proof fn law_texture_frame_is_delivered_or_passed_over(
    run: DecodeRun,
    layer: IoLayer,
    frame: DecodedFrame,
    layer_after: IoLayer,
    after: DecodeRun,
    call: IoCall,
    at: Reader,
    packet: Packet,
    planes: InteropPlanes,
)
    requires
        run.inv(),
        run.stage == (RunStage::DecodingTextures { at, packet, planes }),
        run.follows(
            layer,
            IoReply::Outcome { outcome: DecodeOutcome::Frame(frame) },
            layer_after,
            after,
            call,
        ),
    ensures
        ({
            let time = if frame.pts != 0 { frame.pts } else { packet.pts };
            let id = run.facts.source_id.id;
            &&& time >= at.target ==> {
                &&& call matches IoCall::Resident { frame: shown } && {
                    &&& shown.planes == planes
                    &&& shown.meta == frame.meta
                    &&& shown.pts == frame.pts
                    &&& (shown.width, shown.height) == (frame.width, frame.height)
                }
                &&& after == (DecodeRun { stage: RunStage::Over, ..run })
                &&& layer_after.last_decoded_pts@.dom().contains(id)
                &&& layer_after.last_decoded_pts@[id] == run.pts
                &&& layer_after.cache == layer.cache
            }
            &&& time < at.target && at.read < 599 ==> {
                &&& call == (IoCall::ReadPacket { demuxer: at.demuxer })
                &&& after.stage == (RunStage::Reading {
                    at: Reader { read: (at.read + 1) as u32, ..at },
                })
                &&& layer_after == layer
            }
        }),
{
}

/// Without a frame a request goes on where there is more to be had: with the next packet
/// after a packet that brought none, until 600 packets have been read.  It ends where there
/// is not: after the last packet allowed, and at the end of the file once the decoder holds
/// nothing back.  A request that ends so gives its slot back and shows the frame of the
/// source that was decoded last, if that is still cached.
pub proof fn law_no_frame_reads_on_or_shows_the_last_one(
    run: DecodeRun,
    layer: IoLayer,
    layer_after: IoLayer,
    after: DecodeRun,
    call: IoCall,
    at: Reader,
)
    requires
        run.inv(),
        layer.pool.wf(),
        run.stage == (RunStage::Draining { at }) || run.stage is Decoding && run.stage->Decoding_at
            == at,
        run.follows(layer, IoReply::Decoded { frame: None }, layer_after, after, call),
    ensures
        ({
            let id = run.facts.source_id.id;
            let known = layer.last_decoded_pts@.dom().contains(id);
            let shown = layer.cache.lookup((id, layer.last_decoded_pts@[id]));
            if run.stage is Decoding && at.read < 599 {
                &&& call == (IoCall::ReadPacket { demuxer: at.demuxer })
                &&& after.stage == (RunStage::Reading {
                    at: Reader { read: (at.read + 1) as u32, ..at },
                })
                &&& layer_after == layer
            } else {
                &&& after.stage is Over
                &&& layer_after.pool.is_free(at.slot->0)
                &&& layer_after.last_decoded_pts == layer.last_decoded_pts
                &&& layer_after.cache.entries() == layer.cache.entries()
                &&& call == if known && shown is Some {
                    IoCall::Cached { slot: (shown->0).0, meta: (shown->0).1 }
                } else {
                    IoCall::NoFrame
                }
            }
        }),
{
    lemma_given_up_slot_is_free(run, layer, at, layer_after, after, call);
}

/// A packet of the file goes to the request's own decoder, into its own slot; the end of the
/// file has the decoder give out what it holds back, into the same slot.
pub proof fn law_packets_go_to_the_decoder(
    run: DecodeRun,
    layer: IoLayer,
    packet: Option<Packet>,
    layer_after: IoLayer,
    after: DecodeRun,
    call: IoCall,
    at: Reader,
)
    requires
        run.inv(),
        run.goal is Host,
        run.stage == (RunStage::Reading { at }),
        run.follows(layer, IoReply::Packet { packet }, layer_after, after, call),
    ensures
        layer_after == layer,
        match packet {
            Some(p) => {
                &&& call == (IoCall::Decode { decoder: at.decoder, slot: at.slot->0, packet: p })
                &&& after.stage == (RunStage::Decoding { at, packet: p })
            },
            None => {
                &&& call == (IoCall::Drain { decoder: at.decoder, slot: at.slot->0 })
                &&& after.stage == (RunStage::Draining { at })
            },
        },
{
}

/// When a decoder is sought anew: for a source of which nothing has been decoded, for a time
/// before the one decoded last, and for one more than five seconds past it; and for a still
/// image always, but that one is read from its start without a seek.  Otherwise the decoder
/// reads on from where it is.
pub proof fn law_seeks_only_when_reading_on_does_not_get_there(
    run: DecodeRun,
    layer: IoLayer,
    demuxer: i64,
    decoder: i64,
    after: DecodeRun,
    call: IoCall,
)
    requires
        run.positions(layer, demuxer, decoder, after, call),
    ensures
        ({
            let id = run.facts.source_id.id;
            let known = layer.last_decoded_pts@.dom().contains(id);
            let last = layer.last_decoded_pts@[id];
            let still = run.goal is Host && run.facts.still;
            let ahead = known && last != i64::MIN && last <= run.pts && run.pts - last <= 5
                * layer.project_tb.den;
            &&& call is Position
            &&& (call->Position_demuxer, call->Position_decoder) == (demuxer, decoder)
            &&& call->Position_pts == if still { 0 } else { run.pts }
            &&& call->seek <==> !still && !ahead
            &&& call->Position_flush <==> still || !ahead
            &&& after.stage == (RunStage::Positioning {
                demuxer,
                decoder,
                flush: call->Position_flush,
            })
            &&& (after.facts, after.pts, after.goal) == (run.facts, run.pts, run.goal)
        }),
{
}

/// Once the place in the stream is known, a request reads from the file it opened, towards
/// exactly that place, with no packet counted yet, into a slot for the bytes of the source's
/// frames; without a place, a size or a slot there is no frame.
pub proof fn law_reading_starts_at_the_place_found(
    run: DecodeRun,
    layer: IoLayer,
    target: Option<i64>,
    hw: HwDeviceType,
    layer_after: IoLayer,
    after: DecodeRun,
    call: IoCall,
    demuxer: i64,
    decoder: i64,
    flush: bool,
)
    requires
        run.inv(),
        run.stage == (RunStage::Positioning { demuxer, decoder, flush }),
        run.follows(layer, IoReply::Positioned { target, hw }, layer_after, after, call),
    ensures
        target is None || run.goal is Host && run.facts.frame_bytes is None ==> call is NoFrame
            && layer_after == layer,
        call is NoFrame || call == (IoCall::ReadPacket { demuxer }),
        call is NoFrame <==> after.stage is Over,
        call is ReadPacket ==> {
            &&& after.stage matches RunStage::Reading { at }
            &&& (at.demuxer, at.decoder, at.hw) == (demuxer, decoder, hw)
            &&& Some(at.target) == target
            &&& at.read == 0
            &&& run.goal is Host ==> at.slot is Some && makes_room(
                layer.cache,
                layer.pool,
                layer_after.cache,
                layer_after.pool,
                run.facts.frame_bytes->0,
                at.slot,
            )
        },
        (after.facts, after.pts, after.goal) == (run.facts, run.pts, run.goal),
        run.goal is Textures && target is Some ==> call is ReadPacket,
        layer_after.last_decoded_pts == layer.last_decoded_pts,
{
}

/// The slot made for a frame holds it: it lies in the first tier whose slots are large
/// enough.  Frames leave the cache for it from the least recently used one on, and those that
/// stay are as they were.
pub proof fn law_room_is_large_enough(
    cache: FrameCache,
    pool: FrameSlotPool,
    cache_after: FrameCache,
    pool_after: FrameSlotPool,
    required: u64,
    slot: FrameSlotId,
)
    requires
        pool.wf(),
        makes_room(cache, pool, cache_after, pool_after, required, Some(slot)),
    ensures
        slot.tier < 4,
        pool.tiers()[slot.tier as int].slot_size() >= required,
        forall|i: int|
            0 <= i < slot.tier ==> (#[trigger] pool.tiers()[i]).slot_size() < required,
        exists|k: int|
            0 <= k <= cache.order().len() && cache_after.order() == #[trigger] cache.order().skip(k),
        forall|key: (u32, i64)|
            cache_after.lookup(key) is Some ==> #[trigger] cache_after.lookup(key) == cache.lookup(
                key,
            ),
{
}

/// A cached frame is handed out at once, from where it lies, and nothing is decoded; a frame
/// that is not is decoded from the file that stands in for the source.
pub proof fn law_cached_frames_are_not_decoded_again(
    layer: IoLayer,
    facts: SourceFacts,
    pts: i64,
    layer_after: IoLayer,
    run: DecodeRun,
    call: IoCall,
)
    requires
        layer.begins_blocking(facts, pts, layer_after, run, call),
    ensures
        ({
            let hit = layer.cache.lookup((facts.source_id.id, pts));
            &&& layer_after.cache.entries() == layer.cache.entries()
            &&& layer_after.pool == layer.pool
            &&& (run.facts, run.pts, run.goal) == (facts, pts, Goal::Host)
            &&& hit matches Some(frame) ==> {
                &&& call == (IoCall::Cached { slot: frame.0, meta: frame.1 })
                &&& run.stage is Over
                &&& layer_after.cache.order().len() > 0 && layer_after.cache.order().last() == (
                    facts.source_id.id,
                    pts,
                )
            }
            &&& hit is None ==> !(call is Cached) && !(call is Resident)
            &&& hit is None && facts.still ==> {
                &&& call is Close
                &&& !layer_after.demuxers@.dom().contains(facts.resolved.id)
                &&& !layer_after.decoders@.dom().contains(facts.resolved.id)
                &&& !layer_after.last_decoded_pts@.dom().contains(facts.source_id.id)
                &&& call->Close_demuxer == if layer.demuxers@.dom().contains(facts.resolved.id) {
                    Some(layer.demuxers@[facts.resolved.id])
                } else {
                    None
                }
                &&& call->Close_decoder == if layer.decoders@.dom().contains(facts.resolved.id) {
                    Some(layer.decoders@[facts.resolved.id])
                } else {
                    None
                }
            }
            &&& hit is None && !facts.still ==> {
                &&& layer_after.demuxers == layer.demuxers
                &&& layer_after.decoders == layer.decoders
                &&& layer_after.last_decoded_pts == layer.last_decoded_pts
            }
        }),
{
}

/// A file and a decoder are opened only where none is open for what stands in for the
/// source, the file only if it has a path; what is open is used.  A still image is decoded
/// in software.
pub proof fn law_open_files_and_decoders_are_used(
    run: DecodeRun,
    layer: IoLayer,
    after: DecodeRun,
    call: IoCall,
)
    requires
        run.opens_demuxer(layer, after, call),
    ensures
        ({
            let id = run.facts.resolved.id;
            let file = layer.demuxers@.dom().contains(id);
            let codec = layer.decoders@.dom().contains(id);
            &&& !file && run.facts.has_path ==> {
                &&& call == (IoCall::OpenDemuxer { resolved: run.facts.resolved })
                &&& after.stage is OpeningDemuxer
            }
            &&& !file && !run.facts.has_path ==> call is NoFrame && after.stage is Over
            &&& file && !codec ==> {
                &&& call == (IoCall::OpenDecoder {
                    resolved: run.facts.resolved,
                    demuxer: layer.demuxers@[id],
                    software: run.facts.resolved_still,
                })
                &&& after.stage == (RunStage::OpeningDecoder { demuxer: layer.demuxers@[id] })
            }
            &&& file && codec ==> {
                &&& call is Position
                &&& call->Position_demuxer == layer.demuxers@[id]
                &&& call->Position_decoder == layer.decoders@[id]
            }
            &&& (after.facts, after.pts, after.goal) == (run.facts, run.pts, run.goal)
        }),
{
}

/// What was opened is remembered for what stands in for the source and used at once; what
/// could not be opened ends the request without a frame.
pub proof fn law_what_is_opened_is_remembered(
    run: DecodeRun,
    layer: IoLayer,
    handle: Option<i64>,
    layer_after: IoLayer,
    after: DecodeRun,
    call: IoCall,
)
    requires
        run.stage is OpeningDemuxer || run.stage is OpeningDecoder,
        run.follows(layer, IoReply::Opened { handle }, layer_after, after, call),
    ensures
        ({
            let id = run.facts.resolved.id;
            match handle {
                None => layer_after == layer && call is NoFrame && after.stage is Over,
                Some(h) => if run.stage is OpeningDemuxer {
                    &&& layer_after.demuxers@ == layer.demuxers@.insert(id, h)
                    &&& layer_after.decoders == layer.decoders
                    &&& layer_after.last_decoded_pts == layer.last_decoded_pts
                    &&& call matches IoCall::OpenDecoder { demuxer, .. } ==> demuxer == h
                    &&& call matches IoCall::Position { demuxer, decoder, .. } ==> demuxer == h
                        && layer.decoders@.dom().contains(id) && decoder == layer.decoders@[id]
                    &&& call is OpenDecoder || call is Position
                    &&& call is OpenDecoder <==> !layer.decoders@.dom().contains(id)
                } else {
                    &&& layer_after.decoders@ == layer.decoders@.insert(id, h)
                    &&& layer_after.demuxers == layer.demuxers
                    &&& layer_after.last_decoded_pts == layer.last_decoded_pts
                    &&& call is Position
                    &&& call->Position_decoder == h
                    &&& call->Position_demuxer == run.stage->OpeningDecoder_demuxer
                },
            }
        }),
{
}

/// A frame is decoded into textures only where that can be done: the textures are to be had,
/// the source was not turned down, is no still image, and its stream is known.  A frame the
/// textures hold is shown as it is.
pub proof fn law_textures_hold_or_decode(
    layer: IoLayer,
    facts: SourceFacts,
    pts: i64,
    run: DecodeRun,
    call: IoCall,
)
    requires
        layer.begins_interop(facts, pts, run, call),
    ensures
        ({
            let id = facts.source_id.id;
            let held = layer.interop@.held_frame(id, pts);
            &&& !layer.interop@.available ==> call is NoFrame
            &&& layer.interop@.available && held is Some ==> call == (IoCall::Resident {
                frame: held->0,
            })
            &&& call is Resident ==> layer.interop@.available && held is Some
            &&& !(call is NoFrame) && !(call is Resident) ==> {
                &&& layer.interop@.available
                &&& !layer.interop@.rejected.dom().contains(id)
                &&& !facts.resolved_still
                &&& facts.info is Some
                &&& run.goal is Textures
                &&& (run.facts, run.pts) == (facts, pts)
            }
        }),
{
}

/// A frame that is asked for is there, and is the most recently used one then, or it is asked
/// for with the greatest urgency; nothing leaves the cache for it.
pub proof fn law_a_frame_is_there_or_requested(
    before: FrameCache,
    after: FrameCache,
    source_id: SourceId,
    pts: i64,
    r: Result<(FrameSlotId, DecodedFrameMeta), PrefetchRequest>,
)
    requires
        before.wf(),
        gets(before, after, source_id, pts, r),
    ensures
        r is Ok <==> before.entries().dom().contains((source_id.id, pts)),
        r is Ok ==> r->Ok_0 == before.entries()[(source_id.id, pts)],
        r is Ok ==> after.order().len() > 0 && after.order().last() == (source_id.id, pts),
        r is Err ==> r->Err_0.source_id == source_id && r->Err_0.pts == pts && r->Err_0.priority
            == 0,
        after.entries() == before.entries(),
{
}

/// Every source is asked for at every time, with the greatest urgency, and nothing else is.
pub proof fn law_everything_is_primed(
    requests: Seq<PrefetchRequest>,
    source_ids: Seq<SourceId>,
    pts_list: Seq<i64>,
    i: int,
    j: int,
)
    requires
        primes(requests, source_ids, pts_list),
        0 <= i < pts_list.len(),
        0 <= j < source_ids.len(),
    ensures
        requests.len() == pts_list.len() * source_ids.len(),
        exists|k: int|
            {
                &&& 0 <= k < requests.len()
                &&& (#[trigger] requests[k]).source_id == source_ids[j]
                &&& requests[k].pts == pts_list[i]
                &&& requests[k].priority == 0
            },
{
    let n = source_ids.len() as int;
    let k = i * n + j;
    assert(0 <= k < pts_list.len() * n) by (nonlinear_arith)
        requires
            0 <= i < pts_list.len(),
            0 <= j < n,
            k == i * n + j,
    ;
    assert(requests[i * source_ids.len() + j].source_id == source_ids[j]);
    assert(requests[k].source_id == source_ids[j]);
}

/// Room costs no more than it has to: with a free slot in the tier, no frame leaves the cache;
/// and where no slot can be had, none is left in it.
pub proof fn law_room_costs_only_what_it_must(
    cache: FrameCache,
    pool: FrameSlotPool,
    cache_after: FrameCache,
    pool_after: FrameSlotPool,
    required: u64,
    tier: usize,
    r: Option<FrameSlotId>,
)
    requires
        pool.wf(),
        tier < pool.tiers().len(),
        pool.tiers()[tier as int].slot_size() >= required,
        forall|i: int| 0 <= i < tier ==> (#[trigger] pool.tiers()[i]).slot_size() < required,
        makes_room(cache, pool, cache_after, pool_after, required, r),
    ensures
        pool.tiers()[tier as int].free().len() > 0 ==> r is Some && cache_after.order()
            == cache.order(),
        r is None ==> cache_after.order().len() == 0,
        cache_after.capacity() == cache.capacity(),
{
    let (k, between, t) = choose|k: int, between: FrameSlotPool, t: Option<usize>|
        pool.is_tier_for(required, t) && #[trigger] room_after(
            cache,
            pool,
            cache_after,
            pool_after,
            r,
            k,
            between,
            t,
        );
    assert(pool.tiers()[tier as int].slot_size() >= required);
    assert(t == Some(tier)) by {
        if t is Some {
            assert(pool.tiers()[t->0 as int].slot_size() >= required);
        }
    }
    assert(cache.order().skip(0) =~= cache.order());
    if pool.tiers()[tier as int].free().len() > 0 {
        assert(k == 0);
        assert(between.tiers()[tier as int].free() == pool.tiers()[tier as int].free() + indices_of(
            slots_of(cache.order().take(0), cache.entries()),
            tier as int,
        ));
    }
}

/// Closing what was open of another picture, and an opening that fails, change nothing of what
/// is cached or open; a failed opening ends the run without a frame.
pub proof fn law_failed_openings_change_nothing(
    run: DecodeRun,
    layer: IoLayer,
    reply: IoReply,
    layer_after: IoLayer,
    after: DecodeRun,
    call: IoCall,
)
    requires
        run.follows(layer, reply, layer_after, after, call),
    ensures
        run.stage is Closing && reply is Closed ==> layer_after == layer,
        run.stage is OpeningDemuxer || run.stage is OpeningDecoder ==> (
        reply matches IoReply::Opened { handle } ==> handle is None ==> {
            &&& layer_after == layer
            &&& call is NoFrame
        }),
{
}

} // verus!
