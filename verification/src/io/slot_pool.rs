//! Staging buffers for decoded frames, in four tiers of identically sized slots.
use vstd::prelude::*;

verus! {

/// Handle to one staging buffer of the pool.
#[derive(Debug, Copy, Clone, PartialEq, Eq, Hash, Structural)]
pub struct FrameSlotId {
    /// Which tier.
    pub tier: u8,
    /// Slot index within the tier.
    pub index: u16,
}

impl FrameSlotId {
    pub fn index(&self) -> (r: u16)
        ensures
            r == self.index,
    {
        self.index
    }
}

/// No index occurs twice and every index is one of the tier's slots.
pub open spec fn free_list_ok(free: Seq<u16>, count: int) -> bool {
    &&& forall|i: int| 0 <= i < free.len() ==> (#[trigger] free[i] as int) < count
    &&& forall|i: int, j: int| 0 <= i < j < free.len() ==> #[trigger] free[i] != #[trigger] free[j]
}

/// One tier of identically sized staging buffers.
pub struct SlotTier {
    slot_size: u64,
    buffers: Vec<Vec<u8>>,
    free_list: Vec<u16>,
}

impl SlotTier {
    /// Bytes per slot.
    pub closed spec fn slot_size(&self) -> u64 {
        self.slot_size
    }

    /// The contents of the buffers, one per slot.
    pub closed spec fn buffers(&self) -> Seq<Seq<u8>> {
        Seq::new(self.buffers@.len(), |i: int| self.buffers@[i]@)
    }

    /// The free slots, the next one to be handed out last.
    pub closed spec fn free(&self) -> Seq<u16> {
        self.free_list@
    }

    pub open spec fn wf(&self) -> bool {
        &&& free_list_ok(self.free(), self.buffers().len() as int)
        &&& self.buffers().len() <= u16::MAX
        &&& forall|i: int|
            0 <= i < self.buffers().len() ==> (#[trigger] self.buffers()[i]).len()
                == self.slot_size()
    }

    /// A tier of `count` zeroed buffers of `raw_size` bytes, all of them free.
    pub fn new(raw_size: u64, count: u16) -> (r: Self)
        requires
            raw_size <= usize::MAX,
        ensures
            r.wf(),
            r.slot_size() == raw_size,
            r.buffers() == Seq::new(count as nat, |i: int| Seq::new(raw_size as nat, |j: int| 0u8)),
            r.free() == Seq::new(count as nat, |i: int| i as u16),
    {
        let mut buffers: Vec<Vec<u8>> = Vec::new();
        let mut free_list: Vec<u16> = Vec::new();
        let mut i: u16 = 0;
        while i < count
            invariant
                i <= count,
                raw_size <= usize::MAX,
                buffers@.len() == i,
                free_list@ == Seq::new(i as nat, |k: int| k as u16),
                forall|k: int|
                    0 <= k < i ==> (#[trigger] buffers@[k])@ == Seq::new(
                        raw_size as nat,
                        |j: int| 0u8,
                    ),
            decreases count - i,
        {
            let buffer: Vec<u8> = vec![0u8; raw_size as usize];
            assert(buffer@ =~= Seq::new(raw_size as nat, |j: int| 0u8));
            buffers.push(buffer);
            free_list.push(i);
            i += 1;
            assert(free_list@ =~= Seq::new(i as nat, |k: int| k as u16));
        }
        let r = SlotTier { slot_size: raw_size, buffers, free_list };
        assert(r.buffers() =~= Seq::new(
            count as nat,
            |i: int| Seq::new(raw_size as nat, |j: int| 0u8),
        ));
        r
    }

    /// Take a free slot, or nothing when the tier is exhausted.
    pub fn acquire(&mut self, tier: u8) -> (r: Option<FrameSlotId>)
        ensures
            final(self).slot_size() == old(self).slot_size(),
            final(self).buffers() == old(self).buffers(),
            old(self).free().len() == 0 ==> r is None && final(self).free() == old(self).free(),
            old(self).free().len() > 0 ==> {
                &&& r == Some(FrameSlotId { tier, index: old(self).free().last() })
                &&& final(self).free() == old(self).free().drop_last()
            },
    {
        match self.free_list.pop() {
            Some(index) => Some(FrameSlotId { tier, index }),
            None => None,
        }
    }

    /// Return a slot to the tier.
    pub fn release(&mut self, id: FrameSlotId)
        ensures
            final(self).slot_size() == old(self).slot_size(),
            final(self).buffers() == old(self).buffers(),
            final(self).free() == old(self).free().push(id.index),
    {
        self.free_list.push(id.index);
    }

    /// Let `f` change the contents of a slot's buffer.
    ///
    /// A tier stays well formed if `f` leaves the slice as long as it is given.  That no
    /// function on slices does otherwise is true of Rust but not known to the verifier.
    pub fn with_buffer_mut<F, R>(&mut self, index: u16, f: F) -> (r: R)
        where F: FnOnce(&mut [u8]) -> R
        requires
            index < old(self).buffers().len(),
            forall|b: &mut [u8]|
                (*b)@ == old(self).buffers()[index as int] ==> #[trigger] call_requires(f, (b,)),
        ensures
            final(self).slot_size() == old(self).slot_size(),
            final(self).free() == old(self).free(),
            exists|b: &mut [u8]|
                {
                    &&& (*b)@ == old(self).buffers()[index as int]
                    &&& #[trigger] call_ensures(f, (b,), r)
                    &&& final(self).buffers() == old(self).buffers().update(
                        index as int,
                        (*final(b))@,
                    )
                },
            old(self).wf() && (forall|b: &mut [u8], out: R| #[trigger]
                call_ensures(f, (b,), out) ==> (*final(b))@.len() == (*b)@.len())
                ==> final(self).wf(),
    {
        let ghost g = f;
        let b = self.buffers[index as usize].as_mut_slice();
        let r = f(b);
        let ghost given = choose|b: &mut [u8]|
            {
                &&& (*b)@ == old(self).buffers()[index as int]
                &&& #[trigger] call_ensures(g, (b,), r)
                &&& self.buffers() =~= old(self).buffers().update(index as int, (*final(b))@)
            };
        assert(call_ensures(g, (given,), r));
        r
    }

    /// Let `f` read the contents of a slot's buffer.
    pub fn with_buffer_read<F, R>(&self, index: u16, f: F) -> (r: R)
        where F: FnOnce(&[u8]) -> R
        requires
            index < self.buffers().len(),
            forall|b: &[u8]|
                b@ == self.buffers()[index as int] ==> #[trigger] call_requires(f, (b,)),
        ensures
            exists|b: &[u8]|
                b@ == self.buffers()[index as int] && #[trigger] call_ensures(f, (b,), r),
    {
        f(self.buffers[index as usize].as_slice())
    }
}

/// Bytes per slot of each tier: 4:2:0 frames of 1080p, 1440p, 2160p and 4320p.
pub open spec fn tier_size(tier: int) -> int {
    if tier == 0 {
        3_110_400
    } else if tier == 1 {
        5_529_600
    } else if tier == 2 {
        12_441_600
    } else {
        49_766_400
    }
}

/// Slots of each tier.
pub open spec fn tier_slots(tier: int) -> int {
    if tier == 0 {
        32
    } else if tier == 1 {
        16
    } else if tier == 2 {
        8
    } else {
        2
    }
}

/// The staging slots of the decode pipeline.
pub struct FrameSlotPool {
    tiers: Vec<SlotTier>,
}

impl FrameSlotPool {
    pub closed spec fn tiers(&self) -> Seq<SlotTier> {
        self.tiers@
    }

    /// There are four tiers.  Every pool is made so and stays so.
    pub open spec fn wf(&self) -> bool {
        self.tiers().len() == 4
    }

    /// `id` names a slot of this pool.
    pub open spec fn has(&self, id: FrameSlotId) -> bool {
        id.tier < self.tiers().len() && id.index < self.tiers()[id.tier as int].buffers().len()
    }

    /// `id` is free, ready to be handed out.
    pub open spec fn is_free(&self, id: FrameSlotId) -> bool {
        id.tier < self.tiers().len() && self.tiers()[id.tier as int].free().contains(id.index)
    }

    /// The bytes of a slot.
    pub open spec fn contents(&self, id: FrameSlotId) -> Seq<u8> {
        self.tiers()[id.tier as int].buffers()[id.index as int]
    }

    /// Every tier is well formed: each free list names slots of its tier, each at most once,
    /// and every slot is as large as its tier says.
    pub open spec fn sound(&self) -> bool {
        &&& self.wf()
        &&& forall|t: int| 0 <= t < 4 ==> (#[trigger] self.tiers()[t]).wf()
    }

    /// Whether `id` names a slot of this pool.
    pub fn contains(&self, id: FrameSlotId) -> (r: bool)
        ensures
            r == self.has(id),
    {
        (id.tier as usize) < self.tiers.len() && (id.index as usize)
            < self.tiers[id.tier as usize].buffers.len()
    }

    /// Every slot is zeroed and free.
    pub open spec fn is_new(&self) -> bool {
        forall|t: int|
            0 <= t < 4 ==> {
                &&& (#[trigger] self.tiers()[t]).slot_size() == tier_size(t)
                &&& self.tiers()[t].buffers() == Seq::new(
                    tier_slots(t) as nat,
                    |i: int| Seq::new(tier_size(t) as nat, |j: int| 0u8),
                )
                &&& self.tiers()[t].free() == Seq::new(tier_slots(t) as nat, |i: int| i as u16)
            }
    }

    /// The pool with its default tiers, every slot free.
    pub fn new() -> (r: Self)
        ensures
            r.wf(),
            r.sound(),
            r.is_new(),
    {
        let mut tiers: Vec<SlotTier> = Vec::new();
        tiers.push(SlotTier::new(3_110_400, 32));
        tiers.push(SlotTier::new(5_529_600, 16));
        tiers.push(SlotTier::new(12_441_600, 8));
        tiers.push(SlotTier::new(49_766_400, 2));
        FrameSlotPool { tiers }
    }

    /// The first tier whose slots hold `required_bytes`.
    pub open spec fn is_tier_for(&self, required_bytes: u64, r: Option<usize>) -> bool {
        match r {
            Some(t) => {
                &&& t < self.tiers().len()
                &&& required_bytes <= self.tiers()[t as int].slot_size()
                &&& forall|i: int|
                    0 <= i < t ==> required_bytes > (#[trigger] self.tiers()[i]).slot_size()
            },
            None => forall|i: int|
                0 <= i < self.tiers().len() ==> required_bytes > (
                #[trigger] self.tiers()[i]).slot_size(),
        }
    }

    /// The smallest tier whose slots hold `required_bytes`.
    pub fn tier_for(&self, required_bytes: u64) -> (r: Option<usize>)
        ensures
            self.is_tier_for(required_bytes, r),
    {
        let mut i: usize = 0;
        while i < self.tiers.len()
            invariant
                i <= self.tiers.len(),
                forall|k: int|
                    0 <= k < i ==> required_bytes > (#[trigger] self.tiers()[k]).slot_size(),
            decreases self.tiers.len() - i,
        {
            if required_bytes <= self.tiers[i].slot_size {
                return Some(i);
            }
            i += 1;
        }
        None
    }

    /// A slot large enough for `required_bytes`.
    ///
    /// Only the smallest tier that fits is asked: a larger one is never raided for it.
    pub fn acquire(&mut self, required_bytes: u64) -> (r: Option<FrameSlotId>)
        requires
            old(self).wf(),
        ensures
            final(self).wf(),
            exists|t: Option<usize>| #[trigger]
                old(self).is_tier_for(required_bytes, t) && acquires(*old(self), *final(self), t, r),
    {
        let t: Option<usize> = self.tier_for(required_bytes);
        match t {
            None => None,
            Some(tier_idx) => {
                let r = self.tiers[tier_idx].acquire(tier_idx as u8);
                assert(acquires(*old(self), *self, t, r)) by {
                    let (a, b) = (old(self).tiers(), self.tiers());
                    assert(b =~= a.update(tier_idx as int, b[tier_idx as int]));
                }
                r
            },
        }
    }

    /// Give a slot back to its tier.
    pub fn release(&mut self, id: FrameSlotId)
        requires
            id.tier < old(self).tiers().len(),
        ensures
            releases(*old(self), *final(self), id),
    {
        self.tiers[id.tier as usize].release(id);
        assert(self.tiers() =~= old(self).tiers().update(
            id.tier as int,
            self.tiers()[id.tier as int],
        ));
    }

    /// Let `f` change the contents of a slot's buffer.
    ///
    /// The pool stays sound if `f` leaves the slice as long as it is given.  That no function
    /// on slices does otherwise is true of Rust but not known to the verifier.
    pub fn with_buffer_mut<F, R>(&mut self, id: FrameSlotId, f: F) -> (r: R)
        where F: FnOnce(&mut [u8]) -> R
        requires
            old(self).has(id),
            forall|b: &mut [u8]|
                (*b)@ == old(self).contents(id) ==> #[trigger] call_requires(f, (b,)),
        ensures
            exists|b: &mut [u8]|
                {
                    &&& (*b)@ == old(self).contents(id)
                    &&& #[trigger] call_ensures(f, (b,), r)
                    &&& writes(*old(self), *final(self), id, (*final(b))@)
                },
            (forall|b: &mut [u8], out: R| #[trigger]
                call_ensures(f, (b,), out) ==> (*final(b))@.len() == (*b)@.len()) ==> {
                &&& forall|t: int|
                    0 <= t < old(self).tiers().len() && old(self).tiers()[t].wf()
                        ==> (#[trigger] final(self).tiers()[t]).wf()
                &&& old(self).sound() ==> final(self).sound()
            },
    {
        self.tiers[id.tier as usize].with_buffer_mut(id.index, f)
    }

    /// Let `f` read the contents of a slot's buffer.
    pub fn with_buffer_read<F, R>(&self, id: FrameSlotId, f: F) -> (r: R)
        where F: FnOnce(&[u8]) -> R
        requires
            self.has(id),
            forall|b: &[u8]| b@ == self.contents(id) ==> #[trigger] call_requires(f, (b,)),
        ensures
            exists|b: &[u8]| b@ == self.contents(id) && #[trigger] call_ensures(f, (b,), r),
    {
        self.tiers[id.tier as usize].with_buffer_read(id.index, f)
    }
}

/// `after` is `before` with the last free slot of tier `t` handed out as `r`.
pub open spec fn acquires(
    before: FrameSlotPool,
    after: FrameSlotPool,
    t: Option<usize>,
    r: Option<FrameSlotId>,
) -> bool {
    match t {
        None => r is None && after == before,
        Some(t) => {
            let (a, b) = (before.tiers()[t as int], after.tiers()[t as int]);
            &&& after.tiers() == before.tiers().update(t as int, b)
            &&& b.slot_size() == a.slot_size()
            &&& b.buffers() == a.buffers()
            &&& a.free().len() == 0 ==> r is None && b.free() == a.free()
            &&& a.free().len() > 0 ==> {
                &&& r == Some(FrameSlotId { tier: t as u8, index: a.free().last() })
                &&& b.free() == a.free().drop_last()
            }
        },
    }
}

/// `after` is `before` with `id` pushed on its tier's free list.
pub open spec fn releases(before: FrameSlotPool, after: FrameSlotPool, id: FrameSlotId) -> bool {
    let (a, b) = (before.tiers()[id.tier as int], after.tiers()[id.tier as int]);
    &&& after.tiers() == before.tiers().update(id.tier as int, b)
    &&& b.slot_size() == a.slot_size()
    &&& b.buffers() == a.buffers()
    &&& b.free() == a.free().push(id.index)
}

/// `after` is `before` with `bytes` in the slot `id`.
pub open spec fn writes(
    before: FrameSlotPool,
    after: FrameSlotPool,
    id: FrameSlotId,
    bytes: Seq<u8>,
) -> bool {
    let (a, b) = (before.tiers()[id.tier as int], after.tiers()[id.tier as int]);
    &&& after.tiers() == before.tiers().update(id.tier as int, b)
    &&& b.slot_size() == a.slot_size()
    &&& b.free() == a.free()
    &&& b.buffers() == a.buffers().update(id.index as int, bytes)
}

/// What can be done to a pool.
pub enum PoolStep {
    Acquire { t: Option<usize>, r: Option<FrameSlotId> },
    Release { id: FrameSlotId },
    Write { id: FrameSlotId, bytes: Seq<u8> },
}

impl PoolStep {
    /// The step leads from `before` to `after`.
    pub open spec fn leads(self, before: FrameSlotPool, after: FrameSlotPool) -> bool {
        match self {
            PoolStep::Acquire { t, r } => {
                &&& t is Some ==> t->0 < before.tiers().len()
                &&& acquires(before, after, t, r)
            },
            PoolStep::Release { id } => {
                &&& id.tier < before.tiers().len()
                &&& releases(before, after, id)
            },
            PoolStep::Write { id, bytes } => before.has(id) && writes(before, after, id, bytes),
        }
    }

    /// The step does not write the slot `id`.
    pub open spec fn spares(self, id: FrameSlotId) -> bool {
        self matches PoolStep::Write { id: written, .. } ==> written != id
    }
}

/// The steps lead from the first of the pools to the last, each from one to the next.
pub open spec fn pool_run(pools: Seq<FrameSlotPool>, steps: Seq<PoolStep>) -> bool {
    &&& pools.len() == steps.len() + 1
    &&& forall|i: int|
        #![trigger steps[i]]
        0 <= i < steps.len() ==> steps[i].leads(pools[i], pools[i + 1])
}

/// A slot keeps its bytes and its size while others are written and slots are acquired and
/// released.
pub proof fn law_a_slot_keeps_its_contents(
    pools: Seq<FrameSlotPool>,
    steps: Seq<PoolStep>,
    id: FrameSlotId,
)
    requires
        pool_run(pools, steps),
        pools[0].has(id),
        forall|i: int| 0 <= i < steps.len() ==> (#[trigger] steps[i]).spares(id),
    ensures
        pools.last().has(id),
        pools.last().contents(id) == pools[0].contents(id),
        pools.last().tiers()[id.tier as int].slot_size()
            == pools[0].tiers()[id.tier as int].slot_size(),
    decreases steps.len(),
{
    if steps.len() > 0 {
        let (ps, ss) = (pools.drop_last(), steps.drop_last());
        assert forall|i: int| 0 <= i < ss.len() implies #[trigger] ss[i].leads(ps[i], ps[i + 1]) by {
            assert(steps[i].leads(pools[i], pools[i + 1]));
        }
        assert forall|i: int| 0 <= i < ss.len() implies (#[trigger] ss[i]).spares(id) by {
            assert(steps[i].spares(id));
        }
        law_a_slot_keeps_its_contents(ps, ss, id);
        let n = steps.len() - 1;
        assert(steps[n].leads(pools[n], pools[n + 1]) && steps[n].spares(id));
    }
}

/// What was written last is what is read: after `bytes`, as many as a slot holds, were left
/// in a slot, and until it is written again, its contents are those bytes.
pub proof fn law_what_was_written_is_read(
    before: FrameSlotPool,
    pools: Seq<FrameSlotPool>,
    steps: Seq<PoolStep>,
    id: FrameSlotId,
    bytes: Seq<u8>,
)
    requires
        before.has(id),
        before.tiers()[id.tier as int].wf(),
        bytes.len() == before.contents(id).len(),
        writes(before, pools[0], id, bytes),
        pool_run(pools, steps),
        forall|i: int| 0 <= i < steps.len() ==> (#[trigger] steps[i]).spares(id),
    ensures
        pools.last().has(id),
        pools.last().contents(id) == bytes,
        bytes.len() == pools.last().tiers()[id.tier as int].slot_size(),
{
    law_a_slot_keeps_its_contents(pools, steps, id);
}

/// A slot of a new pool reads as zeros, as many as the slots of its tier hold, until it is
/// written.
pub proof fn law_a_slot_is_zero_until_written(
    pools: Seq<FrameSlotPool>,
    steps: Seq<PoolStep>,
    id: FrameSlotId,
)
    requires
        pools[0].wf(),
        pools[0].is_new(),
        pools[0].has(id),
        pool_run(pools, steps),
        forall|i: int| 0 <= i < steps.len() ==> (#[trigger] steps[i]).spares(id),
    ensures
        pools.last().has(id),
        pools.last().contents(id) == Seq::new(tier_size(id.tier as int) as nat, |j: int| 0u8),
        pools.last().tiers()[id.tier as int].slot_size() == tier_size(id.tier as int),
{
    law_a_slot_keeps_its_contents(pools, steps, id);
    assert(pools[0].tiers()[id.tier as int].slot_size() == tier_size(id.tier as int));
}

/// An acquired slot was free, is free no longer, and holds what was asked for: until it
/// is released nobody else is handed it.  The other slots are as free as they were.
pub proof fn law_acquire_hands_out_a_free_slot(
    before: FrameSlotPool,
    after: FrameSlotPool,
    required_bytes: u64,
    t: Option<usize>,
    id: FrameSlotId,
)
    requires
        before.sound(),
        before.is_tier_for(required_bytes, t),
        acquires(before, after, t, Some(id)),
    ensures
        after.sound(),
        before.has(id),
        before.is_free(id),
        !after.is_free(id),
        required_bytes <= before.tiers()[id.tier as int].slot_size(),
        forall|other: FrameSlotId| other != id ==> (after.is_free(other) <==> before.is_free(other)),
{
    let ti = t->0 as int;
    let free = before.tiers()[ti].free();
    assert(id.tier == ti);
    assert(free[free.len() - 1] == id.index);
    let rest = after.tiers()[ti].free();
    assert(rest == free.drop_last());
    assert forall|other: FrameSlotId| other != id implies (after.is_free(other)
        <==> before.is_free(other)) by {
        if other.tier == id.tier {
            if before.is_free(other) {
                let k = choose|k: int| 0 <= k < free.len() && free[k] == other.index;
                assert(k != free.len() - 1);
                assert(rest[k] == other.index);
            }
            if after.is_free(other) {
                let k = choose|k: int| 0 <= k < rest.len() && rest[k] == other.index;
                assert(free[k] == other.index);
            }
        }
    }
    assert(!rest.contains(id.index)) by {
        if rest.contains(id.index) {
            let k = choose|k: int| 0 <= k < rest.len() && rest[k] == id.index;
            assert(free[k] == free[free.len() - 1]);
        }
    }
    assert forall|i: int| 0 <= i < rest.len() implies rest[i] == free[i] by {}
    assert(after.tiers()[ti].buffers() == before.tiers()[ti].buffers());
    assert(free_list_ok(rest, after.tiers()[ti].buffers().len() as int));
}

/// Releasing a slot that was in use makes it free again and changes no other slot.
pub proof fn law_release_frees_the_slot(before: FrameSlotPool, after: FrameSlotPool, id: FrameSlotId)
    requires
        before.sound(),
        before.has(id),
        !before.is_free(id),
        releases(before, after, id),
    ensures
        after.sound(),
        after.is_free(id),
        forall|other: FrameSlotId| other != id ==> (after.is_free(other) <==> before.is_free(other)),
{
    let ti = id.tier as int;
    let free = before.tiers()[ti].free();
    let more = after.tiers()[ti].free();
    assert(more[free.len() as int] == id.index);
    assert forall|other: FrameSlotId| other != id implies (after.is_free(other)
        <==> before.is_free(other)) by {
        if other.tier == id.tier {
            if before.is_free(other) {
                let k = choose|k: int| 0 <= k < free.len() && free[k] == other.index;
                assert(more[k] == other.index);
            }
            if after.is_free(other) {
                let k = choose|k: int| 0 <= k < more.len() && more[k] == other.index;
                assert(k != free.len());
                assert(free[k] == other.index);
            }
        }
    }
    assert(free_list_ok(more, after.tiers()[ti].buffers().len() as int));
}

/// A slot acquired and released at once leaves the pool's free lists as they were.
pub proof fn law_release_undoes_acquire(
    before: FrameSlotPool,
    between: FrameSlotPool,
    after: FrameSlotPool,
    t: Option<usize>,
    id: FrameSlotId,
)
    requires
        before.wf(),
        t is Some ==> t->0 < 4,
        acquires(before, between, t, Some(id)),
        releases(between, after, id),
    ensures
        forall|k: int|
            0 <= k < 4 ==> (#[trigger] after.tiers()[k]).free() == before.tiers()[k].free(),
{
    let ti = t->0 as int;
    let free = before.tiers()[ti].free();
    assert(free.drop_last().push(free.last()) =~= free);
}

/// A slot of a tier is a 4:2:0 frame of eight bits: of 1920 by 1080, of 2560 by 1440, of 3840
/// by 2160 and of 7680 by 4320.  The larger the slots, the fewer there are.
pub proof fn law_tiers_hold_the_usual_frames(t: int)
    requires
        0 <= t < 4,
    ensures
        2 * tier_size(0) == 3 * 1920 * 1080 && tier_slots(0) == 32,
        2 * tier_size(1) == 3 * 2560 * 1440 && tier_slots(1) == 16,
        2 * tier_size(2) == 3 * 3840 * 2160 && tier_slots(2) == 8,
        2 * tier_size(3) == 3 * 7680 * 4320 && tier_slots(3) == 2,
        t > 0 ==> tier_size(t - 1) < tier_size(t) && tier_slots(t - 1) > tier_slots(t),
{
}

/// A new pool serves whatever fits a slot of its largest tier, out of the smallest tier that
/// holds it, and nothing larger.
pub proof fn law_the_smallest_tier_serves(pool: FrameSlotPool, bytes: u64, t: Option<usize>)
    requires
        pool.wf(),
        pool.is_new(),
        pool.is_tier_for(bytes, t),
    ensures
        bytes <= 3_110_400 <==> t == Some(0usize),
        3_110_400 < bytes <= 5_529_600 <==> t == Some(1usize),
        5_529_600 < bytes <= 12_441_600 <==> t == Some(2usize),
        12_441_600 < bytes <= 49_766_400 <==> t == Some(3usize),
        bytes > 49_766_400 <==> t is None,
{
    assert(pool.tiers()[0].slot_size() == 3_110_400);
    assert(pool.tiers()[1].slot_size() == 5_529_600);
    assert(pool.tiers()[2].slot_size() == 12_441_600);
    assert(pool.tiers()[3].slot_size() == 49_766_400);
}

/// A slot is handed out whenever the tier that serves the size has a free one, and only then.
pub proof fn law_a_free_slot_is_handed_out(
    before: FrameSlotPool,
    after: FrameSlotPool,
    bytes: u64,
    t: Option<usize>,
    r: Option<FrameSlotId>,
)
    requires
        before.wf(),
        before.is_tier_for(bytes, t),
        acquires(before, after, t, r),
    ensures
        r is Some <==> t is Some && before.tiers()[t->0 as int].free().len() > 0,
        r is Some ==> r->0.tier == t->0,
        r is Some ==> bytes <= before.tiers()[r->0.tier as int].slot_size(),
        r is Some ==> forall|i: int|
            0 <= i < r->0.tier ==> (#[trigger] before.tiers()[i]).slot_size() < bytes,
        t is None ==> forall|i: int| 0 <= i < 4 ==> (#[trigger] before.tiers()[i]).slot_size()
            < bytes,
{
}

} // verus!
