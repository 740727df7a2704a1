//! Decoding ahead of the renderer, one worker per source.
use crate::timeline::SourceId;
use std::collections::HashMap;
use vstd::prelude::*;

verus! {

/// Frames a worker stays ahead of the render cursor.
pub const DECODE_LOOKAHEAD: usize = 16;

/// How far the renderer has come.
pub struct DecodeSync {
    /// The next frame the renderer is going to consume.
    pub render_cursor: usize,
}

impl DecodeSync {
    pub fn new() -> (r: Self)
        ensures
            r.render_cursor == 0,
    {
        DecodeSync { render_cursor: 0 }
    }

    /// The cursor once frame `frame_idx` is about to be read.
    pub open spec fn past(&self, frame_idx: int) -> int {
        if frame_idx + 1 > self.render_cursor {
            frame_idx + 1
        } else {
            self.render_cursor as int
        }
    }

    /// Frame `frame_idx` lies too far ahead of the cursor.
    pub open spec fn too_far(&self, frame_idx: int) -> bool {
        frame_idx >= self.render_cursor + DECODE_LOOKAHEAD
    }

    /// The renderer is about to read frame `frame_idx`.  The cursor never moves back.
    pub fn advance_cursor(&mut self, frame_idx: usize)
        requires
            frame_idx < usize::MAX,
        ensures
            final(self).render_cursor == old(self).past(frame_idx as int),
    {
        if frame_idx + 1 > self.render_cursor {
            self.render_cursor = frame_idx + 1;
        }
    }

    /// Whether decoding frame `frame_idx` now would run too far ahead.
    pub fn must_wait(&self, frame_idx: usize) -> (r: bool)
        requires
            self.render_cursor + DECODE_LOOKAHEAD <= usize::MAX,
        ensures
            r == self.too_far(frame_idx as int),
    {
        frame_idx >= self.render_cursor + DECODE_LOOKAHEAD
    }
}

/// How long a worker waits for the cursor before it looks again, in milliseconds.
pub const CURSOR_WAIT_MS: u64 = 10;

/// What a worker does next.
#[derive(Debug, Clone, Copy, PartialEq, Eq, Structural)]
pub enum WorkerCall {
    /// Look at the cursor.
    CheckCursor,
    /// Wait for the cursor to move, at most [`CURSOR_WAIT_MS`], and ask again.
    Wait,
    /// Look whether the frame at `pts` is cached.
    LookUp { pts: i64 },
    /// Decode the frame at `pts` into the cache.
    Decode { pts: i64 },
    Finished,
}

/// What a worker learned.
#[derive(Debug, Clone, Copy, PartialEq, Eq, Structural)]
pub enum WorkerEvent {
    /// The cursor as it stands.
    Cursor { render_cursor: usize },
    Cached { hit: bool },
    /// The frame is decoded, or could not be: the worker goes on either way.
    Decoded,
}

/// Where a worker is with its current item.
#[derive(Debug, Clone, Copy, PartialEq, Eq, Structural)]
pub enum WorkerStage {
    Waiting,
    LookingUp,
    Decoding,
}

/// Decodes the frames of one source, in export order.
pub struct ExportDecodeWorker {
    pub source_id: SourceId,
    /// Frame indices with the times to decode.
    pub work_items: Vec<(usize, i64)>,
    pub at: usize,
    pub stage: WorkerStage,
}

impl ExportDecodeWorker {
    pub open spec fn inv(&self) -> bool {
        self.at <= self.work_items@.len() && (!(self.stage is Waiting) ==> self.at
            < self.work_items@.len())
    }

    pub open spec fn answers(&self, event: WorkerEvent) -> bool {
        match event {
            WorkerEvent::Cursor { render_cursor } => self.stage is Waiting && render_cursor
                + DECODE_LOOKAHEAD <= usize::MAX,
            WorkerEvent::Cached { .. } => self.stage is LookingUp,
            WorkerEvent::Decoded => self.stage is Decoding,
        }
    }

    pub fn new(source_id: SourceId, work_items: Vec<(usize, i64)>) -> (r: Self)
        ensures
            r.inv(),
            r == (ExportDecodeWorker { source_id, work_items, at: 0, stage: WorkerStage::Waiting }),
    {
        ExportDecodeWorker { source_id, work_items, at: 0, stage: WorkerStage::Waiting }
    }

    /// What follows `event`.
    pub open spec fn follows(&self, event: WorkerEvent, after: Self, call: WorkerCall) -> bool {
        match event {
            WorkerEvent::Cursor { render_cursor } => if self.at == self.work_items@.len() {
                call is Finished && after == *self
            } else if self.work_items@[self.at as int].0 >= render_cursor + DECODE_LOOKAHEAD {
                call is Wait && after == *self
            } else {
                &&& call == (WorkerCall::LookUp { pts: self.work_items@[self.at as int].1 })
                &&& after.at == self.at
                &&& after.stage is LookingUp
            },
            WorkerEvent::Cached { hit: false } => {
                &&& call == (WorkerCall::Decode { pts: self.work_items@[self.at as int].1 })
                &&& after.at == self.at
                &&& after.stage is Decoding
            },
            _ => {
                &&& call is CheckCursor
                &&& after.at == self.at + 1
                &&& after.stage is Waiting
            },
        }
    }

    /// Take what was learned and say what to do next.  An item is looked up once it is within
    /// reach of the cursor, and decoded unless it is cached.
    pub fn run(&mut self, event: WorkerEvent) -> (r: WorkerCall)
        requires
            old(self).inv(),
            old(self).answers(event),
        ensures
            final(self).inv(),
            final(self).work_items == old(self).work_items,
            final(self).source_id == old(self).source_id,
            old(self).follows(event, *final(self), r),
    {
        assert(self.work_items.len() == self.work_items@.len());
        match event {
            WorkerEvent::Cursor { render_cursor } => {
                if self.at == self.work_items.len() {
                    return WorkerCall::Finished;
                }
                let item = self.work_items[self.at];
                if item.0 >= render_cursor + DECODE_LOOKAHEAD {
                    return WorkerCall::Wait;
                }
                self.stage = WorkerStage::LookingUp;
                WorkerCall::LookUp { pts: item.1 }
            },
            WorkerEvent::Cached { hit } => {
                if hit {
                    self.at += 1;
                    self.stage = WorkerStage::Waiting;
                    WorkerCall::CheckCursor
                } else {
                    self.stage = WorkerStage::Decoding;
                    WorkerCall::Decode { pts: self.work_items[self.at].1 }
                }
            },
            WorkerEvent::Decoded => {
                self.at += 1;
                self.stage = WorkerStage::Waiting;
                WorkerCall::CheckCursor
            },
        }
    }
}

/// The items of one source among the first `n` of `frames`, in order.
pub open spec fn items_of(frames: Seq<(usize, SourceId, i64)>, source: SourceId, n: int) -> Seq<
    (usize, i64),
>
    decreases n,
{
    if n <= 0 {
        Seq::empty()
    } else {
        let rest = items_of(frames, source, n - 1);
        if frames[n - 1].1 == source {
            rest.push((frames[n - 1].0, frames[n - 1].2))
        } else {
            rest
        }
    }
}

/// `work` has a list for each source that occurs among the first `n` frames and for no
/// other, and it is that source's items in order.
pub open spec fn grouped(
    work: Map<u32, Vec<(usize, i64)>>,
    frames: Seq<(usize, SourceId, i64)>,
    n: int,
) -> bool {
    forall|id: u32|
        {
            &&& #[trigger] work.dom().contains(id) <==> items_of(frames, SourceId { id }, n).len()
                > 0
            &&& work.dom().contains(id) ==> work[id]@ == items_of(frames, SourceId { id }, n)
        }
}

/// Group the frames of an export by source, each source's in export order; a source is
/// known by its number.
pub fn build_work_items(frames: &Vec<(usize, SourceId, i64)>) -> (work: HashMap<
    u32,
    Vec<(usize, i64)>,
>)
    ensures
        grouped(work@, frames@, frames@.len() as int),
{
    broadcast use vstd::std_specs::hash::group_hash_axioms;

    let mut work: HashMap<u32, Vec<(usize, i64)>> = HashMap::new();
    let mut n: usize = 0;
    while n < frames.len()
        invariant
            n <= frames@.len(),
            grouped(work@, frames@, n as int),
        decreases frames@.len() - n,
    {
        broadcast use vstd::std_specs::hash::group_hash_axioms;

        let (fi, sid, pts) = frames[n];
        let ghost before = work@;
        let mut items: Vec<(usize, i64)> = match work.remove(&sid.id) {
            Some(items) => items,
            None => Vec::new(),
        };
        assert(items@ =~= items_of(frames@, sid, n as int)) by {
            assert(before.dom().contains(sid.id) <==> items_of(frames@, sid, n as int).len() > 0);
        }
        items.push((fi, pts));
        work.insert(sid.id, items);
        assert forall|id: u32|
            {
                &&& #[trigger] work@.dom().contains(id) <==> items_of(
                    frames@,
                    SourceId { id },
                    n + 1,
                ).len() > 0
                &&& work@.dom().contains(id) ==> work@[id]@ == items_of(
                    frames@,
                    SourceId { id },
                    n + 1,
                )
            } by {
            if id != sid.id {
                assert(work@.dom().contains(id) <==> before.dom().contains(id));
            }
        }
        n += 1;
    }
    work
}

/// Every frame of the export is in its own source's list, and a list holds frames of its
/// source only.
pub proof fn law_every_frame_is_somebodys_work(
    frames: Seq<(usize, SourceId, i64)>,
    work: Map<u32, Vec<(usize, i64)>>,
)
    requires
        grouped(work, frames, frames.len() as int),
    ensures
        forall|k: int|
            0 <= k < frames.len() ==> {
                &&& work.dom().contains((#[trigger] frames[k]).1.id)
                &&& work[frames[k].1.id]@.contains((frames[k].0, frames[k].2))
            },
        forall|id: u32, item: (usize, i64)|
            work.dom().contains(id) && #[trigger] work[id]@.contains(item) ==> exists|k: int|
                0 <= k < frames.len() && (#[trigger] frames[k]).1.id == id && item == (
                    frames[k].0,
                    frames[k].2,
                ),
{
    let n = frames.len() as int;
    assert forall|k: int| 0 <= k < frames.len() implies {
        &&& work.dom().contains((#[trigger] frames[k]).1.id)
        &&& work[frames[k].1.id]@.contains((frames[k].0, frames[k].2))
    } by {
        lemma_items_contain(frames, frames[k].1, n, k);
        assert(frames[k].1 == SourceId { id: frames[k].1.id });
        let items = items_of(frames, frames[k].1, n);
        let j = choose|j: int| 0 <= j < items.len() && items[j] == (frames[k].0, frames[k].2);
        assert(work.dom().contains(frames[k].1.id) <==> items.len() > 0);
    }
    assert forall|id: u32, item: (usize, i64)|
        work.dom().contains(id) && #[trigger] work[id]@.contains(item) implies exists|k: int|
        0 <= k < frames.len() && (#[trigger] frames[k]).1.id == id && item == (
            frames[k].0,
            frames[k].2,
        ) by {
        lemma_items_come_from(frames, SourceId { id }, n, item);
    }
}

proof fn lemma_items_come_from(
    frames: Seq<(usize, SourceId, i64)>,
    source: SourceId,
    n: int,
    item: (usize, i64),
)
    requires
        n <= frames.len(),
        items_of(frames, source, n).contains(item),
    ensures
        exists|k: int|
            0 <= k < n && (#[trigger] frames[k]).1 == source && item == (frames[k].0, frames[k].2),
    decreases n,
{
    if n > 0 {
        let rest = items_of(frames, source, n - 1);
        if frames[n - 1].1 == source && item == (frames[n - 1].0, frames[n - 1].2) {
        } else {
            let j = choose|j: int|
                0 <= j < items_of(frames, source, n).len() && items_of(frames, source, n)[j] == item;
            assert(rest[j] == item);
            lemma_items_come_from(frames, source, n - 1, item);
        }
    }
}

proof fn lemma_items_contain(
    frames: Seq<(usize, SourceId, i64)>,
    source: SourceId,
    n: int,
    k: int,
)
    requires
        0 <= k < n <= frames.len(),
        frames[k].1 == source,
    ensures
        items_of(frames, source, n).contains((frames[k].0, frames[k].2)),
    decreases n,
{
    let item = (frames[k].0, frames[k].2);
    let rest = items_of(frames, source, n - 1);
    if k < n - 1 {
        lemma_items_contain(frames, source, n - 1, k);
        let j = choose|j: int| 0 <= j < rest.len() && rest[j] == item;
        assert(items_of(frames, source, n)[j] == item);
    } else {
        assert(rest.push(item)[rest.len() as int] == item);
    }
}

/// The cursor only moves forward, and the frame just announced lies behind it.
pub proof fn law_cursor_moves_forward(before: DecodeSync, after: DecodeSync, frame_idx: usize)
    requires
        after.render_cursor == before.past(frame_idx as int),
    ensures
        after.render_cursor >= before.render_cursor,
        after.render_cursor > frame_idx,
        after.render_cursor == before.render_cursor || after.render_cursor == frame_idx + 1,
{
}

/// A frame may be decoded up to sixteen frames ahead of the renderer and no farther.
pub proof fn law_workers_stay_sixteen_ahead(sync: DecodeSync, frame_idx: int)
    ensures
        sync.too_far(frame_idx) <==> frame_idx - sync.render_cursor >= 16,
{
}

/// A worker goes through its items one by one: it waits for one that is too far ahead, looks
/// each up before it decodes it, decodes it at its own time exactly when it is not cached,
/// leaves it behind when it is cached or decoded, and is finished behind the last one.
pub proof fn law_every_item_is_cached_or_decoded(
    before: ExportDecodeWorker,
    event: WorkerEvent,
    after: ExportDecodeWorker,
    call: WorkerCall,
)
    requires
        before.inv(),
        before.answers(event),
        before.follows(event, after, call),
    ensures
        match event {
            WorkerEvent::Cursor { render_cursor } => {
                let left = before.at < before.work_items@.len();
                let item = before.work_items@[before.at as int];
                &&& call is Finished <==> !left
                &&& left && item.0 - render_cursor >= 16 ==> call is Wait && after == before
                &&& left && item.0 - render_cursor < 16 ==> call == (WorkerCall::LookUp {
                    pts: item.1,
                }) && after.stage is LookingUp && after.at == before.at
            },
            WorkerEvent::Cached { hit } => {
                let item = before.work_items@[before.at as int];
                &&& !hit ==> call == (WorkerCall::Decode { pts: item.1 }) && after.stage
                    is Decoding && after.at == before.at
                &&& hit ==> call is CheckCursor && after.at == before.at + 1 && after.stage
                    is Waiting
            },
            WorkerEvent::Decoded => call is CheckCursor && after.at == before.at + 1
                && after.stage is Waiting,
        },
{
}

} // verus!
