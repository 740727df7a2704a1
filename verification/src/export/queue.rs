//! Frames on their way from the renderer to the encoder.
use crate::export::renderer::RawFrame;
use std::collections::VecDeque;
use vstd::prelude::*;

verus! {

/// Items the queue holds before its producer has to wait.
pub const QUEUE_DEPTH: usize = 8;

pub enum QueueItem {
    Frame(RawFrame),
    SegmentDone { segment_index: usize },
    AllDone,
}

/// A bounded first-in first-out queue.
pub struct EncoderQueue {
    items: VecDeque<QueueItem>,
}

impl View for EncoderQueue {
    type V = Seq<QueueItem>;

    /// The items, oldest first.
    closed spec fn view(&self) -> Seq<QueueItem> {
        self.items@
    }
}

impl EncoderQueue {
    pub open spec fn wf(&self) -> bool {
        self@.len() <= QUEUE_DEPTH
    }

    pub fn new() -> (r: Self)
        ensures
            r.wf(),
            r@ == Seq::<QueueItem>::empty(),
    {
        EncoderQueue { items: VecDeque::new() }
    }

    /// Whether a producer has to wait.
    pub fn is_full(&self) -> (r: bool)
        requires
            self.wf(),
        ensures
            r == (self@.len() == QUEUE_DEPTH),
    {
        self.items.len() == QUEUE_DEPTH
    }

    /// Whether a consumer has to wait.
    pub fn is_empty(&self) -> (r: bool)
        ensures
            r == (self@.len() == 0),
    {
        self.items.len() == 0
    }

    /// Add an item; a producer waits until the queue is not full.
    pub fn push(&mut self, item: QueueItem)
        requires
            old(self).wf(),
            old(self)@.len() < QUEUE_DEPTH,
        ensures
            final(self).wf(),
            final(self)@ == old(self)@.push(item),
    {
        self.items.push_back(item);
    }

    /// Take the oldest item; a consumer waits until there is one.
    pub fn pop(&mut self) -> (r: Option<QueueItem>)
        requires
            old(self).wf(),
            old(self)@.len() > 0,
        ensures
            final(self).wf(),
            r == Some(old(self)@[0]),
            final(self)@ == old(self)@.drop_first(),
    {
        let r = self.items.pop_front();
        assert(self@ =~= old(self)@.drop_first());
        r
    }

    /// Take the oldest item if there is one.
    pub fn try_pop(&mut self) -> (r: Option<QueueItem>)
        requires
            old(self).wf(),
        ensures
            final(self).wf(),
            old(self)@.len() == 0 ==> r is None && final(self)@ == old(self)@,
            old(self)@.len() > 0 ==> r == Some(old(self)@[0]) && final(self)@
                == old(self)@.drop_first(),
    {
        let r = self.items.pop_front();
        if r.is_some() {
            assert(self@ =~= old(self)@.drop_first());
        }
        r
    }
}

/// What is done to a queue: an item is added, or the oldest is taken.
pub enum QueueStep {
    Push { item: QueueItem },
    Pop { item: QueueItem },
}

impl QueueStep {
    /// The step leads from `before` to `after`.
    pub open spec fn leads(self, before: EncoderQueue, after: EncoderQueue) -> bool {
        match self {
            QueueStep::Push { item } => after@ == before@.push(item),
            QueueStep::Pop { item } => {
                &&& before@.len() > 0
                &&& item == before@[0]
                &&& after@ == before@.drop_first()
            },
        }
    }
}

/// The steps lead from the first of the queues to the last, each from one to the next.
pub open spec fn queue_run(queues: Seq<EncoderQueue>, steps: Seq<QueueStep>) -> bool {
    &&& queues.len() == steps.len() + 1
    &&& forall|i: int|
        #![trigger steps[i]]
        0 <= i < steps.len() ==> steps[i].leads(queues[i], queues[i + 1])
}

/// The items added, in order.
pub open spec fn pushed(steps: Seq<QueueStep>) -> Seq<QueueItem>
    decreases steps.len(),
{
    if steps.len() == 0 {
        Seq::empty()
    } else {
        let before = pushed(steps.drop_last());
        match steps.last() {
            QueueStep::Push { item } => before.push(item),
            QueueStep::Pop { .. } => before,
        }
    }
}

/// The items taken, in order.
pub open spec fn popped(steps: Seq<QueueStep>) -> Seq<QueueItem>
    decreases steps.len(),
{
    if steps.len() == 0 {
        Seq::empty()
    } else {
        let before = popped(steps.drop_last());
        match steps.last() {
            QueueStep::Push { .. } => before,
            QueueStep::Pop { item } => before.push(item),
        }
    }
}

/// Items come out in the order they went in, each once, and none is lost: what was taken,
/// followed by what is still in line, is what was in line at first, followed by what was
/// added.
pub proof fn law_queue_is_first_in_first_out(queues: Seq<EncoderQueue>, steps: Seq<QueueStep>)
    requires
        queue_run(queues, steps),
    ensures
        popped(steps) + queues.last()@ == queues[0]@ + pushed(steps),
    decreases steps.len(),
{
    if steps.len() == 0 {
        assert(popped(steps) + queues.last()@ =~= queues[0]@ + pushed(steps));
    } else {
        let (qs, ss) = (queues.drop_last(), steps.drop_last());
        assert forall|i: int| 0 <= i < ss.len() implies #[trigger] ss[i].leads(qs[i], qs[i + 1]) by {
            assert(steps[i].leads(queues[i], queues[i + 1]));
        }
        law_queue_is_first_in_first_out(qs, ss);
        let n = steps.len() - 1;
        assert(steps[n].leads(queues[n], queues[n + 1]));
        let line = popped(ss) + queues[n]@;
        match steps.last() {
            QueueStep::Push { item } => {
                assert(popped(steps) + queues.last()@ =~= line.push(item));
                assert(queues[0]@ + pushed(steps) =~= line.push(item));
            },
            QueueStep::Pop { .. } => {
                assert(popped(steps) + queues.last()@ =~= line);
            },
        }
    }
}

/// A queue holds eight items at most.
pub proof fn law_a_queue_holds_eight_items(queue: EncoderQueue)
    requires
        queue.wf(),
    ensures
        queue@.len() <= 8,
        queue@.len() < QUEUE_DEPTH <==> queue@.len() < 8,
{
}

} // verus!
