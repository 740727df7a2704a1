//! Frames decoded ahead of time, the most urgent first.
use crate::timeline::SourceId;
use vstd::prelude::*;

verus! {

/// Requests that may wait for the worker.
pub const PREFETCH_DEPTH: usize = 8;

/// A frame that will be needed.  Priority zero is the most urgent.
#[derive(Debug, Clone, Copy, PartialEq, Eq, Structural)]
pub struct PrefetchRequest {
    pub source_id: SourceId,
    pub pts: i64,
    pub priority: u8,
}

/// The frame a request is for.
pub open spec fn frame_of(request: PrefetchRequest) -> (u32, i64) {
    (request.source_id.id, request.pts)
}

/// The least urgent come first.
pub open spec fn urgency_rises(s: Seq<PrefetchRequest>) -> bool {
    forall|i: int, j: int| 0 <= i < j < s.len() ==> (#[trigger] s[i]).priority >= (#[trigger] s[j]).priority
}

/// `s` without the requests for the frame of the one before.
pub open spec fn dedup(s: Seq<PrefetchRequest>) -> Seq<PrefetchRequest>
    decreases s.len(),
{
    if s.len() == 0 {
        s
    } else {
        let kept = dedup(s.drop_last());
        if kept.len() > 0 && frame_of(kept.last()) == frame_of(s.last()) {
            kept
        } else {
            kept.push(s.last())
        }
    }
}

/// `sorted` is the requests in an order in which the most urgent come last.
pub open spec fn sorts(requests: Seq<PrefetchRequest>, sorted: Seq<PrefetchRequest>) -> bool {
    &&& sorted.to_multiset() == requests.to_multiset()
    &&& urgency_rises(sorted)
}

/// Put a request where it belongs.
fn insert_sorted(sorted: &mut Vec<PrefetchRequest>, request: PrefetchRequest)
    requires
        urgency_rises(old(sorted)@),
    ensures
        urgency_rises(final(sorted)@),
        final(sorted)@.to_multiset() == old(sorted)@.to_multiset().insert(request),
{
    let mut at: usize = sorted.len();
    while at > 0 && sorted[at - 1].priority < request.priority
        invariant
            at <= sorted.len(),
            sorted@ == old(sorted)@,
            urgency_rises(sorted@),
            forall|i: int| at <= i < sorted@.len() ==> (#[trigger] sorted@[i]).priority < request.priority,
        decreases at,
    {
        at -= 1;
    }
    let ghost before = sorted@;
    sorted.insert(at, request);
    proof {
        assert(sorted@ =~= before.insert(at as int, request));
        before.to_multiset_ensures();
        vstd::seq_lib::lemma_multiset_commutative(before.take(at as int), seq![request] + before.skip(at as int));
        assert(sorted@ =~= before.take(at as int) + (seq![request] + before.skip(at as int)));
        vstd::seq_lib::lemma_multiset_commutative(before.take(at as int), before.skip(at as int));
        assert(before =~= before.take(at as int) + before.skip(at as int));
        vstd::seq_lib::lemma_multiset_commutative(seq![request], before.skip(at as int));
        assert(seq![request].to_multiset() =~= vstd::multiset::Multiset::singleton(request)) by {
            Seq::<PrefetchRequest>::empty().to_multiset_ensures();
            assert(Seq::<PrefetchRequest>::empty().push(request) =~= seq![request]);
        }
        assert(sorted@.to_multiset() =~= before.to_multiset().insert(request));
        assert forall|i: int, j: int| 0 <= i < j < sorted@.len() implies (
        #[trigger] sorted@[i]).priority >= (#[trigger] sorted@[j]).priority by {
            if at > 0 {
                assert(before[at - 1].priority >= request.priority);
            }
            if i < at {
                assert(sorted@[i] == before[i]);
                if j < at {
                    assert(sorted@[j] == before[j]);
                } else if j > at {
                    assert(sorted@[j] == before[j - 1]);
                }
            } else if i > at {
                assert(sorted@[i] == before[i - 1]);
                assert(sorted@[j] == before[j - 1]);
            } else {
                assert(sorted@[j] == before[j - 1]);
            }
        }
    }
}

/// The requests in the order they are served from the back: the most urgent last, and a
/// request for the frame of the one before left out.
pub fn serving_order(requests: &Vec<PrefetchRequest>) -> (r: Vec<PrefetchRequest>)
    ensures
        exists|sorted: Seq<PrefetchRequest>| #[trigger]
            sorts(requests@, sorted) && r@ == dedup(sorted),
{
    let mut sorted: Vec<PrefetchRequest> = Vec::new();
    let mut i: usize = 0;
    assert(requests@.take(0) =~= Seq::empty());
    while i < requests.len()
        invariant
            i <= requests.len(),
            sorts(requests@.take(i as int), sorted@),
        decreases requests.len() - i,
    {
        proof {
            let before = requests@.take(i as int);
            before.to_multiset_ensures();
            assert(requests@.take(i + 1) =~= before.push(requests@[i as int]));
        }
        insert_sorted(&mut sorted, requests[i]);
        i += 1;
    }
    assert(requests@.take(i as int) =~= requests@);
    let mut kept: Vec<PrefetchRequest> = Vec::new();
    let mut j: usize = 0;
    assert(sorted@.take(0) =~= Seq::empty());
    while j < sorted.len()
        invariant
            j <= sorted.len(),
            kept@ == dedup(sorted@.take(j as int)),
        decreases sorted.len() - j,
    {
        proof {
            assert(sorted@.take(j + 1).drop_last() =~= sorted@.take(j as int));
        }
        let request: PrefetchRequest = sorted[j];
        let n: usize = kept.len();
        let repeated: bool = n > 0 && kept[n - 1].source_id.id == request.source_id.id && kept[n
            - 1].pts == request.pts;
        if !repeated {
            kept.push(request);
        }
        j += 1;
    }
    assert(sorted@.take(j as int) =~= sorted@);
    assert(sorts(requests@, sorted@));
    kept
}

/// How long an idle worker sleeps, in microseconds.
pub const IDLE_SLEEP_US: u64 = 500;

/// What the worker has to do next.
#[derive(Debug, Clone, Copy, PartialEq, Eq, Structural)]
pub enum PrefetchCall {
    /// Look at the shutdown flag.
    CheckShutdown,
    /// Take every request that waits.
    Poll,
    /// Look the frame up in the cache.
    CheckCache { request: PrefetchRequest },
    /// Decode the frame into the cache.
    Decode { request: PrefetchRequest },
    /// Sleep for [`IDLE_SLEEP_US`].
    Sleep,
    Stop,
}

/// What came of it.
pub enum PrefetchEvent {
    Shutdown { set: bool },
    /// The requests that waited; `connected` is false when no more can come.
    Polled { requests: Vec<PrefetchRequest>, connected: bool },
    Cached { hit: bool },
    Decoded,
    Slept,
}

#[derive(Debug, Clone, Copy, PartialEq, Eq, Structural)]
pub enum PrefetchStage {
    /// Between two rounds.
    Top,
    Polling,
    /// About to serve the request.
    Next { request: PrefetchRequest },
    Looking { request: PrefetchRequest },
    Decoding { request: PrefetchRequest },
    Sleeping,
    Over,
}

/// The worker: the requests of the round that are still to be served, the next one last.
pub struct PrefetchWorker {
    pub queue: Vec<PrefetchRequest>,
    pub stage: PrefetchStage,
}

impl PrefetchWorker {
    /// A worker at its start; it looks at the shutdown flag first.
    pub fn new() -> (r: (Self, PrefetchCall))
        ensures
            r.0.queue@ == Seq::<PrefetchRequest>::empty(),
            r.0.stage is Top,
            r.1 is CheckShutdown,
    {
        (
            PrefetchWorker { queue: Vec::new(), stage: PrefetchStage::Top },
            PrefetchCall::CheckShutdown,
        )
    }

    pub open spec fn answers(&self, event: PrefetchEvent) -> bool {
        match event {
            PrefetchEvent::Shutdown { .. } => self.stage is Top || self.stage is Next,
            PrefetchEvent::Polled { .. } => self.stage is Polling,
            PrefetchEvent::Cached { .. } => self.stage is Looking,
            PrefetchEvent::Decoded => self.stage is Decoding,
            PrefetchEvent::Slept => self.stage is Sleeping,
        }
    }

    /// `after` and `call` go on with `queue`.
    pub open spec fn goes_on(queue: Seq<PrefetchRequest>, after: Self, call: PrefetchCall) -> bool {
        &&& call is CheckShutdown
        &&& if queue.len() == 0 {
            after.queue@ == queue && after.stage is Top
        } else {
            &&& after.queue@ == queue.drop_last()
            &&& after.stage == (PrefetchStage::Next { request: queue.last() })
        }
    }

    /// What follows `event`.
    pub open spec fn follows(&self, event: PrefetchEvent, after: Self, call: PrefetchCall) -> bool {
        match (self.stage, event) {
            (PrefetchStage::Top, PrefetchEvent::Shutdown { set }) => {
                &&& after.queue@ == self.queue@
                &&& if set {
                    after.stage is Over && call is Stop
                } else {
                    after.stage is Polling && call is Poll
                }
            },
            (PrefetchStage::Polling, PrefetchEvent::Polled { requests, connected }) => if !connected {
                after.stage is Over && call is Stop && after.queue@ == self.queue@
            } else if requests@.len() == 0 {
                after.stage is Sleeping && call is Sleep && after.queue@ == self.queue@
            } else {
                exists|sorted: Seq<PrefetchRequest>| #[trigger]
                    sorts(requests@, sorted) && Self::goes_on(dedup(sorted), after, call)
            },
            (PrefetchStage::Next { request }, PrefetchEvent::Shutdown { set }) => {
                &&& after.queue@ == self.queue@
                &&& if set {
                    after.stage is Over && call is Stop
                } else {
                    &&& after.stage == (PrefetchStage::Looking { request })
                    &&& call == (PrefetchCall::CheckCache { request })
                }
            },
            (PrefetchStage::Looking { request }, PrefetchEvent::Cached { hit }) => if hit {
                Self::goes_on(self.queue@, after, call)
            } else {
                &&& after.queue@ == self.queue@
                &&& after.stage == (PrefetchStage::Decoding { request })
                &&& call == (PrefetchCall::Decode { request })
            },
            (PrefetchStage::Decoding { .. }, PrefetchEvent::Decoded) => Self::goes_on(
                self.queue@,
                after,
                call,
            ),
            (PrefetchStage::Sleeping, PrefetchEvent::Slept) => {
                &&& after.queue@ == self.queue@
                &&& after.stage is Top
                &&& call is CheckShutdown
            },
            _ => true,
        }
    }

    fn go_on(&mut self) -> (r: PrefetchCall)
        ensures
            Self::goes_on(old(self).queue@, *final(self), r),
    {
        match self.queue.pop() {
            Some(request) => {
                self.stage = PrefetchStage::Next { request };
            },
            None => {
                self.stage = PrefetchStage::Top;
            },
        }
        PrefetchCall::CheckShutdown
    }

    /// Take what came of the last call and say what to do next.
    pub fn run(&mut self, event: PrefetchEvent) -> (r: PrefetchCall)
        requires
            old(self).answers(event),
        ensures
            old(self).follows(event, *final(self), r),
    {
        match event {
            PrefetchEvent::Shutdown { set } => {
                if set {
                    self.stage = PrefetchStage::Over;
                    return PrefetchCall::Stop;
                }
                match self.stage {
                    PrefetchStage::Next { request } => {
                        self.stage = PrefetchStage::Looking { request };
                        PrefetchCall::CheckCache { request }
                    },
                    _ => {
                        self.stage = PrefetchStage::Polling;
                        PrefetchCall::Poll
                    },
                }
            },
            PrefetchEvent::Polled { requests, connected } => {
                if !connected {
                    self.stage = PrefetchStage::Over;
                    return PrefetchCall::Stop;
                }
                if requests.len() == 0 {
                    self.stage = PrefetchStage::Sleeping;
                    return PrefetchCall::Sleep;
                }
                self.queue = serving_order(&requests);
                self.go_on()
            },
            PrefetchEvent::Cached { hit } => {
                if hit {
                    return self.go_on();
                }
                match self.stage {
                    PrefetchStage::Looking { request } => {
                        self.stage = PrefetchStage::Decoding { request };
                        PrefetchCall::Decode { request }
                    },
                    _ => PrefetchCall::CheckShutdown,
                }
            },
            PrefetchEvent::Decoded => self.go_on(),
            PrefetchEvent::Slept => {
                self.stage = PrefetchStage::Top;
                PrefetchCall::CheckShutdown
            },
        }
    }
}

/// No frame that was asked for is forgotten, none is served that was not asked for, and what
/// is served next is never less urgent than what is served later.
pub proof fn law_requests_are_served_by_urgency(
    requests: Seq<PrefetchRequest>,
    sorted: Seq<PrefetchRequest>,
)
    requires
        sorts(requests, sorted),
    ensures
        urgency_rises(dedup(sorted)),
        forall|r: PrefetchRequest| #[trigger] dedup(sorted).contains(r) ==> requests.contains(r),
        forall|r: PrefetchRequest| #[trigger]
            requests.contains(r) ==> exists|i: int|
                0 <= i < dedup(sorted).len() && frame_of(#[trigger] dedup(sorted)[i]) == frame_of(r),
{
    lemma_dedup(sorted);
    requests.to_multiset_ensures();
    sorted.to_multiset_ensures();
    assert forall|r: PrefetchRequest| #[trigger] dedup(sorted).contains(r) implies requests.contains(
        r,
    ) by {
        assert(sorted.contains(r));
        assert(sorted.to_multiset().count(r) > 0);
        assert(requests.to_multiset().count(r) > 0);
    }
    assert forall|r: PrefetchRequest| #[trigger] requests.contains(r) implies exists|i: int|
        0 <= i < dedup(sorted).len() && frame_of(#[trigger] dedup(sorted)[i]) == frame_of(r) by {
        assert(requests.to_multiset().count(r) > 0);
        assert(sorted.contains(r));
    }
}

proof fn lemma_dedup(s: Seq<PrefetchRequest>)
    requires
        urgency_rises(s),
    ensures
        urgency_rises(dedup(s)),
        s.len() > 0 ==> dedup(s).len() > 0 && dedup(s).last().priority >= s.last().priority,
        forall|r: PrefetchRequest| #[trigger] dedup(s).contains(r) ==> s.contains(r),
        forall|r: PrefetchRequest| #[trigger]
            s.contains(r) ==> exists|i: int|
                0 <= i < dedup(s).len() && frame_of(#[trigger] dedup(s)[i]) == frame_of(r),
    decreases s.len(),
{
    if s.len() > 0 {
        let t = s.drop_last();
        let kept = dedup(t);
        lemma_dedup(t);
        let d = dedup(s);
        if t.len() > 0 {
            assert(t.last() == s[t.len() - 1]);
            assert(s[t.len() - 1].priority >= s.last().priority);
        }
        assert forall|i: int, j: int| 0 <= i < j < d.len() implies (#[trigger] d[i]).priority >= (
        #[trigger] d[j]).priority by {
            if d.len() > kept.len() {
                assert(d[i] == kept[i]);
                if j < kept.len() {
                    assert(d[j] == kept[j]);
                } else if i < kept.len() - 1 {
                    assert(kept[i].priority >= kept[kept.len() - 1].priority);
                }
            }
        }
        assert forall|r: PrefetchRequest| #[trigger] d.contains(r) implies s.contains(r) by {
            let i = choose|i: int| 0 <= i < d.len() && d[i] == r;
            if i < kept.len() {
                assert(kept[i] == r);
                assert(kept.contains(r));
                let k = choose|k: int| 0 <= k < t.len() && t[k] == r;
                assert(s[k] == r);
            } else {
                assert(s[s.len() - 1] == r);
            }
        }
        assert forall|r: PrefetchRequest| #[trigger] s.contains(r) implies exists|i: int|
            0 <= i < d.len() && frame_of(#[trigger] d[i]) == frame_of(r) by {
            let k = choose|k: int| 0 <= k < s.len() && s[k] == r;
            if k < t.len() {
                assert(t[k] == r);
                assert(t.contains(r));
                let i = choose|i: int|
                    0 <= i < kept.len() && frame_of(#[trigger] kept[i]) == frame_of(r);
                assert(d[i] == kept[i]);
            } else {
                assert(frame_of(d[d.len() - 1]) == frame_of(r));
            }
        }
    }
}

/// While the worker decodes it holds one request, and everything it serves it took from a
/// round: a frame is never decoded twice at once.
pub proof fn law_one_frame_is_decoded_at_a_time(
    before: PrefetchWorker,
    event: PrefetchEvent,
    after: PrefetchWorker,
    call: PrefetchCall,
)
    requires
        before.answers(event),
        before.follows(event, after, call),
        call is Decode,
    ensures
        before.stage == (PrefetchStage::Looking { request: call->Decode_request }),
        event == (PrefetchEvent::Cached { hit: false }),
        after.stage == (PrefetchStage::Decoding { request: call->Decode_request }),
{
}

/// A round serves the most urgent frame first: no request for another frame has a smaller
/// priority than the one that is served.  No frame is served twice in a row, and none that was
/// asked for is forgotten.
pub proof fn law_the_most_urgent_is_served_first(
    before: PrefetchWorker,
    requests: Vec<PrefetchRequest>,
    after: PrefetchWorker,
    call: PrefetchCall,
)
    requires
        before.stage is Polling,
        requests@.len() > 0,
        before.follows((PrefetchEvent::Polled { requests, connected: true }), after, call),
    ensures
        call is CheckShutdown,
        after.stage is Next,
        requests@.contains(after.stage->Next_request),
        forall|i: int|
            0 <= i < requests@.len() ==> {
                let (request, next) = (#[trigger] requests@[i], after.stage->Next_request);
                ||| next.priority <= request.priority
                ||| request.source_id == next.source_id && request.pts == next.pts
            },
        forall|i: int, j: int|
            0 <= i < j < after.queue@.len() ==> (#[trigger] after.queue@[i]).priority >= (
            #[trigger] after.queue@[j]).priority,
        forall|i: int|
            0 <= i < after.queue@.len() ==> (#[trigger] after.queue@[i]).priority
                >= after.stage->Next_request.priority,
        after.queue@.len() > 0 ==> {
            let (later, next) = (after.queue@.last(), after.stage->Next_request);
            later.source_id != next.source_id || later.pts != next.pts
        },
        forall|i: int|
            0 <= i < requests@.len() ==> {
                let (request, next) = (#[trigger] requests@[i], after.stage->Next_request);
                ||| request.source_id == next.source_id && request.pts == next.pts
                ||| exists|k: int|
                    0 <= k < after.queue@.len() && (#[trigger] after.queue@[k]).source_id
                        == request.source_id && after.queue@[k].pts == request.pts
            },
{
    let sorted = choose|sorted: Seq<PrefetchRequest>| #[trigger]
        sorts(requests@, sorted) && PrefetchWorker::goes_on(dedup(sorted), after, call);
    law_requests_are_served_by_urgency(requests@, sorted);
    let d = dedup(sorted);
    requests@.to_multiset_ensures();
    sorted.to_multiset_ensures();
    assert(requests@.contains(requests@[0]));
    assert(sorted.len() > 0);
    lemma_dedup_last(sorted);
    let next = after.stage->Next_request;
    assert(d.last() == next);
    assert(d.contains(next));
    assert forall|i: int| 0 <= i < requests@.len() implies {
        let request = #[trigger] requests@[i];
        ||| next.priority <= request.priority
        ||| request.source_id == next.source_id && request.pts == next.pts
    } by {
        let r = requests@[i];
        assert(requests@.contains(r));
        assert(requests@.to_multiset().count(r) > 0);
        assert(sorted.contains(r));
        let k = choose|k: int| 0 <= k < sorted.len() && sorted[k] == r;
        assert(frame_of(sorted[k]) == frame_of(next) || sorted[k].priority >= next.priority);
    }
    assert forall|i: int| 0 <= i < after.queue@.len() implies (
    #[trigger] after.queue@[i]).priority >= next.priority by {
        assert(d[i].priority >= d[d.len() - 1].priority);
        assert(after.queue@[i] == d[i]);
    }
    assert forall|i: int, j: int| 0 <= i < j < after.queue@.len() implies (
    #[trigger] after.queue@[i]).priority >= (#[trigger] after.queue@[j]).priority by {
        assert(d[i].priority >= d[j].priority);
    }
    assert forall|i: int| 0 <= i < requests@.len() implies {
        let request = #[trigger] requests@[i];
        ||| request.source_id == next.source_id && request.pts == next.pts
        ||| exists|k: int|
            0 <= k < after.queue@.len() && (#[trigger] after.queue@[k]).source_id
                == request.source_id && after.queue@[k].pts == request.pts
    } by {
        let r = requests@[i];
        assert(requests@.contains(r));
        let k = choose|k: int| 0 <= k < d.len() && frame_of(#[trigger] d[k]) == frame_of(r);
        if k < d.len() - 1 {
            assert(after.queue@[k] == d[k]);
        }
    }
}

/// What stands last is as urgent as every request for another frame, and no two requests
/// beside each other are for one frame.
proof fn lemma_dedup_last(s: Seq<PrefetchRequest>)
    requires
        urgency_rises(s),
        s.len() > 0,
    ensures
        dedup(s).len() > 0,
        frame_of(dedup(s).last()) == frame_of(s.last()),
        forall|k: int|
            0 <= k < s.len() ==> frame_of(#[trigger] s[k]) == frame_of(dedup(s).last())
                || s[k].priority >= dedup(s).last().priority,
        dedup(s).len() > 1 ==> frame_of(dedup(s)[dedup(s).len() - 2]) != frame_of(
            dedup(s).last(),
        ),
    decreases s.len(),
{
    let t = s.drop_last();
    if t.len() > 0 {
        lemma_dedup_last(t);
        assert forall|k: int| 0 <= k < s.len() implies frame_of(#[trigger] s[k]) == frame_of(
            dedup(s).last(),
        ) || s[k].priority >= dedup(s).last().priority by {
            if k < t.len() {
                assert(t[k] == s[k]);
            }
        }
    } else {
        assert(dedup(t) =~= Seq::empty());
    }
}

/// The worker's round: it stops when it is told to or when nobody is left who could ask,
/// sleeps when nobody has asked, looks a request up before it decodes it, decodes it exactly
/// when it is not cached, and takes the next request when it is through with one.
pub proof fn law_a_request_is_decoded_unless_cached(
    before: PrefetchWorker,
    event: PrefetchEvent,
    after: PrefetchWorker,
    call: PrefetchCall,
)
    requires
        before.answers(event),
        before.follows(event, after, call),
    ensures
        match (before.stage, event) {
            (PrefetchStage::Top, PrefetchEvent::Shutdown { set }) => {
                &&& call is Stop <==> set
                &&& !set ==> call is Poll && after.stage is Polling
                &&& after.queue@ == before.queue@
            },
            (PrefetchStage::Polling, PrefetchEvent::Polled { requests, connected }) => {
                &&& call is Stop <==> !connected
                &&& connected && requests@.len() == 0 ==> call is Sleep && after.stage is Sleeping
                &&& !connected || requests@.len() == 0 ==> after.queue@ == before.queue@
            },
            (PrefetchStage::Next { request }, PrefetchEvent::Shutdown { set }) => {
                &&& call is Stop <==> set
                &&& !set ==> call == (PrefetchCall::CheckCache { request }) && after.stage == (
                PrefetchStage::Looking { request })
                &&& after.queue@ == before.queue@
            },
            (PrefetchStage::Looking { request }, PrefetchEvent::Cached { hit }) => {
                &&& !hit ==> call == (PrefetchCall::Decode { request }) && after.queue@
                    == before.queue@
                &&& hit ==> call is CheckShutdown
            },
            (PrefetchStage::Sleeping, PrefetchEvent::Slept) => call is CheckShutdown
                && after.stage is Top,
            _ => true,
        },
        call is Stop ==> after.stage is Over,
        (event matches PrefetchEvent::Cached { hit } && hit) || event is Decoded ==> {
            &&& call is CheckShutdown
            &&& before.queue@.len() > 0 ==> {
                &&& after.stage == (PrefetchStage::Next { request: before.queue@.last() })
                &&& after.queue@ == before.queue@.drop_last()
            }
            &&& before.queue@.len() == 0 ==> after.stage is Top && after.queue@.len() == 0
        },
{
}

} // verus!
