//! Rendering a segment: frames rendered ahead, read back or submitted in order, and the
//! graph kept while nothing it depends on changes.
use crate::export::graph::{ClipRenderEntry, ClipSignature, GraphPlan, GraphView};
use crate::export::job::ExportJob;
use crate::export::partitioner::ExportSegment;
use crate::io::slot_pool::FrameSlotId;
use vstd::prelude::*;

verus! {

/// A rendered frame on its way to the encoder.
pub struct RawFrame {
    pub frame_index: usize,
    pub pts: i64,
    pub data: Vec<u8>,
}

/// Why a segment could not be rendered.
#[derive(Debug)]
pub enum RenderError {
    GraphOutput,
    ReadbackInit(String),
    ScheduleFailure,
    GpuTimeout,
}

/// Where rendered frames go.
#[derive(Debug, Clone, Copy, PartialEq, Eq, Structural)]
pub enum ExportBackend {
    /// Read back through two staging buffers and queued for a CPU-side encoder.
    Cpu,
    /// Encoded on the GPU from one of `slots` shared buffers.
    GpuNvenc { slots: usize },
}

/// How long a paused export sleeps between two looks at the flags, in milliseconds.
pub const PAUSE_SLEEP_MS: u64 = 50;

/// What the caller has to do next.
pub enum RenderCall {
    /// Look at the cancel and pause flags.
    CheckControl,
    /// Report the pause, sleep for [`PAUSE_SLEEP_MS`], and look at the flags again.
    Paused { frames_done: usize },
    /// Wait until the encoder is done with the slot, muxing what comes out.
    Reclaim { slot: usize },
    /// Render the frame into the slot and submit the GPU work without waiting for it.
    Render { frame_idx: usize, pts: i64, slot: usize },
    /// Read the rendered frame back from the slot.
    ReadBack { frame_idx: usize, slot: usize },
    /// Queue the frame for the encoder and report progress.
    Deliver { frame: RawFrame, frames_done: usize },
    /// Wait for the frame's GPU work, submit it to the encoder and mux what comes out.
    Submit { frame_idx: usize, pts: i64, slot: usize },
    /// Report progress.
    Report { frames_done: usize },
    /// Report the cancellation and stop, without an error.
    Cancelled { frames_done: usize },
    /// Tell the encoder that the segment is complete.
    SegmentDone { segment_index: usize },
    /// The segment is complete.
    Finished,
    Failed { error: RenderError },
}

/// What came of it.
pub enum RenderEvent {
    Control { cancelled: bool, paused: bool },
    Reclaimed { ok: bool },
    /// `false` when the graph of the frame could not be compiled.
    Rendered { ok: bool },
    /// The frame's bytes, or nothing when the buffer could not be mapped.
    ReadBack { data: Option<Vec<u8>> },
    Delivered,
    Submitted { ok: bool },
    Reported,
}

/// What the run is waiting for.
#[derive(Debug, Clone, Copy, PartialEq, Eq, Structural)]
pub enum Phase {
    Control,
    Pausing,
    Reclaiming,
    Rendering,
    /// The frame `done`, on its way out.
    Retrieving,
    /// The report of the frame before `done`.
    Reporting,
    Over,
}

/// A segment being rendered: the frames before `done` are out, those from `done` to `next`
/// are rendered or being rendered, those from `next` on are still to come.
#[derive(Debug, Clone, Copy)]
pub struct SegmentRun {
    pub segment: ExportSegment,
    pub backend: ExportBackend,
    pub done: usize,
    pub next: usize,
    pub frames_done: usize,
    pub phase: Phase,
}

impl SegmentRun {
    pub open spec fn slots(self) -> int {
        match self.backend {
            ExportBackend::Cpu => 2,
            ExportBackend::GpuNvenc { slots } => slots as int,
        }
    }

    /// Frames that may be under way when another one is rendered.
    pub open spec fn lookahead(self) -> int {
        match self.backend {
            ExportBackend::Cpu => 1,
            ExportBackend::GpuNvenc { slots } => if slots > 3 { slots - 2 } else { 1 },
        }
    }

    /// The slot frame `idx` is rendered into.
    pub open spec fn slot_of(self, idx: int) -> int {
        match self.backend {
            ExportBackend::Cpu => (idx - self.segment.frame_start) % 2,
            ExportBackend::GpuNvenc { slots } => idx % slots as int,
        }
    }

    pub open spec fn inv(self) -> bool {
        &&& self.slots() > 0
        &&& self.segment.frame_start <= self.done <= self.next <= self.segment.frame_end
        &&& self.segment.frame_end < usize::MAX
        &&& self.frames_done + (self.segment.frame_end - self.done) <= usize::MAX
        &&& match self.phase {
            Phase::Control | Phase::Pausing => {
                &&& self.next - self.done <= self.lookahead()
                &&& self.backend is GpuNvenc ==> self.next < self.segment.frame_end
            },
            Phase::Reclaiming => {
                &&& self.backend is GpuNvenc
                &&& self.next < self.segment.frame_end
                &&& self.next - self.done <= self.lookahead()
            },
            Phase::Rendering => {
                &&& self.next < self.segment.frame_end
                &&& self.next - self.done <= self.lookahead()
            },
            Phase::Retrieving => {
                &&& self.done < self.next
                &&& self.next - self.done <= self.lookahead() + 1
            },
            Phase::Reporting => self.next - self.done <= self.lookahead(),
            Phase::Over => true,
        }
    }

    /// The times of the segment's frames fit the machine's integers.
    pub open spec fn timed(self, job: ExportJob) -> bool {
        forall|n: int|
            self.segment.frame_start <= n < self.segment.frame_end ==> #[trigger] job.pts_countable(n)
    }

    pub open spec fn at(self, phase: Phase) -> SegmentRun {
        SegmentRun { phase, ..self }
    }

    /// Send frame `done` on its way.
    pub open spec fn retrieve(self, job: ExportJob) -> (SegmentRun, RenderCall) {
        (
            self.at(Phase::Retrieving),
            match self.backend {
                ExportBackend::Cpu => RenderCall::ReadBack {
                    frame_idx: self.done,
                    slot: self.slot_of(self.done as int) as usize,
                },
                ExportBackend::GpuNvenc { .. } => RenderCall::Submit {
                    frame_idx: self.done,
                    pts: job.pts_of(self.done as int) as i64,
                    slot: self.slot_of(self.done as int) as usize,
                },
            },
        )
    }

    /// Render frame `next`.
    pub open spec fn render(self, job: ExportJob) -> (SegmentRun, RenderCall) {
        (
            self.at(Phase::Rendering),
            RenderCall::Render {
                frame_idx: self.next,
                pts: job.pts_of(self.next as int) as i64,
                slot: self.slot_of(self.next as int) as usize,
            },
        )
    }

    pub open spec fn finish(self) -> (SegmentRun, RenderCall) {
        (
            self.at(Phase::Over),
            match self.backend {
                ExportBackend::Cpu => RenderCall::SegmentDone { segment_index: self.segment.index },
                ExportBackend::GpuNvenc { .. } => RenderCall::Finished,
            },
        )
    }

    /// Go on after a frame has been rendered or is out.
    pub open spec fn go_on(self, job: ExportJob) -> (SegmentRun, RenderCall) {
        if self.next - self.done > self.lookahead() {
            self.retrieve(job)
        } else if self.next < self.segment.frame_end {
            (self.at(Phase::Control), RenderCall::CheckControl)
        } else if self.done == self.next {
            self.finish()
        } else if self.backend is Cpu {
            (self.at(Phase::Control), RenderCall::CheckControl)
        } else {
            self.retrieve(job)
        }
    }

    /// Past the flags: render the next frame, or let the last one out.
    pub open spec fn proceed(self, job: ExportJob) -> (SegmentRun, RenderCall) {
        if self.next < self.segment.frame_end {
            if self.backend is Cpu {
                self.render(job)
            } else {
                (
                    self.at(Phase::Reclaiming),
                    RenderCall::Reclaim { slot: self.slot_of(self.next as int) as usize },
                )
            }
        } else if self.done < self.next {
            self.retrieve(job)
        } else {
            self.finish()
        }
    }

    pub open spec fn fail(self, error: RenderError) -> (SegmentRun, RenderCall) {
        (self.at(Phase::Over), RenderCall::Failed { error })
    }

    pub open spec fn cancel(self) -> (SegmentRun, RenderCall) {
        (self.at(Phase::Over), RenderCall::Cancelled { frames_done: self.frames_done })
    }

    pub open spec fn one_more_done(self) -> SegmentRun {
        SegmentRun {
            done: (self.done + 1) as usize,
            frames_done: (self.frames_done + 1) as usize,
            ..self
        }
    }

    pub open spec fn answers(self, event: RenderEvent) -> bool {
        match event {
            RenderEvent::Control { .. } => self.phase is Control || self.phase is Pausing,
            RenderEvent::Reclaimed { .. } => self.phase is Reclaiming,
            RenderEvent::Rendered { .. } => self.phase is Rendering,
            RenderEvent::ReadBack { .. } => self.phase is Retrieving && self.backend is Cpu,
            RenderEvent::Submitted { .. } => self.phase is Retrieving && self.backend is GpuNvenc,
            RenderEvent::Delivered => self.phase is Reporting && self.backend is Cpu,
            RenderEvent::Reported => self.phase is Reporting && self.backend is GpuNvenc,
        }
    }

    /// The run after `event`.
    pub open spec fn after(self, job: ExportJob, event: RenderEvent) -> SegmentRun {
        match event {
            RenderEvent::Control { cancelled, paused } => if self.phase is Control {
                if cancelled {
                    self.cancel().0
                } else if paused {
                    self.at(Phase::Pausing)
                } else {
                    self.proceed(job).0
                }
            } else {
                if !paused {
                    self.proceed(job).0
                } else if cancelled {
                    self.cancel().0
                } else {
                    self
                }
            },
            RenderEvent::Reclaimed { ok } => if ok {
                self.render(job).0
            } else {
                self.fail(RenderError::GpuTimeout).0
            },
            RenderEvent::Rendered { ok } => if ok {
                SegmentRun { next: (self.next + 1) as usize, ..self }.go_on(job).0
            } else {
                self.fail(RenderError::GraphOutput).0
            },
            RenderEvent::ReadBack { data } => if data is Some {
                self.one_more_done().at(Phase::Reporting)
            } else {
                self.fail(RenderError::GpuTimeout).0
            },
            RenderEvent::Submitted { ok } => if ok {
                self.one_more_done().at(Phase::Reporting)
            } else {
                self.fail(RenderError::GpuTimeout).0
            },
            RenderEvent::Delivered | RenderEvent::Reported => self.go_on(job).0,
        }
    }

    /// What has to be done after `event`.
    pub open spec fn call_after(self, job: ExportJob, event: RenderEvent, call: RenderCall) -> bool {
        match event {
            RenderEvent::Control { cancelled, paused } => if self.phase is Control {
                if cancelled {
                    call == self.cancel().1
                } else if paused {
                    call == (RenderCall::Paused { frames_done: self.frames_done })
                } else {
                    call == self.proceed(job).1
                }
            } else {
                if !paused {
                    call == self.proceed(job).1
                } else if cancelled {
                    call == self.cancel().1
                } else {
                    call == (RenderCall::Paused { frames_done: self.frames_done })
                }
            },
            RenderEvent::Reclaimed { ok } => if ok {
                call == self.render(job).1
            } else {
                call == self.fail(RenderError::GpuTimeout).1
            },
            RenderEvent::Rendered { ok } => if ok {
                call == (SegmentRun { next: (self.next + 1) as usize, ..self }).go_on(job).1
            } else {
                call == self.fail(RenderError::GraphOutput).1
            },
            RenderEvent::ReadBack { data } => match data {
                Some(bytes) => call matches RenderCall::Deliver { frame, frames_done } && {
                    &&& frame.frame_index == self.done
                    &&& frame.pts == job.pts_of(self.done as int)
                    &&& frame.data == bytes
                    &&& frames_done == self.frames_done + 1
                },
                None => call == self.fail(RenderError::GpuTimeout).1,
            },
            RenderEvent::Submitted { ok } => if ok {
                call == (RenderCall::Report { frames_done: (self.frames_done + 1) as usize })
            } else {
                call == self.fail(RenderError::GpuTimeout).1
            },
            RenderEvent::Delivered | RenderEvent::Reported => call == self.go_on(job).1,
        }
    }

    fn slot(&self, idx: usize) -> (r: usize)
        requires
            self.slots() > 0,
            self.segment.frame_start <= idx,
        ensures
            r == self.slot_of(idx as int),
    {
        match self.backend {
            ExportBackend::Cpu => (idx - self.segment.frame_start) % 2,
            ExportBackend::GpuNvenc { slots } => idx % slots,
        }
    }

    fn gpu_lookahead(&self) -> (r: usize)
        ensures
            r == self.lookahead(),
    {
        match self.backend {
            ExportBackend::Cpu => 1,
            ExportBackend::GpuNvenc { slots } => if slots > 3 {
                slots - 2
            } else {
                1
            },
        }
    }

    fn step_retrieve(&mut self, job: &ExportJob) -> (r: RenderCall)
        requires
            old(self).slots() > 0,
            old(self).timed(*job),
            old(self).segment.frame_start <= old(self).done < old(self).segment.frame_end,
        ensures
            (*final(self), r) == old(self).retrieve(*job),
    {
        assert(job.pts_countable(self.done as int));
        self.phase = Phase::Retrieving;
        let frame_idx: usize = self.done;
        let slot: usize = self.slot(frame_idx);
        match self.backend {
            ExportBackend::Cpu => RenderCall::ReadBack { frame_idx, slot },
            ExportBackend::GpuNvenc { .. } => RenderCall::Submit {
                frame_idx,
                pts: job.frame_pts(frame_idx),
                slot,
            },
        }
    }

    fn step_render(&mut self, job: &ExportJob) -> (r: RenderCall)
        requires
            old(self).slots() > 0,
            old(self).timed(*job),
            old(self).segment.frame_start <= old(self).next < old(self).segment.frame_end,
        ensures
            (*final(self), r) == old(self).render(*job),
    {
        assert(job.pts_countable(self.next as int));
        self.phase = Phase::Rendering;
        RenderCall::Render {
            frame_idx: self.next,
            pts: job.frame_pts(self.next),
            slot: self.slot(self.next),
        }
    }

    fn step_finish(&mut self) -> (r: RenderCall)
        ensures
            (*final(self), r) == old(self).finish(),
    {
        self.phase = Phase::Over;
        match self.backend {
            ExportBackend::Cpu => RenderCall::SegmentDone { segment_index: self.segment.index },
            ExportBackend::GpuNvenc { .. } => RenderCall::Finished,
        }
    }

    fn step_go_on(&mut self, job: &ExportJob) -> (r: RenderCall)
        requires
            old(self).slots() > 0,
            old(self).timed(*job),
            old(self).segment.frame_start <= old(self).done <= old(self).next
                <= old(self).segment.frame_end,
        ensures
            (*final(self), r) == old(self).go_on(*job),
    {
        if self.next - self.done > self.gpu_lookahead() {
            self.step_retrieve(job)
        } else if self.next < self.segment.frame_end {
            self.phase = Phase::Control;
            RenderCall::CheckControl
        } else if self.done == self.next {
            self.step_finish()
        } else if self.backend == ExportBackend::Cpu {
            self.phase = Phase::Control;
            RenderCall::CheckControl
        } else {
            self.step_retrieve(job)
        }
    }

    fn step_proceed(&mut self, job: &ExportJob) -> (r: RenderCall)
        requires
            old(self).slots() > 0,
            old(self).timed(*job),
            old(self).segment.frame_start <= old(self).done <= old(self).next
                <= old(self).segment.frame_end,
        ensures
            (*final(self), r) == old(self).proceed(*job),
    {
        if self.next < self.segment.frame_end {
            if self.backend == ExportBackend::Cpu {
                self.step_render(job)
            } else {
                self.phase = Phase::Reclaiming;
                RenderCall::Reclaim { slot: self.slot(self.next) }
            }
        } else if self.done < self.next {
            self.step_retrieve(job)
        } else {
            self.step_finish()
        }
    }

    fn step_fail(&mut self, error: RenderError) -> (r: RenderCall)
        ensures
            (*final(self), r) == old(self).fail(error),
    {
        self.phase = Phase::Over;
        RenderCall::Failed { error }
    }

    fn step_cancel(&mut self) -> (r: RenderCall)
        ensures
            (*final(self), r) == old(self).cancel(),
    {
        self.phase = Phase::Over;
        RenderCall::Cancelled { frames_done: self.frames_done }
    }

    /// Take what came of the last call and say what to do next.
    pub fn resume(&mut self, job: &ExportJob, event: RenderEvent) -> (r: RenderCall)
        requires
            old(self).inv(),
            old(self).timed(*job),
            old(self).answers(event),
        ensures
            final(self).inv(),
            final(self).timed(*job),
            *final(self) == old(self).after(*job, event),
            old(self).call_after(*job, event, r),
    {
        match event {
            RenderEvent::Control { cancelled, paused } => {
                if self.phase == Phase::Control {
                    if cancelled {
                        self.step_cancel()
                    } else if paused {
                        self.phase = Phase::Pausing;
                        RenderCall::Paused { frames_done: self.frames_done }
                    } else {
                        self.step_proceed(job)
                    }
                } else {
                    if !paused {
                        self.step_proceed(job)
                    } else if cancelled {
                        self.step_cancel()
                    } else {
                        RenderCall::Paused { frames_done: self.frames_done }
                    }
                }
            },
            RenderEvent::Reclaimed { ok } => {
                if ok {
                    self.step_render(job)
                } else {
                    self.step_fail(RenderError::GpuTimeout)
                }
            },
            RenderEvent::Rendered { ok } => {
                if ok {
                    self.next = self.next + 1;
                    self.step_go_on(job)
                } else {
                    self.step_fail(RenderError::GraphOutput)
                }
            },
            RenderEvent::ReadBack { data } => {
                match data {
                    Some(bytes) => {
                        assert(job.pts_countable(self.done as int));
                        let frame = RawFrame {
                            frame_index: self.done,
                            pts: job.frame_pts(self.done),
                            data: bytes,
                        };
                        self.done = self.done + 1;
                        self.frames_done = self.frames_done + 1;
                        self.phase = Phase::Reporting;
                        RenderCall::Deliver { frame, frames_done: self.frames_done }
                    },
                    None => self.step_fail(RenderError::GpuTimeout),
                }
            },
            RenderEvent::Submitted { ok } => {
                if ok {
                    self.done = self.done + 1;
                    self.frames_done = self.frames_done + 1;
                    self.phase = Phase::Reporting;
                    RenderCall::Report { frames_done: self.frames_done }
                } else {
                    self.step_fail(RenderError::GpuTimeout)
                }
            },
            RenderEvent::Delivered => self.step_go_on(job),
            RenderEvent::Reported => self.step_go_on(job),
        }
    }
}

/// What the graph of a frame depends on.
pub open spec fn signatures(clips: Seq<ClipRenderEntry>) -> Seq<ClipSignature> {
    clips.map_values(|c: ClipRenderEntry| c.signature())
}

/// The staging slot that a packed texture slot names.
pub open spec fn unpacked_slot(texture_slot: u32) -> FrameSlotId {
    FrameSlotId {
        tier: (texture_slot as int / 0x1_0000 % 0x100) as u8,
        index: (texture_slot as int % 0x1_0000) as u16,
    }
}

/// The upload of one clip's frame: from its staging slot into its upload pass.
#[derive(Debug, Clone, Copy, PartialEq, Eq, Structural)]
pub struct FrameUpload {
    pub clip: usize,
    pub node: usize,
    pub slot: FrameSlotId,
}

/// The uploads of the first `n` clips, still images having none.
pub open spec fn uploads_of(
    clips: Seq<ClipRenderEntry>,
    upload_indices: Seq<Option<usize>>,
    n: int,
) -> Seq<FrameUpload>
    decreases n,
{
    if n <= 0 {
        Seq::empty()
    } else {
        let rest = uploads_of(clips, upload_indices, n - 1);
        match upload_indices[n - 1] {
            Some(node) => rest.push(
                FrameUpload {
                    clip: (n - 1) as usize,
                    node,
                    slot: unpacked_slot(clips[n - 1].texture_slot),
                },
            ),
            None => rest,
        }
    }
}

/// Renders the segments of a job, one after the other.
pub struct ExportRenderer {
    pub job: ExportJob,
    pub backend: ExportBackend,
    /// Whether there is a compiled graph.
    pub cached: bool,
    /// What the compiled graph was built for.
    pub cached_sig: Vec<ClipSignature>,
    /// For each clip the index of its upload pass in the compiled graph.
    pub upload_indices: Vec<Option<usize>>,
    pub frames_done: usize,
}

impl ExportRenderer {
    /// The compiled graph is the one of `clips`.
    pub open spec fn graph_current(&self, clips: Seq<ClipRenderEntry>) -> bool {
        self.cached && self.cached_sig@ == signatures(clips)
    }

    /// A renderer without a graph yet.
    pub fn new(job: ExportJob, backend: ExportBackend) -> (r: Self)
        ensures
            r.job == job,
            r.backend == backend,
            !r.cached,
            r.cached_sig@ == Seq::<ClipSignature>::empty(),
            r.upload_indices@ == Seq::<Option<usize>>::empty(),
            r.frames_done == 0,
    {
        ExportRenderer {
            job,
            backend,
            cached: false,
            cached_sig: Vec::new(),
            upload_indices: Vec::new(),
            frames_done: 0,
        }
    }

    fn signature(clips: &Vec<ClipRenderEntry>) -> (r: Vec<ClipSignature>)
        ensures
            r@ == signatures(clips@),
    {
        let mut sig: Vec<ClipSignature> = Vec::new();
        let mut i: usize = 0;
        while i < clips.len()
            invariant
                i <= clips@.len(),
                sig@ == signatures(clips@.take(i as int)),
            decreases clips@.len() - i,
        {
            let c = clips[i];
            let is_still_image: bool = match c.still_image_path {
                Some(still) => still,
                None => false,
            };
            sig.push(
                ClipSignature {
                    source_id: c.source_id,
                    clip_width: c.clip_width,
                    clip_height: c.clip_height,
                    frame_meta: c.frame_meta,
                    is_still_image,
                    effects: c.effects,
                },
            );
            i += 1;
            assert(sig@ =~= signatures(clips@.take(i as int)));
        }
        assert(clips@.take(i as int) =~= clips@);
        sig
    }

    /// The graph to compile for `clips`, or nothing when the compiled one will do.
    ///
    /// `still_loaded` tells of each clip whether its still image could be loaded.
    pub fn ensure_graph(&self, clips: &Vec<ClipRenderEntry>, still_loaded: &Vec<bool>) -> (r:
        Option<GraphPlan>)
        requires
            still_loaded@.len() == clips@.len(),
            clips@.len() * 10 + 2 <= u32::MAX,
        ensures
            r is None <==> self.graph_current(clips@),
            r is Some ==> r->0@ == GraphView::of_frame(self.job, clips@, still_loaded@),
    {
        let sig: Vec<ClipSignature> = Self::signature(clips);
        if self.cached && self.cached_sig.len() == sig.len() {
            let mut i: usize = 0;
            while i < sig.len() && self.cached_sig[i] == sig[i]
                invariant
                    i <= sig@.len() == self.cached_sig@.len(),
                    forall|k: int| 0 <= k < i ==> #[trigger] self.cached_sig@[k] == sig@[k],
                decreases sig@.len() - i,
            {
                i += 1;
            }
            if i == sig.len() {
                assert(self.cached_sig@ =~= sig@);
                return None;
            }
            assert(self.cached_sig@[i as int] != sig@[i as int]);
        }
        Some(GraphPlan::of_frame(&self.job, clips, still_loaded))
    }

    /// Take note of how compiling `plan` for `clips` ended.  A failure leaves the graph that
    /// was there.
    pub fn graph_compiled(
        &mut self,
        clips: &Vec<ClipRenderEntry>,
        plan: GraphPlan,
        compiled: bool,
    ) -> (r: Result<(), RenderError>)
        ensures
            compiled ==> {
                &&& r is Ok
                &&& final(self).graph_current(clips@)
                &&& final(self).upload_indices@ == plan@.upload_indices
            },
            !compiled ==> r == Err::<(), RenderError>(RenderError::GraphOutput) && *final(self)
                == *old(self),
            final(self).job == old(self).job,
            final(self).backend == old(self).backend,
            final(self).frames_done == old(self).frames_done,
    {
        if !compiled {
            return Err(RenderError::GraphOutput);
        }
        self.cached = true;
        self.cached_sig = Self::signature(clips);
        self.upload_indices = plan.upload_indices;
        Ok(())
    }

    /// What to upload before the graph runs: every video clip that the graph knows.
    pub fn upload_frame_data(&self, clips: &Vec<ClipRenderEntry>) -> (r: Vec<FrameUpload>)
        ensures
            r@ == uploads_of(
                clips@,
                self.upload_indices@,
                if clips@.len() < self.upload_indices@.len() {
                    clips@.len() as int
                } else {
                    self.upload_indices@.len() as int
                },
            ),
    {
        let mut uploads: Vec<FrameUpload> = Vec::new();
        let mut i: usize = 0;
        while i < clips.len() && i < self.upload_indices.len()
            invariant
                i <= clips@.len(),
                i <= self.upload_indices@.len(),
                uploads@ == uploads_of(clips@, self.upload_indices@, i as int),
            decreases clips@.len() - i,
        {
            if let Some(node) = self.upload_indices[i] {
                let packed: u32 = clips[i].texture_slot;
                let slot = FrameSlotId {
                    tier: (packed / 0x1_0000 % 0x100) as u8,
                    index: (packed % 0x1_0000) as u16,
                };
                uploads.push(FrameUpload { clip: i, node, slot });
            }
            i += 1;
        }
        uploads
    }

    /// The renderer starts a segment with `run` and `call`.
    pub open spec fn starts(&self, segment: ExportSegment, run: SegmentRun, call: RenderCall) -> bool {
        let empty = self.backend is GpuNvenc && segment.frame_start == segment.frame_end;
        &&& run == (SegmentRun {
            segment,
            backend: self.backend,
            done: segment.frame_start,
            next: segment.frame_start,
            frames_done: self.frames_done,
            phase: if empty { Phase::Over } else { Phase::Control },
        })
        &&& call == if empty { RenderCall::Finished } else { RenderCall::CheckControl }
    }

    /// Start rendering a segment.
    pub fn render_segment(&self, segment: &ExportSegment) -> (r: (SegmentRun, RenderCall))
        requires
            segment.frame_start <= segment.frame_end < usize::MAX,
            self.frames_done + (segment.frame_end - segment.frame_start) <= usize::MAX,
            self.backend matches ExportBackend::GpuNvenc { slots } ==> slots > 0,
        ensures
            r.0.inv(),
            self.starts(*segment, r.0, r.1),
    {
        let empty: bool = self.backend != ExportBackend::Cpu && segment.frame_start
            == segment.frame_end;
        let run = SegmentRun {
            segment: *segment,
            backend: self.backend,
            done: segment.frame_start,
            next: segment.frame_start,
            frames_done: self.frames_done,
            phase: if empty { Phase::Over } else { Phase::Control },
        };
        if empty {
            (run, RenderCall::Finished)
        } else {
            (run, RenderCall::CheckControl)
        }
    }

    /// Take note of the frames a run has brought out.
    pub fn segment_over(&mut self, run: &SegmentRun)
        ensures
            *final(self) == (ExportRenderer { frames_done: run.frames_done, ..*old(self) }),
    {
        self.frames_done = run.frames_done;
    }
}

/// A frame is never rendered into a slot that an earlier frame still occupies: the two
/// readback buffers alternate, and the shared buffers of the encoder are reused only once
/// every frame in them has been submitted.
pub proof fn law_rendered_slot_is_free(run: SegmentRun, other: int)
    requires
        run.inv(),
        run.phase is Rendering,
        run.backend matches ExportBackend::GpuNvenc { slots } ==> slots >= 2,
        run.done <= other < run.next,
    ensures
        run.slot_of(other) != run.slot_of(run.next as int),
{
    match run.backend {
        ExportBackend::Cpu => {},
        ExportBackend::GpuNvenc { slots } => {
            let (a, b, s) = (other, run.next as int, slots as int);
            assert(0 < b - a < s);
            vstd::arithmetic::div_mod::lemma_fundamental_div_mod(a, s);
            vstd::arithmetic::div_mod::lemma_fundamental_div_mod(b, s);
            if a % s == b % s {
                assert(s * (b / s) - s * (a / s) == b - a);
                assert(false) by (nonlinear_arith)
                    requires
                        s * (b / s) - s * (a / s) == b - a,
                        0 < b - a < s,
                ;
            }
        },
    }
}

/// Frames leave a segment in order, each exactly once: the frame on its way out is always
/// the next one due, and the count of frames done moves with it.
pub proof fn law_frames_leave_in_order(run: SegmentRun, job: ExportJob, event: RenderEvent)
    requires
        run.inv(),
        run.answers(event),
    ensures
        ({
            let next = run.after(job, event);
            &&& run.done <= next.done <= run.done + 1
            &&& next.frames_done - run.frames_done == next.done - run.done
            &&& next.done > run.done <==> (run.phase is Retrieving && next.phase is Reporting)
        }),
{
}

/// A run that ends neither cancelled nor failed has brought out every frame of its segment.
pub proof fn law_finished_segment_is_complete(
    run: SegmentRun,
    job: ExportJob,
    event: RenderEvent,
    call: RenderCall,
)
    requires
        run.inv(),
        run.answers(event),
        run.call_after(job, event, call),
        call is SegmentDone || call is Finished,
    ensures
        run.after(job, event).done == run.segment.frame_end,
        run.after(job, event).phase is Over,
{
}

/// The run after a list of events.
pub open spec fn segment_after(run: SegmentRun, job: ExportJob, events: Seq<RenderEvent>) -> SegmentRun
    decreases events.len(),
{
    if events.len() == 0 {
        run
    } else {
        segment_after(run, job, events.drop_last()).after(job, events.last())
    }
}

/// `calls` are the calls of a run that starts with `first` and gets `events`, each the
/// outcome of the call before it.
pub open spec fn segment_calls(
    run: SegmentRun,
    job: ExportJob,
    first: RenderCall,
    events: Seq<RenderEvent>,
    calls: Seq<RenderCall>,
) -> bool
    decreases events.len(),
{
    if events.len() == 0 {
        calls == seq![first]
    } else {
        let before = segment_after(run, job, events.drop_last());
        &&& calls.len() == events.len() + 1
        &&& segment_calls(run, job, first, events.drop_last(), calls.drop_last())
        &&& before.answers(events.last())
        &&& before.call_after(job, events.last(), calls.last())
    }
}

/// The frames handed to the encoder by `calls`, in order: each with its index and its time.
pub open spec fn handed_over(calls: Seq<RenderCall>) -> Seq<(usize, i64)>
    decreases calls.len(),
{
    if calls.len() == 0 {
        Seq::empty()
    } else {
        let before = handed_over(calls.drop_last());
        match calls.last() {
            RenderCall::Deliver { frame, .. } => before.push((frame.frame_index, frame.pts)),
            RenderCall::Submit { frame_idx, pts, .. } => before.push((frame_idx, pts)),
            _ => before,
        }
    }
}

/// A segment's frames from the first to the one before frame `end`, each with its time.
pub open spec fn frames_until(segment: ExportSegment, job: ExportJob, end: int) -> Seq<(usize, i64)> {
    Seq::new(
        (end - segment.frame_start) as nat,
        |k: int|
            (
                (segment.frame_start + k) as usize,
                job.pts_of(segment.frame_start + k) as i64,
            ),
    )
}

/// The call ends a segment that is complete.
pub open spec fn completes(call: RenderCall) -> bool {
    call is SegmentDone || call is Finished
}

/// A run hands the frames of its segment to the encoder in order and none twice, under their
/// own times; at its end, unless it is cancelled or fails, that is every frame of the
/// segment, and only then is the segment said to be complete, once.
///
/// `renderer` starts the run with `run` and `first`.
pub proof fn law_segment_delivers_every_frame(
    renderer: ExportRenderer,
    segment: ExportSegment,
    run: SegmentRun,
    first: RenderCall,
    events: Seq<RenderEvent>,
    calls: Seq<RenderCall>,
)
    requires
        renderer.starts(segment, run, first),
        run.inv(),
        run.timed(renderer.job),
        segment_calls(run, renderer.job, first, events, calls),
    ensures
        ({
            let job = renderer.job;
            let out = handed_over(calls);
            &&& out.len() <= segment.frame_end - segment.frame_start
            &&& out == frames_until(segment, job, segment.frame_start + out.len())
            &&& completes(calls.last()) ==> out == frames_until(
                segment,
                job,
                segment.frame_end as int,
            )
            &&& calls.last() matches RenderCall::SegmentDone { segment_index } ==> segment_index
                == segment.index
            &&& forall|i: int| 0 <= i < calls.len() - 1 ==> !completes(#[trigger] calls[i])
        }),
{
    lemma_segment_run(renderer, segment, run, first, events, calls);
}

proof fn lemma_segment_run(
    renderer: ExportRenderer,
    segment: ExportSegment,
    run: SegmentRun,
    first: RenderCall,
    events: Seq<RenderEvent>,
    calls: Seq<RenderCall>,
)
    requires
        renderer.starts(segment, run, first),
        run.inv(),
        run.timed(renderer.job),
        segment_calls(run, renderer.job, first, events, calls),
    ensures
        ({
            let job = renderer.job;
            let now = segment_after(run, job, events);
            let out = handed_over(calls);
            let submitting = now.backend is GpuNvenc && now.phase is Retrieving;
            &&& calls.len() == events.len() + 1
            &&& now.inv()
            &&& (now.segment, now.backend) == (segment, renderer.backend)
            &&& out == frames_until(segment, job, segment.frame_start + out.len())
            &&& out.len() <= segment.frame_end - segment.frame_start
            &&& !(now.phase is Over) ==> out.len() == now.done - segment.frame_start + if submitting {
                1int
            } else {
                0
            }
            &&& completes(calls.last()) ==> now.phase is Over && out.len() == segment.frame_end
                - segment.frame_start
            &&& calls.last() matches RenderCall::SegmentDone { segment_index } ==> segment_index
                == segment.index
            &&& forall|i: int| 0 <= i < calls.len() - 1 ==> !completes(#[trigger] calls[i])
        }),
    decreases events.len(),
{
    let job = renderer.job;
    let start = segment.frame_start as int;
    let out = handed_over(calls);
    if events.len() == 0 {
        assert(calls.drop_last() =~= Seq::empty());
        assert(handed_over(calls.drop_last()) =~= Seq::empty());
        assert(out =~= frames_until(segment, job, start));
    } else {
        let earlier = calls.drop_last();
        lemma_segment_run(renderer, segment, run, first, events.drop_last(), earlier);
        let was = segment_after(run, job, events.drop_last());
        let (event, call) = (events.last(), calls.last());
        let now = was.after(job, event);
        let before = handed_over(earlier);
        assert(!completes(earlier.last()));
        assert forall|i: int| 0 <= i < calls.len() - 1 implies !completes(#[trigger] calls[i]) by {
            assert(calls[i] == earlier[i]);
        }
        if out.len() > before.len() {
            let k = start + before.len();
            assert(was.timed(job));
            assert(job.pts_countable(k));
            assert(out =~= frames_until(segment, job, k + 1));
        }
    }
}

/// Events left at most, not counting the looks at the flags while paused.
pub open spec fn work_left(run: SegmentRun) -> int {
    let ahead = 8 * (run.segment.frame_end - run.next) + 8 * (run.segment.frame_end - run.done);
    match run.phase {
        Phase::Control | Phase::Pausing => ahead + 4,
        Phase::Reclaiming => ahead + 3,
        Phase::Rendering => ahead + 2,
        Phase::Retrieving => ahead + 1,
        Phase::Reporting => ahead + 7,
        Phase::Over => -1,
    }
}

/// A segment comes to an end: unless it is paused, every event brings it closer.
pub proof fn law_segment_ends(run: SegmentRun, job: ExportJob, event: RenderEvent)
    requires
        run.inv(),
        run.answers(event),
        !(event matches RenderEvent::Control { cancelled, paused } && paused && !cancelled),
    ensures
        -1 <= work_left(run.after(job, event)) < work_left(run),
{
}

/// The graph of the frame before will do for clips of the same signatures: it is the graph
/// that would be built for them.  Whether primaries are converted is no part of a signature,
/// since it follows from the clip's colour and extent, which are, and from the job.
pub proof fn law_equal_signatures_need_no_new_graph(
    job: ExportJob,
    old_clips: Seq<ClipRenderEntry>,
    new_clips: Seq<ClipRenderEntry>,
    loaded: Seq<bool>,
)
    requires
        signatures(old_clips) == signatures(new_clips),
        forall|i: int|
            0 <= i < old_clips.len() ==> (#[trigger] old_clips[i]).converts_gamut
                == new_clips[i].converts_gamut,
    ensures
        GraphView::of_frame(job, old_clips, loaded) == GraphView::of_frame(job, new_clips, loaded),
{
    assert(signatures(old_clips).len() == old_clips.len());
    assert(signatures(new_clips).len() == new_clips.len());
    lemma_equal_graphs(job, old_clips, new_clips, loaded, old_clips.len());
}

proof fn lemma_equal_graphs(
    job: ExportJob,
    a: Seq<ClipRenderEntry>,
    b: Seq<ClipRenderEntry>,
    loaded: Seq<bool>,
    n: nat,
)
    requires
        signatures(a) == signatures(b),
        forall|i: int|
            0 <= i < a.len() ==> (#[trigger] a[i]).converts_gamut == b[i].converts_gamut,
        n <= a.len() == b.len(),
    ensures
        GraphView::of_clips(job, a, loaded, n) == GraphView::of_clips(job, b, loaded, n),
    decreases n,
{
    if n > 0 {
        lemma_equal_graphs(job, a, b, loaded, (n - 1) as nat);
        let i = n - 1;
        assert(signatures(a)[i] == a[i].signature() && signatures(b)[i] == b[i].signature());
        assert(a[i].converts_gamut == b[i].converts_gamut);
    }
}

/// The slot a clip's upload reads is the one that was packed for it.
pub proof fn law_texture_slots_unpack(tier: u8, index: u16)
    ensures
        unpacked_slot((tier * 0x1_0000 + index) as u32) == (FrameSlotId { tier, index }),
{
}

/// How far rendering runs ahead: one frame with two readback buffers, two less than there are
/// slots on the GPU, and one where there are hardly any.  A frame's slot follows from its
/// number, from the start of the segment on the CPU and from that of the export on the GPU.
pub proof fn law_rendering_runs_ahead_of_its_slots(run: SegmentRun, idx: int)
    requires
        run.inv(),
        run.segment.frame_start <= idx,
    ensures
        run.backend is Cpu ==> {
            &&& run.slots() == 2
            &&& run.lookahead() == 1
            &&& run.slot_of(idx) == (idx - run.segment.frame_start) % 2
        },
        run.backend matches ExportBackend::GpuNvenc { slots } ==> {
            &&& run.slots() == slots
            &&& slots >= 4 ==> run.lookahead() == slots - 2
            &&& slots < 4 ==> run.lookahead() == 1
            &&& run.slot_of(idx) == idx % slots as int
        },
{
}

/// `call` renders the frame that is next: on the CPU at once, on the GPU as soon as the
/// encoder is done with its slot.
pub open spec fn goes_for_the_next(run: SegmentRun, job: ExportJob, call: RenderCall) -> bool {
    match run.backend {
        ExportBackend::Cpu => {
            &&& call is Render
            &&& call->Render_frame_idx == run.next
            &&& call->Render_pts == job.pts_of(run.next as int) as i64
            &&& call->Render_slot == (run.next - run.segment.frame_start) % 2
        },
        ExportBackend::GpuNvenc { slots } => {
            &&& call is Reclaim
            &&& call->Reclaim_slot == run.next as int % slots as int
        },
    }
}

/// `call` lets the oldest rendered frame out, of the slot it was rendered into.
pub open spec fn lets_the_oldest_out(run: SegmentRun, job: ExportJob, call: RenderCall) -> bool {
    match run.backend {
        ExportBackend::Cpu => {
            &&& call is ReadBack
            &&& call->ReadBack_frame_idx == run.done
            &&& call->ReadBack_slot == (run.done - run.segment.frame_start) % 2
        },
        ExportBackend::GpuNvenc { slots } => {
            &&& call is Submit
            &&& call->Submit_frame_idx == run.done
            &&& call->Submit_pts == job.pts_of(run.done as int) as i64
            &&& call->Submit_slot == run.done as int % slots as int
        },
    }
}

/// A look at the flags: a cancelled export stops with the frames it has brought out, a paused
/// one waits, unless it is cancelled meanwhile, and otherwise the next frame is rendered, or
/// the oldest let out when none is left to render.
pub proof fn law_the_flags_are_obeyed(
    run: SegmentRun,
    job: ExportJob,
    cancelled: bool,
    paused: bool,
    call: RenderCall,
)
    requires
        run.inv(),
        run.timed(job),
        run.phase is Control || run.phase is Pausing,
        run.call_after(job, (RenderEvent::Control { cancelled, paused }), call),
    ensures
        ({
            let after = run.after(job, (RenderEvent::Control { cancelled, paused }));
            let stops = cancelled && (run.phase is Control || paused);
            &&& stops <==> call is Cancelled
            &&& call is Cancelled ==> call->Cancelled_frames_done == run.frames_done
                && after.phase is Over
            &&& paused && !stops <==> call is Paused
            &&& call is Paused ==> call->Paused_frames_done == run.frames_done && after.phase
                is Pausing
            &&& !paused && !stops && run.next < run.segment.frame_end ==> goes_for_the_next(
                run,
                job,
                call,
            )
            &&& !paused && !stops && run.next == run.segment.frame_end && run.done < run.next
                ==> lets_the_oldest_out(run, job, call) && after.phase is Retrieving
            &&& after.done == run.done && after.next == run.next && after.frames_done
                == run.frames_done
        }),
{
    match run.backend {
        ExportBackend::Cpu => {},
        ExportBackend::GpuNvenc { slots } => {
            let s = slots as int;
            vstd::arithmetic::div_mod::lemma_mod_bound(run.next as int, s);
            vstd::arithmetic::div_mod::lemma_mod_bound(run.done as int, s);
        },
    }
}

/// What follows a frame that was rendered, or one that is out.  As long as more are under way
/// than may be, the oldest is let out; then the flags are looked at before the next one, or,
/// when none is left to render, the rest is let out and the segment is complete.
pub proof fn law_frames_are_let_out_in_time(
    run: SegmentRun,
    job: ExportJob,
    event: RenderEvent,
    call: RenderCall,
)
    requires
        run.inv(),
        run.timed(job),
        run.answers(event),
        run.call_after(job, event, call),
        event == (RenderEvent::Rendered { ok: true }) || event is Delivered || event is Reported,
    ensures
        ({
            let after = run.after(job, event);
            let next = if event is Rendered { run.next + 1 } else { run.next as int };
            let end = run.segment.frame_end as int;
            let ahead = match run.backend {
                ExportBackend::Cpu => 1,
                ExportBackend::GpuNvenc { slots } => if slots >= 4 { slots - 2 } else { 1 },
            };
            let under_way = next - run.done;
            &&& after.next == next && after.done == run.done
            &&& after.frames_done == run.frames_done
            &&& under_way > ahead ==> lets_the_oldest_out(run, job, call) && after.phase
                is Retrieving
            &&& under_way <= ahead && next < end ==> call is CheckControl && after.phase
                is Control
            &&& under_way <= ahead && next == end && under_way > 0 && run.backend is Cpu ==> call
                is CheckControl && after.phase is Control
            &&& under_way <= ahead && next == end && under_way > 0 && run.backend is GpuNvenc
                ==> lets_the_oldest_out(run, job, call) && after.phase is Retrieving
            &&& under_way == 0 && next == end ==> {
                &&& after.phase is Over
                &&& run.backend is Cpu ==> call == (RenderCall::SegmentDone {
                    segment_index: run.segment.index,
                })
                &&& run.backend is GpuNvenc ==> call is Finished
            }
        }),
{
    match run.backend {
        ExportBackend::Cpu => {},
        ExportBackend::GpuNvenc { slots } => {
            vstd::arithmetic::div_mod::lemma_mod_bound(run.done as int, slots as int);
        },
    }
}

/// What follows the other outcomes: a slot that is free is rendered into; a frame that was read
/// back is handed to the encoder as it was read, and one that was submitted is reported, each
/// counted; and every failure ends the segment, a graph that cannot be compiled as such and a
/// GPU that does not answer as a timeout.
pub proof fn law_outcomes_lead_on_or_fail(
    run: SegmentRun,
    job: ExportJob,
    event: RenderEvent,
    call: RenderCall,
)
    requires
        run.inv(),
        run.timed(job),
        run.answers(event),
        run.call_after(job, event, call),
    ensures
        ({
            let after = run.after(job, event);
            match event {
                RenderEvent::Reclaimed { ok } => {
                    &&& ok ==> {
                        &&& call is Render
                        &&& call->Render_frame_idx == run.next
                        &&& call->Render_pts == job.pts_of(run.next as int) as i64
                        &&& run.backend matches ExportBackend::GpuNvenc { slots }
                            ==> call->Render_slot == run.next as int % slots as int
                        &&& after.phase is Rendering
                    }
                    &&& !ok ==> call is Failed && call->error is GpuTimeout && after.phase is Over
                },
                RenderEvent::Rendered { ok } => !ok ==> call is Failed && call->error
                    is GraphOutput && after.phase is Over,
                RenderEvent::ReadBack { data } => {
                    &&& data matches Some(bytes) ==> {
                        &&& call is Deliver
                        &&& call->frame.frame_index == run.done
                        &&& call->frame.pts == job.pts_of(run.done as int)
                        &&& call->frame.data == bytes
                        &&& call->Deliver_frames_done == run.frames_done + 1
                        &&& after.done == run.done + 1
                        &&& after.phase is Reporting
                    }
                    &&& data is None ==> call is Failed && call->error is GpuTimeout
                        && after.phase is Over
                },
                RenderEvent::Submitted { ok } => {
                    &&& ok ==> {
                        &&& call is Report
                        &&& call->Report_frames_done == run.frames_done + 1
                        &&& after.done == run.done + 1
                        &&& after.frames_done == run.frames_done + 1
                        &&& after.phase is Reporting
                    }
                    &&& !ok ==> call is Failed && call->error is GpuTimeout && after.phase is Over
                },
                _ => true,
            }
        }),
{
    match run.backend {
        ExportBackend::Cpu => {},
        ExportBackend::GpuNvenc { slots } => {
            vstd::arithmetic::div_mod::lemma_mod_bound(run.next as int, slots as int);
        },
    }
}

/// A segment starts at its first frame, with nothing rendered and the frames of the segments
/// before it counted; one without frames is finished on the GPU at once.
pub proof fn law_a_segment_starts_at_its_first_frame(
    renderer: ExportRenderer,
    segment: ExportSegment,
    run: SegmentRun,
    call: RenderCall,
)
    requires
        renderer.starts(segment, run, call),
    ensures
        run.segment == segment && run.backend == renderer.backend,
        run.done == segment.frame_start && run.next == segment.frame_start,
        run.frames_done == renderer.frames_done,
        segment.frame_start < segment.frame_end || renderer.backend is Cpu ==> call
            is CheckControl && run.phase is Control,
        segment.frame_start == segment.frame_end && renderer.backend is GpuNvenc ==> call
            is Finished && run.phase is Over,
{
}

/// The compiled graph serves exactly the clips it was compiled for: as many, and each with the
/// source, the extent, the layout and colour, the kind and the effects that its clip had.
pub proof fn law_a_graph_serves_its_own_clips(
    renderer: ExportRenderer,
    clips: Seq<ClipRenderEntry>,
    i: int,
)
    requires
        renderer.graph_current(clips),
        0 <= i < clips.len(),
    ensures
        renderer.cached,
        renderer.cached_sig@.len() == clips.len(),
        renderer.cached_sig@[i].source_id == clips[i].source_id,
        renderer.cached_sig@[i].clip_width == clips[i].clip_width,
        renderer.cached_sig@[i].clip_height == clips[i].clip_height,
        renderer.cached_sig@[i].frame_meta == clips[i].frame_meta,
        renderer.cached_sig@[i].effects == clips[i].effects,
        renderer.cached_sig@[i].is_still_image <==> clips[i].still_image_path == Some(true),
{
    assert(signatures(clips)[i] == clips[i].signature());
}

/// Every clip that has an upload pass is uploaded once, into that pass and out of the slot its
/// frame was decoded into, and no other clip is; the uploads come in the order of the clips.
pub proof fn law_every_video_clip_is_uploaded(
    clips: Seq<ClipRenderEntry>,
    upload_indices: Seq<Option<usize>>,
    n: int,
)
    requires
        0 <= n <= clips.len(),
        n <= upload_indices.len(),
        n <= usize::MAX,
    ensures
        ({
            let uploads = uploads_of(clips, upload_indices, n);
            &&& forall|k: int|
                0 <= k < n && (#[trigger] upload_indices[k]) is Some ==> exists|j: int|
                    0 <= j < uploads.len() && (#[trigger] uploads[j]).clip == k
            &&& forall|j: int|
                0 <= j < uploads.len() ==> {
                    let upload = #[trigger] uploads[j];
                    let packed = clips[upload.clip as int].texture_slot as int;
                    &&& upload.clip < n
                    &&& upload_indices[upload.clip as int] == Some(upload.node)
                    &&& upload.slot.index == packed % 0x1_0000
                    &&& upload.slot.tier == packed / 0x1_0000 % 0x100
                }
            &&& forall|i: int, j: int|
                0 <= i < j < uploads.len() ==> (#[trigger] uploads[i]).clip < (
                #[trigger] uploads[j]).clip
        }),
    decreases n,
{
    if n > 0 {
        law_every_video_clip_is_uploaded(clips, upload_indices, n - 1);
        let rest = uploads_of(clips, upload_indices, n - 1);
        let uploads = uploads_of(clips, upload_indices, n);
        assert forall|j: int| 0 <= j < rest.len() implies uploads[j] == #[trigger] rest[j] by {}
        assert forall|k: int| 0 <= k < n && (#[trigger] upload_indices[k]) is Some implies exists|
            j: int,
        |
            0 <= j < uploads.len() && (#[trigger] uploads[j]).clip == k by {
            if k < n - 1 {
                let j = choose|j: int| 0 <= j < rest.len() && (#[trigger] rest[j]).clip == k;
                assert(uploads[j].clip == k);
            } else {
                assert(uploads[rest.len() as int].clip == k);
            }
        }
        assert forall|j: int| 0 <= j < uploads.len() implies {
            let upload = #[trigger] uploads[j];
            let packed = clips[upload.clip as int].texture_slot as int;
            &&& upload.clip < n
            &&& upload_indices[upload.clip as int] == Some(upload.node)
            &&& upload.slot.index == packed % 0x1_0000
            &&& upload.slot.tier == packed / 0x1_0000 % 0x100
        } by {
            if j < rest.len() {
                assert(uploads[j] == rest[j]);
            }
        }
        assert forall|i: int, j: int| 0 <= i < j < uploads.len() implies (
        #[trigger] uploads[i]).clip < (#[trigger] uploads[j]).clip by {
            assert(uploads[i] == rest[i]);
            if j < rest.len() {
                assert(uploads[j] == rest[j]);
            }
        }
    }
}

} // verus!
