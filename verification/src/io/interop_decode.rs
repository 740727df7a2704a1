//! Which sources decode straight into textures, and what those textures hold.
//!
//! A source has at most one pair of textures, which holds one frame.  What it holds is
//! forgotten before anything is written, and nothing is written before the GPU has read what
//! it was last told to read.
use crate::interop::capability::InteropCapability;
use crate::io::decoder::DecodedFrame;
use crate::io::ffi::hw_accel::HwDeviceType;
use crate::timeline::{DecodedFrameMeta, SourceId, VideoStreamInfo};
use std::collections::HashMap;
use vstd::prelude::*;

verus! {

/// The textures of a source: the application's handles.
#[derive(Debug, Clone, Copy, PartialEq, Eq, Structural)]
pub struct InteropPlanes {
    pub y: u64,
    pub uv: u64,
}

/// A decoded frame in a source's textures.
#[derive(Clone, Copy, Debug, PartialEq, Eq, Structural)]
pub struct InteropFrame {
    pub planes: InteropPlanes,
    /// Layout and colour of these pixels, as the decoder reported them.
    pub meta: DecodedFrameMeta,
    /// The frame's time in ticks of the stream.
    pub pts: i64,
    pub width: u32,
    pub height: u32,
}

/// What came of one attempt to decode into textures.
#[derive(Debug)]
pub enum InteropDecode {
    /// A frame, not necessarily the one asked for.
    Decoded(InteropFrame),
    /// The decoder took the packet and gave no frame.
    Pending,
    /// The frame has to be decoded through host memory.
    Unavailable(&'static str),
}

/// What the decoder gave.
#[derive(Clone, Copy, Debug, PartialEq, Eq, Structural)]
pub enum DecodeOutcome {
    Frame(DecodedFrame),
    NoFrame,
    Failed,
}

/// A source's textures and what they hold.
#[derive(Clone, Copy, Debug, PartialEq, Eq, Structural)]
pub struct SourceTarget {
    pub planes: InteropPlanes,
    /// The time, in the project's clock, of the frame in the textures, if it is known.
    pub held_pts: Option<i64>,
    pub held: Option<InteropFrame>,
    /// The last submission that reads the textures, unless it has been waited for.
    pub last_read: Option<u64>,
}

/// What an attempt to decode has to do next.
pub enum TargetStep {
    /// Allocate textures of that extent.
    Allocate { width: u32, height: u32 },
    /// Wait for the submission, if there is one, then decode into the textures.
    Decode { planes: InteropPlanes, wait: Option<u64> },
    Unavailable(&'static str),
}

/// A clip of a submitted frame, and whether it was drawn from a source's textures.
#[derive(Clone, Copy, Debug, PartialEq, Eq, Structural)]
pub struct BoundClip {
    pub source_id: SourceId,
    pub from_planes: bool,
}

/// Why the extent or the depth of a source rules textures out.
pub open spec fn geometry_defect(info: VideoStreamInfo) -> Option<Seq<char>> {
    if info.pixel_fmt.bit_depth_spec() >= 10 {
        Some("the source is 10-bit or deeper, and the interop planes are 8-bit"@)
    } else if info.width == 0 || info.height == 0 || info.width % 2 != 0 || info.height % 2 != 0 {
        Some("the source's dimensions are zero or odd"@)
    } else {
        None
    }
}

/// Whether the textures can hold the frames of a source: 8 bits, even extents.
pub fn source_geometry_is_interop_capable(info: &VideoStreamInfo) -> (r: Result<(), &'static str>)
    ensures
        match r {
            Ok(_) => geometry_defect(*info) is None,
            Err(reason) => geometry_defect(*info) == Some(reason@),
        },
{
    if info.pixel_fmt.is_10bit() {
        return Err("the source is 10-bit or deeper, and the interop planes are 8-bit");
    }
    if info.width == 0 || info.height == 0 || info.width % 2 != 0 || info.height % 2 != 0 {
        return Err("the source's dimensions are zero or odd");
    }
    Ok(())
}

/// The registry as a value.
#[verifier::ext_equal]
pub struct TargetsState {
    /// What the machine offers.
    pub capability: InteropCapability,
    /// There is a CUDA context to decode with.
    pub available: bool,
    pub targets: Map<u32, SourceTarget>,
    /// The sources that stay on the host path, and why.
    pub rejected: Map<u32, Seq<char>>,
}

impl SourceTarget {
    /// Nothing is known of what the textures hold.
    pub open spec fn forgotten(self) -> SourceTarget {
        SourceTarget { held_pts: None, held: None, ..self }
    }
}

impl TargetsState {
    /// A source is not both accepted and rejected, and a frame is remembered with its time.
    pub open spec fn inv(self) -> bool {
        &&& self.targets.dom().finite()
        &&& !self.available ==> self.targets.dom() =~= Set::empty()
        &&& forall|id: u32|
            #![trigger self.targets.dom().contains(id)]
            self.targets.dom().contains(id) ==> {
                &&& !self.rejected.dom().contains(id)
                &&& self.targets[id].held_pts is Some <==> self.targets[id].held is Some
            }
    }

    /// Why a source that is neither accepted nor rejected is rejected.
    pub open spec fn defect(self, info: VideoStreamInfo, hw: HwDeviceType) -> Option<Seq<char>> {
        if !self.available {
            Some("CUDA interop is unavailable on this host"@)
        } else if !(hw is Cuda) {
            Some("this source's decoder is not NVDEC"@)
        } else {
            geometry_defect(info)
        }
    }

    pub open spec fn reject(self, id: u32, reason: Seq<char>) -> TargetsState {
        TargetsState { rejected: self.rejected.insert(id, reason), ..self }
    }

    /// Forget what the textures hold and what reads them.
    pub open spec fn claim(self, id: u32) -> TargetsState {
        TargetsState {
            targets: self.targets.insert(
                id,
                SourceTarget { last_read: None, ..self.targets[id].forgotten() },
            ),
            ..self
        }
    }

    /// The state after the attempt to decode has begun.
    pub open spec fn begun(self, id: u32, info: VideoStreamInfo, hw: HwDeviceType) -> TargetsState {
        if self.rejected.dom().contains(id) {
            self
        } else if self.targets.dom().contains(id) {
            self.claim(id)
        } else {
            match self.defect(info, hw) {
                Some(reason) => self.reject(id, reason),
                None => self,
            }
        }
    }

    /// What the attempt then has to do.
    pub open spec fn begins_with(
        self,
        id: u32,
        info: VideoStreamInfo,
        hw: HwDeviceType,
        step: TargetStep,
    ) -> bool {
        if self.rejected.dom().contains(id) {
            step matches TargetStep::Unavailable(reason) && reason@ == self.rejected[id]
        } else if self.targets.dom().contains(id) {
            step == (TargetStep::Decode {
                planes: self.targets[id].planes,
                wait: self.targets[id].last_read,
            })
        } else {
            match self.defect(info, hw) {
                Some(text) => step matches TargetStep::Unavailable(reason) && reason@ == text,
                None => step == (TargetStep::Allocate { width: info.width, height: info.height }),
            }
        }
    }

    /// The state once textures have been allocated for the source, or not.
    pub open spec fn after_allocation(self, id: u32, planes: Option<InteropPlanes>) -> TargetsState {
        match planes {
            Some(planes) => TargetsState {
                targets: self.targets.insert(
                    id,
                    SourceTarget { planes, held_pts: None, held: None, last_read: None },
                ),
                ..self
            },
            None => self.reject(id, "allocating the shared Y/UV texture pair failed"@),
        }
    }

    /// The frame a source holds, if it is the one at `pts`.
    pub open spec fn held_frame(self, id: u32, pts: i64) -> Option<InteropFrame> {
        if self.targets.dom().contains(id) && self.targets[id].held_pts == Some(pts) {
            self.targets[id].held
        } else {
            None
        }
    }

    pub open spec fn mark_held(self, id: u32, pts: i64, frame: InteropFrame) -> TargetsState {
        if self.targets.dom().contains(id) {
            TargetsState {
                targets: self.targets.insert(
                    id,
                    SourceTarget {
                        held_pts: Some(pts),
                        held: Some(frame),
                        ..self.targets[id]
                    },
                ),
                ..self
            }
        } else {
            self
        }
    }

    pub open spec fn invalidate(self, id: u32) -> TargetsState {
        if self.targets.dom().contains(id) {
            TargetsState {
                targets: self.targets.insert(id, self.targets[id].forgotten()),
                ..self
            }
        } else {
            self
        }
    }

    pub open spec fn evict(self, id: u32) -> TargetsState {
        TargetsState {
            targets: self.targets.remove(id),
            rejected: self.rejected.remove(id),
            ..self
        }
    }

    pub open spec fn cleared(self) -> TargetsState {
        TargetsState { targets: Map::empty(), rejected: Map::empty(), ..self }
    }

    /// A submission reads the textures of the clip's source.
    pub open spec fn stamped(self, clip: BoundClip, submission: u64) -> TargetsState {
        if clip.from_planes && self.targets.dom().contains(clip.source_id.id) {
            TargetsState {
                targets: self.targets.insert(
                    clip.source_id.id,
                    SourceTarget {
                        last_read: Some(submission),
                        ..self.targets[clip.source_id.id]
                    },
                ),
                ..self
            }
        } else {
            self
        }
    }

    /// A submission reads the textures of all the clips.
    pub open spec fn submitted(self, clips: Seq<BoundClip>, submission: u64) -> TargetsState
        decreases clips.len(),
    {
        if clips.len() == 0 {
            self
        } else {
            self.submitted(clips.drop_last(), submission).stamped(clips.last(), submission)
        }
    }
}

/// The textures of every source that has some.
pub struct InteropDecodeTargets {
    capability: InteropCapability,
    available: bool,
    targets: HashMap<u32, SourceTarget>,
    rejected: HashMap<u32, &'static str>,
}

/// The texts of the reasons.
pub open spec fn reason_texts(m: Map<u32, &'static str>) -> Map<u32, Seq<char>> {
    m.map_values(|s: &'static str| s@)
}

impl View for InteropDecodeTargets {
    type V = TargetsState;

    closed spec fn view(&self) -> TargetsState {
        TargetsState {
            capability: self.capability,
            available: self.available,
            targets: self.targets@,
            rejected: reason_texts(self.rejected@),
        }
    }
}

impl InteropDecodeTargets {
    fn build(capability: InteropCapability, available: bool) -> (r: Self)
        ensures
            r@ == (TargetsState {
                capability,
                available,
                targets: Map::empty(),
                rejected: Map::empty(),
            }),
            r@.inv(),
    {
        broadcast use vstd::std_specs::hash::group_hash_axioms;

        let r = InteropDecodeTargets {
            capability,
            available,
            targets: HashMap::new(),
            rejected: HashMap::new(),
        };
        assert(r@.targets =~= Map::empty());
        assert(r@.rejected =~= Map::empty());
        r
    }

    /// A registry for a machine of that capability; `context` says whether a CUDA context
    /// could be made.  Without one every source stays on the host path.
    pub fn new(capability: InteropCapability, context: bool) -> (r: Self)
        ensures
            r@ == (TargetsState {
                capability,
                available: !(capability.transport is Unavailable) && context,
                targets: Map::empty(),
                rejected: Map::empty(),
            }),
            r@.inv(),
    {
        let available: bool = capability.is_available() && context;
        Self::build(capability, available)
    }

    /// A registry on a context that the caller owns, if there is one.
    pub fn with_context(capability: InteropCapability, context: bool) -> (r: Self)
        ensures
            r@ == (TargetsState {
                capability,
                available: !(capability.transport is Unavailable) && context,
                targets: Map::empty(),
                rejected: Map::empty(),
            }),
            r@.inv(),
    {
        let available: bool = capability.is_available() && context;
        Self::build(capability, available)
    }

    /// A registry that accepts no source.
    pub fn disabled() -> (r: Self)
        ensures
            r@ == (TargetsState {
                capability: r@.capability,
                available: false,
                targets: Map::empty(),
                rejected: Map::empty(),
            }),
            r@.capability.is_none(),
            r@.inv(),
    {
        Self::build(InteropCapability::none(), false)
    }

    /// What the machine offers.
    pub fn capability(&self) -> (r: &InteropCapability)
        ensures
            *r == self@.capability,
    {
        &self.capability
    }

    /// Whether any source could be accepted.
    pub fn is_available(&self) -> (r: bool)
        ensures
            r == self@.available,
    {
        self.available
    }

    /// Number of sources that have textures.
    pub fn live_targets(&self) -> (r: usize)
        ensures
            r == self@.targets.dom().len(),
    {
        broadcast use vstd::std_specs::hash::group_hash_axioms;

        self.targets.len()
    }

    /// Why a source stays on the host path, if it does.
    pub fn rejection_reason(&self, source_id: SourceId) -> (r: Option<&'static str>)
        ensures
            match r {
                Some(reason) => {
                    &&& self@.rejected.dom().contains(source_id.id)
                    &&& reason@ == self@.rejected[source_id.id]
                },
                None => !self@.rejected.dom().contains(source_id.id),
            },
    {
        broadcast use vstd::std_specs::hash::group_hash_axioms;

        match self.rejected.get(&source_id.id) {
            Some(reason) => Some(*reason),
            None => None,
        }
    }

    /// Forget every source.
    pub fn clear(&mut self)
        ensures
            final(self)@ == old(self)@.cleared(),
            final(self)@.inv(),
    {
        broadcast use vstd::std_specs::hash::group_hash_axioms;

        self.targets.clear();
        self.rejected.clear();
        assert(self@ =~= old(self)@.cleared());
    }

    /// Forget one source.
    pub fn evict(&mut self, source_id: SourceId)
        requires
            old(self)@.inv(),
        ensures
            final(self)@ == old(self)@.evict(source_id.id),
            final(self)@.inv(),
    {
        broadcast use vstd::std_specs::hash::group_hash_axioms;

        let _ = self.targets.remove(&source_id.id);
        let _ = self.rejected.remove(&source_id.id);
        assert(self@ =~= old(self)@.evict(source_id.id));
    }

    fn reject(&mut self, id: u32, reason: &'static str)
        requires
            old(self)@.inv(),
            !old(self)@.targets.dom().contains(id),
        ensures
            final(self)@ == old(self)@.reject(id, reason@),
            final(self)@.inv(),
    {
        broadcast use vstd::std_specs::hash::group_hash_axioms;

        self.rejected.insert(id, reason);
        assert(self@ =~= old(self)@.reject(id, reason@));
    }

    fn put(&mut self, id: u32, target: SourceTarget)
        ensures
            final(self)@ == (TargetsState {
                targets: old(self)@.targets.insert(id, target),
                ..old(self)@
            }),
    {
        broadcast use vstd::std_specs::hash::group_hash_axioms;

        self.targets.insert(id, target);
        assert(self@ =~= (TargetsState {
            targets: old(self)@.targets.insert(id, target),
            ..old(self)@
        }));
    }

    fn target(&self, id: u32) -> (r: Option<SourceTarget>)
        ensures
            r == if self@.targets.dom().contains(id) {
                Some(self@.targets[id])
            } else {
                None
            },
    {
        broadcast use vstd::std_specs::hash::group_hash_axioms;

        match self.targets.get(&id) {
            Some(target) => Some(*target),
            None => None,
        }
    }

    /// Decide whether a source may decode into textures, and begin if it may.
    ///
    /// A source that is refused once is refused until it is evicted; one that is accepted
    /// keeps its textures until then.
    pub fn decode_into_target(
        &mut self,
        source_id: SourceId,
        info: &VideoStreamInfo,
        decoder_hw: HwDeviceType,
    ) -> (r: TargetStep)
        requires
            old(self)@.inv(),
        ensures
            final(self)@ == old(self)@.begun(source_id.id, *info, decoder_hw),
            old(self)@.begins_with(source_id.id, *info, decoder_hw, r),
            final(self)@.inv(),
    {
        let id: u32 = source_id.id;
        if let Some(reason) = self.rejection_reason(source_id) {
            return TargetStep::Unavailable(reason);
        }
        if let Some(target) = self.target(id) {
            self.put(
                id,
                SourceTarget {
                    planes: target.planes,
                    held_pts: None,
                    held: None,
                    last_read: None,
                },
            );
            return TargetStep::Decode { planes: target.planes, wait: target.last_read };
        }
        if !self.available {
            let reason = "CUDA interop is unavailable on this host";
            self.reject(id, reason);
            return TargetStep::Unavailable(reason);
        }
        if decoder_hw != HwDeviceType::Cuda {
            let reason = "this source's decoder is not NVDEC";
            self.reject(id, reason);
            return TargetStep::Unavailable(reason);
        }
        match source_geometry_is_interop_capable(info) {
            Err(reason) => {
                self.reject(id, reason);
                TargetStep::Unavailable(reason)
            },
            Ok(_) => TargetStep::Allocate { width: info.width, height: info.height },
        }
    }

    /// Go on once textures have been allocated for a source, or could not be.
    pub fn target_allocated(&mut self, source_id: SourceId, planes: Option<InteropPlanes>) -> (r:
        TargetStep)
        requires
            old(self)@.inv(),
            old(self)@.available,
            !old(self)@.rejected.dom().contains(source_id.id),
            !old(self)@.targets.dom().contains(source_id.id),
        ensures
            final(self)@ == old(self)@.after_allocation(source_id.id, planes),
            final(self)@.inv(),
            match planes {
                Some(planes) => r == (TargetStep::Decode { planes, wait: None }),
                None => r matches TargetStep::Unavailable(reason) && reason@
                    == "allocating the shared Y/UV texture pair failed"@,
            },
    {
        match planes {
            Some(planes) => {
                self.put(
                    source_id.id,
                    SourceTarget { planes, held_pts: None, held: None, last_read: None },
                );
                TargetStep::Decode { planes, wait: None }
            },
            None => {
                let reason = "allocating the shared Y/UV texture pair failed";
                self.reject(source_id.id, reason);
                TargetStep::Unavailable(reason)
            },
        }
    }

    /// `decode` is what the decoder's answer means for the caller.
    pub open spec fn comes_of(
        planes: InteropPlanes,
        outcome: DecodeOutcome,
        decode: InteropDecode,
    ) -> bool {
        match outcome {
            DecodeOutcome::Frame(frame) => decode == InteropDecode::Decoded(
                InteropFrame {
                    planes,
                    meta: frame.meta,
                    pts: frame.pts,
                    width: frame.width,
                    height: frame.height,
                },
            ),
            DecodeOutcome::NoFrame => decode is Pending,
            DecodeOutcome::Failed => decode matches InteropDecode::Unavailable(reason) && reason@
                == "the interop decode returned an error"@,
        }
    }

    /// What the decoder's answer means for the caller.  A failure sends this frame to the
    /// host path; the source keeps its textures.
    pub fn frame_decoded(planes: InteropPlanes, outcome: DecodeOutcome) -> (r: InteropDecode)
        ensures
            Self::comes_of(planes, outcome, r),
    {
        match outcome {
            DecodeOutcome::Frame(frame) => InteropDecode::Decoded(
                InteropFrame {
                    planes,
                    meta: frame.meta,
                    pts: frame.pts,
                    width: frame.width,
                    height: frame.height,
                },
            ),
            DecodeOutcome::NoFrame => InteropDecode::Pending,
            DecodeOutcome::Failed => InteropDecode::Unavailable(
                "the interop decode returned an error",
            ),
        }
    }

    /// The frame a source holds, if it is the one at `pts`.
    pub fn held_frame(&self, source_id: SourceId, pts: i64) -> (r: Option<InteropFrame>)
        ensures
            r == self@.held_frame(source_id.id, pts),
    {
        match self.target(source_id.id) {
            Some(target) => match target.held_pts {
                Some(held) => {
                    if held == pts {
                        target.held
                    } else {
                        None
                    }
                },
                None => None,
            },
            None => None,
        }
    }

    /// The textures of a source hold `frame`, which was asked for at `pts`.
    pub fn mark_held(&mut self, source_id: SourceId, pts: i64, frame: &InteropFrame)
        requires
            old(self)@.inv(),
        ensures
            final(self)@ == old(self)@.mark_held(source_id.id, pts, *frame),
            final(self)@.inv(),
    {
        if let Some(target) = self.target(source_id.id) {
            self.put(
                source_id.id,
                SourceTarget {
                    planes: target.planes,
                    held_pts: Some(pts),
                    held: Some(*frame),
                    last_read: target.last_read,
                },
            );
        }
    }

    /// A submission reads the textures the clips were drawn from; the next decode into them
    /// waits for it.
    pub fn mark_submitted(&mut self, clips: &Vec<BoundClip>, submission: u64)
        requires
            old(self)@.inv(),
        ensures
            final(self)@ == old(self)@.submitted(clips@, submission),
            final(self)@.inv(),
    {
        let mut i: usize = 0;
        assert(clips@.take(0) =~= Seq::empty());
        while i < clips.len()
            invariant
                i <= clips.len(),
                self@.inv(),
                self@ == old(self)@.submitted(clips@.take(i as int), submission),
            decreases clips.len() - i,
        {
            proof {
                assert(clips@.take(i + 1).drop_last() =~= clips@.take(i as int));
            }
            let clip: BoundClip = clips[i];
            if clip.from_planes {
                if let Some(target) = self.target(clip.source_id.id) {
                    self.put(
                        clip.source_id.id,
                        SourceTarget {
                            planes: target.planes,
                            held_pts: target.held_pts,
                            held: target.held,
                            last_read: Some(submission),
                        },
                    );
                }
            }
            i += 1;
        }
        assert(clips@.take(i as int) =~= clips@);
    }

    /// It is no longer known what a source's textures hold.
    pub fn invalidate(&mut self, source_id: SourceId)
        requires
            old(self)@.inv(),
        ensures
            final(self)@ == old(self)@.invalidate(source_id.id),
            final(self)@.inv(),
    {
        if let Some(target) = self.target(source_id.id) {
            self.put(
                source_id.id,
                SourceTarget {
                    planes: target.planes,
                    held_pts: None,
                    held: None,
                    last_read: target.last_read,
                },
            );
        }
    }
}

/// A refusal is remembered: whatever is asked later, with whatever decoder, the answer is
/// the same, and nothing is allocated.
pub proof fn law_refusals_are_remembered(
    s: TargetsState,
    id: u32,
    info: VideoStreamInfo,
    hw: HwDeviceType,
    again: VideoStreamInfo,
    again_hw: HwDeviceType,
    step: TargetStep,
    second: TargetStep,
)
    requires
        s.inv(),
        s.begins_with(id, info, hw, step),
        step is Unavailable,
        s.begun(id, info, hw).begins_with(id, again, again_hw, second),
    ensures
        second matches TargetStep::Unavailable(b) && step->Unavailable_0@ == b@,
        s.begun(id, info, hw).begun(id, again, again_hw) == s.begun(id, info, hw),
        s.begun(id, info, hw).targets == s.targets,
{
}

/// A source gets one pair of textures: once it has it, every attempt decodes into the same
/// pair and no attempt allocates.
pub proof fn law_textures_are_allocated_once(
    s: TargetsState,
    id: u32,
    planes: InteropPlanes,
    info: VideoStreamInfo,
    hw: HwDeviceType,
    step: TargetStep,
)
    requires
        s.inv(),
        !s.rejected.dom().contains(id),
        s.after_allocation(id, Some(planes)).begins_with(id, info, hw, step),
    ensures
        step == (TargetStep::Decode { planes, wait: None }),
        s.after_allocation(id, Some(planes)).begun(id, info, hw).targets.dom() == s.targets.dom().insert(
            id,
        ),
        s.after_allocation(id, Some(planes)).begun(id, info, hw).targets[id].planes == planes,
{
    let t = s.after_allocation(id, Some(planes));
    assert(t.targets.insert(id, t.targets[id]).dom() =~= s.targets.dom().insert(id));
    assert(t.begun(id, info, hw).targets.dom() =~= s.targets.dom().insert(id));
}

/// What is about to be overwritten is served no more: from the moment a decode begins until
/// a frame is marked, a source has no frame at any time.  The same holds after a seek.
pub proof fn law_overwritten_frames_are_not_served(
    s: TargetsState,
    id: u32,
    info: VideoStreamInfo,
    hw: HwDeviceType,
    pts: i64,
)
    requires
        s.inv(),
        s.targets.dom().contains(id),
    ensures
        s.begun(id, info, hw).held_frame(id, pts) is None,
        s.invalidate(id).held_frame(id, pts) is None,
{
}

/// A marked frame is served for its time, and only for that, until something changes it.
pub proof fn law_marked_frames_are_served(s: TargetsState, id: u32, pts: i64, frame: InteropFrame, at: i64)
    requires
        s.targets.dom().contains(id),
    ensures
        s.mark_held(id, pts, frame).held_frame(id, at) == if at == pts {
            Some(frame)
        } else {
            None
        },
{
}

/// The next decode waits for the submission that reads the textures, and does so once.
pub proof fn law_a_decode_waits_for_its_readers(
    s: TargetsState,
    clips: Seq<BoundClip>,
    submission: u64,
    id: u32,
    info: VideoStreamInfo,
    hw: HwDeviceType,
    step: TargetStep,
    second: TargetStep,
)
    requires
        s.inv(),
        s.targets.dom().contains(id),
        exists|i: int|
            0 <= i < clips.len() && (#[trigger] clips[i]).from_planes && clips[i].source_id.id
                == id,
        s.submitted(clips, submission).begins_with(id, info, hw, step),
        s.submitted(clips, submission).begun(id, info, hw).begins_with(id, info, hw, second),
    ensures
        step == (TargetStep::Decode { planes: s.targets[id].planes, wait: Some(submission) }),
        second == (TargetStep::Decode { planes: s.targets[id].planes, wait: None }),
{
    lemma_submitted(s, clips, submission, id);
}

proof fn lemma_submitted(s: TargetsState, clips: Seq<BoundClip>, submission: u64, id: u32)
    ensures
        s.submitted(clips, submission).rejected == s.rejected,
        s.submitted(clips, submission).targets.dom() == s.targets.dom(),
        s.targets.dom().contains(id) ==> s.submitted(clips, submission).targets[id].planes
            == s.targets[id].planes,
        s.targets.dom().contains(id) && (exists|i: int|
            0 <= i < clips.len() && (#[trigger] clips[i]).from_planes && clips[i].source_id.id
                == id) ==> s.submitted(clips, submission).targets[id].last_read == Some(submission),
    decreases clips.len(),
{
    if clips.len() > 0 {
        let rest = clips.drop_last();
        lemma_submitted(s, rest, submission, id);
        let before = s.submitted(rest, submission);
        assert(before.stamped(clips.last(), submission).targets.dom() =~= before.targets.dom());
        if exists|i: int|
            0 <= i < clips.len() && (#[trigger] clips[i]).from_planes && clips[i].source_id.id
                == id {
            let i = choose|i: int|
                0 <= i < clips.len() && (#[trigger] clips[i]).from_planes
                    && clips[i].source_id.id == id;
            if i < rest.len() {
                assert(rest[i] == clips[i]);
            }
        }
    }
}

/// Without a CUDA context no source ever gets textures.
pub proof fn law_disabled_registries_allocate_nothing(
    s: TargetsState,
    id: u32,
    info: VideoStreamInfo,
    hw: HwDeviceType,
    step: TargetStep,
)
    requires
        s.inv(),
        !s.available,
        s.begins_with(id, info, hw, step),
    ensures
        step is Unavailable,
        s.begun(id, info, hw).targets.dom().len() == 0,
        !s.begun(id, info, hw).available,
{
    assert(!s.targets.dom().contains(id));
    assert(s.begun(id, info, hw).targets.dom() =~= Set::empty());
}

/// A source that has not been asked for before gets textures of its own extent exactly when
/// there is a context, NVDEC decodes it, it has eight bits, and its extents are even and not
/// zero; otherwise it is refused for the first of these that fails, and the reason is kept.
pub proof fn law_eligible_sources_get_textures(
    s: TargetsState,
    id: u32,
    info: VideoStreamInfo,
    hw: HwDeviceType,
    step: TargetStep,
)
    requires
        !s.rejected.dom().contains(id),
        !s.targets.dom().contains(id),
        s.begins_with(id, info, hw, step),
    ensures
        ({
            let shallow = info.pixel_fmt is Yuv420p || info.pixel_fmt is Nv12;
            let even = info.width > 0 && info.height > 0 && info.width % 2 == 0 && info.height % 2
                == 0;
            let after = s.begun(id, info, hw);
            &&& step is Allocate <==> s.available && hw is Cuda && shallow && even
            &&& step is Allocate ==> {
                &&& step->width == info.width
                &&& step->height == info.height
                &&& after == s
            }
            &&& !(step is Allocate) ==> {
                &&& step is Unavailable
                &&& after.rejected.dom().contains(id)
                &&& after.rejected[id] == step->Unavailable_0@
                &&& after.targets == s.targets
                &&& step->Unavailable_0@ == if !s.available {
                    "CUDA interop is unavailable on this host"@
                } else if !(hw is Cuda) {
                    "this source's decoder is not NVDEC"@
                } else if !shallow {
                    "the source is 10-bit or deeper, and the interop planes are 8-bit"@
                } else {
                    "the source's dimensions are zero or odd"@
                }
            }
        }),
{
}

/// What is done for one source changes nothing of another, and what is not said to change of
/// the source itself stays: its textures in all cases, and who reads them unless a decode has
/// begun.
pub proof fn law_sources_do_not_touch_each_other(
    s: TargetsState,
    id: u32,
    other: u32,
    info: VideoStreamInfo,
    hw: HwDeviceType,
    planes: Option<InteropPlanes>,
    pts: i64,
    frame: InteropFrame,
)
    requires
        other != id,
    ensures
        ({
            let same = |t: TargetsState|
                {
                    &&& t.targets.dom().contains(other) == s.targets.dom().contains(other)
                    &&& t.rejected.dom().contains(other) == s.rejected.dom().contains(other)
                    &&& s.targets.dom().contains(other) ==> t.targets[other] == s.targets[other]
                    &&& s.rejected.dom().contains(other) ==> t.rejected[other]
                        == s.rejected[other]
                    &&& t.available == s.available && t.capability == s.capability
                };
            &&& same(s.begun(id, info, hw))
            &&& same(s.after_allocation(id, planes))
            &&& same(s.mark_held(id, pts, frame))
            &&& same(s.invalidate(id))
            &&& same(s.evict(id))
        }),
        s.targets.dom().contains(id) ==> {
            &&& s.mark_held(id, pts, frame).targets[id].planes == s.targets[id].planes
            &&& s.mark_held(id, pts, frame).targets[id].last_read == s.targets[id].last_read
            &&& s.invalidate(id).targets[id].planes == s.targets[id].planes
            &&& s.invalidate(id).targets[id].last_read == s.targets[id].last_read
        },
{
}

/// A source that is evicted, or cleared with all the others, is as if it had never been asked
/// for: neither its textures nor its refusal is left.
pub proof fn law_evicted_sources_start_afresh(s: TargetsState, id: u32)
    ensures
        !s.evict(id).targets.dom().contains(id),
        !s.evict(id).rejected.dom().contains(id),
        !s.cleared().targets.dom().contains(id),
        !s.cleared().rejected.dom().contains(id),
        s.cleared().available == s.available,
{
}

/// A failed allocation is a refusal that says so, and is kept; a successful one is not.
pub proof fn law_failed_allocations_are_refusals(
    s: TargetsState,
    id: u32,
    planes: Option<InteropPlanes>,
)
    requires
        !s.rejected.dom().contains(id),
        !s.targets.dom().contains(id),
    ensures
        ({
            let after = s.after_allocation(id, planes);
            &&& planes is None <==> after.rejected.dom().contains(id)
            &&& planes is None ==> after.rejected[id]
                == "allocating the shared Y/UV texture pair failed"@ && after.targets == s.targets
            &&& planes matches Some(p) ==> {
                &&& after.targets.dom().contains(id)
                &&& after.targets[id].planes == p
                &&& after.targets[id].held is None
                &&& after.targets[id].last_read is None
                &&& after.rejected == s.rejected
            }
        }),
{
}

/// A decoded frame is handed on in the textures it was decoded into, with its own time, extent
/// and meaning; no frame is no failure, and a failure is one for this frame alone.
pub proof fn law_decoded_frames_are_handed_on(
    planes: InteropPlanes,
    outcome: DecodeOutcome,
    decode: InteropDecode,
)
    requires
        InteropDecodeTargets::comes_of(planes, outcome, decode),
    ensures
        decode is Pending <==> outcome is NoFrame,
        decode is Unavailable <==> outcome is Failed,
        outcome matches DecodeOutcome::Frame(frame) ==> {
            &&& decode is Decoded
            &&& decode->Decoded_0.planes == planes
            &&& decode->Decoded_0.meta == frame.meta
            &&& decode->Decoded_0.pts == frame.pts
            &&& decode->Decoded_0.width == frame.width
            &&& decode->Decoded_0.height == frame.height
        },
        outcome is Failed ==> decode->Unavailable_0@ == "the interop decode returned an error"@,
{
}

/// Only what is drawn from a source's textures reads them: a submission none of whose clips is
/// drawn from them changes nothing of who reads them or of what they hold.
pub proof fn law_only_readers_are_waited_for(
    s: TargetsState,
    clips: Seq<BoundClip>,
    submission: u64,
    id: u32,
)
    requires
        s.targets.dom().contains(id),
    ensures
        s.submitted(clips, submission).targets.dom().contains(id),
        s.submitted(clips, submission).targets[id].held == s.targets[id].held,
        s.submitted(clips, submission).targets[id].held_pts == s.targets[id].held_pts,
        s.submitted(clips, submission).targets[id].planes == s.targets[id].planes,
        (forall|i: int|
            0 <= i < clips.len() ==> !(#[trigger] clips[i]).from_planes || clips[i].source_id.id
                != id) ==> s.submitted(clips, submission).targets[id].last_read
            == s.targets[id].last_read,
    decreases clips.len(),
{
    if clips.len() > 0 {
        let rest = clips.drop_last();
        law_only_readers_are_waited_for(s, rest, submission, id);
        if forall|i: int|
            0 <= i < clips.len() ==> !(#[trigger] clips[i]).from_planes || clips[i].source_id.id
                != id {
            assert forall|i: int| 0 <= i < rest.len() implies !(#[trigger] rest[i]).from_planes
                || rest[i].source_id.id != id by {
                assert(rest[i] == clips[i]);
            }
            assert(!clips[clips.len() - 1].from_planes || clips[clips.len() - 1].source_id.id
                != id);
        }
    }
}

} // verus!
