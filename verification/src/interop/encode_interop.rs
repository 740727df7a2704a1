//! The NVENC session: pictures in flight, their slots, and the packets that come out.
use crate::arith::{ceil_div, lemma_ceil_div};
use crate::interop::cuda_context::CudaError;
use crate::interop::nv12_encode::div_ceil_u32;
use crate::interop::nvenc::{
    high_word, is_keyframe, nv_enc_pic_params_ver, nv_enc_pic_type_is_keyframe, nvenc_status_str,
    status_name, NV_ENC_ERR_GENERIC, NV_ENC_ERR_INVALID_CALL, NV_ENC_ERR_NEED_MORE_INPUT,
    NV_ENC_PIC_FLAG_EOS, NV_ENC_SUCCESS,
};
use crate::text::{signed_decimal, signed_str};
use std::collections::VecDeque;
use vstd::prelude::*;
use vstd::string::*;

verus! {

/// Pictures a session keeps in flight, each with buffers and an event of its own.
pub const NVENC_INFLIGHT_SLOTS: usize = 4;

/// Two-plane 8-bit 4:2:0 input.
pub const NV_ENC_BUFFER_FORMAT_NV12: u32 = 1;

/// Every exported picture is a progressive frame.
pub const NV_ENC_PIC_STRUCT_FRAME: u32 = 1;

/// How long an encode may take before its event is given up, in milliseconds.
pub const ENCODE_WAIT_TIMEOUT_MS: u32 = 10_000;

/// The repacking of linear RGB into 10-bit words, one word per pixel.
pub struct Abgr10RepackNode {}

impl Abgr10RepackNode {
    /// Workgroups of eight by eight invocations for a frame, across and down.
    pub fn record(width: u32, height: u32) -> (r: (u32, u32))
        ensures
            r.0 == ceil_div(width as int, 8),
            r.1 == ceil_div(height as int, 8),
            width <= r.0 * 8 < width + 8,
            height <= r.1 * 8 < height + 8,
    {
        proof {
            lemma_ceil_div(width as int, 8);
            lemma_ceil_div(height as int, 8);
        }
        (div_ceil_u32(width, 8), div_ceil_u32(height, 8))
    }
}

/// Why a session could not be opened or an encode failed.
#[derive(Debug)]
pub enum EncodeInteropError {
    ApiLoad,
    SessionOpen(i32),
    Initialize(i32),
    Register(i32),
    MapInput(i32),
    Encode(i32),
    Lock(i32),
    Cuda(CudaError),
}

/// `call` failed with `status`.
pub open spec fn failure_text(call: Seq<char>, status: int) -> Seq<char> {
    call + " failed: "@ + status_name(status) + " ("@ + signed_decimal(status) + ")"@
}

fn failure_str(call: &str, status: i32) -> (r: String)
    ensures
        r@ == failure_text(call@, status as int),
{
    let mut r = String::from_str(call);
    r.append(" failed: ");
    r.append(nvenc_status_str(status));
    r.append(" (");
    r.append(signed_str(status as i64).as_str());
    r.append(")");
    r
}

impl EncodeInteropError {
    /// The error in words, with the words of the CUDA error inside.
    pub open spec fn words(&self, cuda: Seq<char>) -> Seq<char> {
        match self {
            EncodeInteropError::ApiLoad => "NvEncodeAPICreateInstance failed"@,
            EncodeInteropError::SessionOpen(s) => failure_text(
                "nvEncOpenEncodeSessionEx"@,
                *s as int,
            ),
            EncodeInteropError::Initialize(s) => failure_text(
                "nvEncInitializeEncoder"@,
                *s as int,
            ),
            EncodeInteropError::Register(s) => failure_text("nvEncRegisterResource"@, *s as int),
            EncodeInteropError::MapInput(s) => failure_text("nvEncMapInputResource"@, *s as int),
            EncodeInteropError::Encode(s) => failure_text("nvEncEncodePicture"@, *s as int),
            EncodeInteropError::Lock(s) => failure_text("nvEncLockBitstream"@, *s as int),
            EncodeInteropError::Cuda(_) => "CUDA interop failed: "@ + cuda,
        }
    }

    /// The error in words; `cuda` renders the CUDA error inside, where there is one.
    pub fn message(&self, cuda: &str) -> (r: String)
        ensures
            r@ == self.words(cuda@),
    {
        match self {
            EncodeInteropError::ApiLoad => String::from_str("NvEncodeAPICreateInstance failed"),
            EncodeInteropError::SessionOpen(s) => failure_str("nvEncOpenEncodeSessionEx", *s),
            EncodeInteropError::Initialize(s) => failure_str("nvEncInitializeEncoder", *s),
            EncodeInteropError::Register(s) => failure_str("nvEncRegisterResource", *s),
            EncodeInteropError::MapInput(s) => failure_str("nvEncMapInputResource", *s),
            EncodeInteropError::Encode(s) => failure_str("nvEncEncodePicture", *s),
            EncodeInteropError::Lock(s) => failure_str("nvEncLockBitstream", *s),
            EncodeInteropError::Cuda(_) => {
                let mut r = String::from_str("CUDA interop failed: ");
                r.append(cuda);
                r
            },
        }
    }
}

/// Decode timestamps for an encoder that may reorder: the submitted times, first in
/// first out, kept strictly increasing.
pub struct DtsQueue {
    submitted: VecDeque<i64>,
    last_dts: Option<i64>,
}

/// The timestamp the next packet gets.
pub open spec fn next_dts(submitted: Seq<i64>, last: Option<i64>, fallback: i64) -> int {
    let dts = if submitted.len() > 0 { submitted[0] } else { fallback };
    match last {
        Some(last) => if dts <= last { last + 1 } else { dts as int },
        None => dts as int,
    }
}

/// What is left to hand out after one packet.
pub open spec fn rest_of(submitted: Seq<i64>) -> Seq<i64> {
    if submitted.len() > 0 { submitted.drop_first() } else { submitted }
}

impl DtsQueue {
    pub closed spec fn submitted(&self) -> Seq<i64> {
        self.submitted@
    }

    pub closed spec fn last(&self) -> Option<i64> {
        self.last_dts
    }

    pub fn new() -> (r: Self)
        ensures
            r.submitted() == Seq::<i64>::empty(),
            r.last() is None,
    {
        DtsQueue { submitted: VecDeque::new(), last_dts: None }
    }

    /// Record the time of a picture handed to the encoder.
    pub fn push_input(&mut self, pts: i64)
        ensures
            final(self).submitted() == old(self).submitted().push(pts),
            final(self).last() == old(self).last(),
    {
        self.submitted.push_back(pts);
    }

    /// Take the timestamp of the next packet: the oldest submitted time, `fallback_pts`
    /// when there is none, and in any case more than the one before.
    pub fn pop_output(&mut self, fallback_pts: i64) -> (dts: i64)
        requires
            old(self).last() != Some(i64::MAX),
        ensures
            dts == next_dts(old(self).submitted(), old(self).last(), fallback_pts),
            final(self).submitted() == rest_of(old(self).submitted()),
            final(self).last() == Some(dts),
    {
        let mut dts: i64 = match self.submitted.pop_front() {
            Some(pts) => pts,
            None => fallback_pts,
        };
        if let Some(last) = self.last_dts {
            if dts <= last {
                dts = last + 1;
            }
        }
        self.last_dts = Some(dts);
        dts
    }

    pub fn pending(&self) -> (r: usize)
        ensures
            r == self.submitted().len(),
    {
        self.submitted.len()
    }
}

/// What happens to the queue, in the order in which it happens.
pub enum DtsStep {
    /// A picture is handed to the encoder.
    Submit { pts: i64 },
    /// A packet comes out; `own` is the presentation time it carries.
    Output { own: i64 },
}

/// The queue after a run of steps, and the timestamps it has handed out.
pub struct DtsHistory {
    pub submitted: Seq<i64>,
    pub last: Option<i64>,
    pub dts: Seq<int>,
}

/// What becomes of a queue in a run of submissions and outputs.
pub open spec fn dts_history(submitted: Seq<i64>, last: Option<i64>, steps: Seq<DtsStep>) -> DtsHistory
    decreases steps.len(),
{
    if steps.len() == 0 {
        DtsHistory { submitted, last, dts: Seq::empty() }
    } else {
        let before = dts_history(submitted, last, steps.drop_last());
        match steps.last() {
            DtsStep::Submit { pts } => DtsHistory {
                submitted: before.submitted.push(pts),
                ..before
            },
            DtsStep::Output { own } => {
                let dts = next_dts(before.submitted, before.last, own);
                DtsHistory {
                    submitted: rest_of(before.submitted),
                    last: Some(dts as i64),
                    dts: before.dts.push(dts),
                }
            },
        }
    }
}

/// Decode timestamps never step back or repeat, whatever is submitted, whatever times the
/// packets carry, and however submissions and packets alternate.
pub proof fn law_dts_strictly_increase(submitted: Seq<i64>, last: Option<i64>, steps: Seq<DtsStep>)
    requires
        forall|k: int|
            0 <= k < dts_history(submitted, last, steps).dts.len() ==> #[trigger] dts_history(
                submitted,
                last,
                steps,
            ).dts[k] <= i64::MAX,
    ensures
        ({
            let dts = dts_history(submitted, last, steps).dts;
            &&& forall|i: int, j: int|
                0 <= i < j < dts.len() ==> #[trigger] dts[i] < #[trigger] dts[j]
            &&& forall|i: int|
                0 <= i < dts.len() && last is Some ==> #[trigger] dts[i] > last->0
        }),
{
    lemma_dts_history(submitted, last, steps);
}

proof fn lemma_dts_history(submitted: Seq<i64>, last: Option<i64>, steps: Seq<DtsStep>)
    requires
        forall|k: int|
            0 <= k < dts_history(submitted, last, steps).dts.len() ==> #[trigger] dts_history(
                submitted,
                last,
                steps,
            ).dts[k] <= i64::MAX,
    ensures
        ({
            let h = dts_history(submitted, last, steps);
            &&& h.last == if h.dts.len() == 0 { last } else { Some(h.dts.last() as i64) }
            &&& forall|i: int|
                0 <= i < h.dts.len() ==> #[trigger] h.dts[i] >= i64::MIN
            &&& forall|i: int, j: int|
                0 <= i < j < h.dts.len() ==> #[trigger] h.dts[i] < #[trigger] h.dts[j]
            &&& forall|i: int|
                0 <= i < h.dts.len() && last is Some ==> #[trigger] h.dts[i] > last->0
        }),
    decreases steps.len(),
{
    if steps.len() > 0 {
        let h = dts_history(submitted, last, steps);
        let before = dts_history(submitted, last, steps.drop_last());
        assert forall|k: int| 0 <= k < before.dts.len() implies #[trigger] before.dts[k]
            <= i64::MAX by {
            assert(h.dts[k] == before.dts[k]);
        }
        lemma_dts_history(submitted, last, steps.drop_last());
    }
}

/// The times submitted, first to last: those in the queue at the start, and those of the
/// run.
pub open spec fn times_of(submitted: Seq<i64>, steps: Seq<DtsStep>) -> Seq<i64>
    decreases steps.len(),
{
    if steps.len() == 0 {
        submitted
    } else {
        let before = times_of(submitted, steps.drop_last());
        match steps.last() {
            DtsStep::Submit { pts } => before.push(pts),
            DtsStep::Output { .. } => before,
        }
    }
}

/// The times the packets of the run carry.
pub open spec fn own_times(steps: Seq<DtsStep>) -> Seq<i64>
    decreases steps.len(),
{
    if steps.len() == 0 {
        Seq::empty()
    } else {
        let before = own_times(steps.drop_last());
        match steps.last() {
            DtsStep::Submit { .. } => before,
            DtsStep::Output { own } => before.push(own),
        }
    }
}

/// No packet comes out before its picture went in: never have more packets come out than
/// pictures been submitted.
pub open spec fn fed(submitted: Seq<i64>, steps: Seq<DtsStep>) -> bool
    decreases steps.len(),
{
    steps.len() > 0 ==> fed(submitted, steps.drop_last()) && own_times(steps).len() <= times_of(
        submitted,
        steps,
    ).len()
}

/// Pictures submitted in presentation order give their times back unchanged, however
/// submissions and packets alternate: the n-th packet's decode time is the n-th submitted
/// time.  So a packet is decoded no later than it is presented exactly where it does not
/// come out behind its turn; an encoder that does not reorder puts every packet out in its
/// turn.
pub proof fn law_dts_are_the_submitted_times(
    submitted: Seq<i64>,
    last: Option<i64>,
    steps: Seq<DtsStep>,
)
    requires
        fed(submitted, steps),
        forall|i: int, j: int|
            0 <= i < j < times_of(submitted, steps).len() ==> #[trigger] times_of(
                submitted,
                steps,
            )[i] < #[trigger] times_of(submitted, steps)[j],
        last is Some && times_of(submitted, steps).len() > 0 ==> last->0 < times_of(
            submitted,
            steps,
        )[0],
    ensures
        ({
            let h = dts_history(submitted, last, steps);
            let times = times_of(submitted, steps);
            &&& h.dts.len() == own_times(steps).len() <= times.len()
            &&& h.submitted == times.skip(h.dts.len() as int)
            &&& h.last == if h.dts.len() == 0 { last } else { Some(times[h.dts.len() - 1]) }
            &&& forall|k: int| 0 <= k < h.dts.len() ==> #[trigger] h.dts[k] == times[k]
            &&& forall|k: int|
                0 <= k < h.dts.len() ==> (#[trigger] h.dts[k] <= own_times(steps)[k] <==> times[k]
                    <= own_times(steps)[k])
        }),
    decreases steps.len(),
{
    if steps.len() > 0 {
        let times = times_of(submitted, steps);
        let past = times_of(submitted, steps.drop_last());
        assert forall|i: int, j: int| 0 <= i < j < past.len() implies #[trigger] past[i]
            < #[trigger] past[j] by {
            assert(times[i] == past[i] && times[j] == past[j]);
        }
        assert(past.len() > 0 ==> times[0] == past[0]);
        law_dts_are_the_submitted_times(submitted, last, steps.drop_last());
        let before = dts_history(submitted, last, steps.drop_last());
        let n = before.dts.len() as int;
        match steps.last() {
            DtsStep::Submit { pts } => {
                assert(before.submitted.push(pts) =~= times.skip(n));
            },
            DtsStep::Output { own } => {
                assert(before.submitted[0] == times[n]);
                assert(rest_of(before.submitted) =~= times.skip(n + 1));
                if n > 0 {
                    assert(times[n - 1] < times[n]);
                }
            },
        }
    }
}

/// One encoded picture handed back by the encoder.
pub struct EncodedPacket {
    pub bytes: Vec<u8>,
    /// Presentation time, echoed back by the encoder.
    pub pts: i64,
    /// Decode time, see [`DtsQueue`].
    pub dts: i64,
    pub is_keyframe: bool,
}

/// A packet as a value.
pub struct PacketView {
    pub bytes: Seq<u8>,
    pub pts: i64,
    pub dts: int,
    pub is_keyframe: bool,
}

impl View for EncodedPacket {
    type V = PacketView;

    open spec fn view(&self) -> PacketView {
        PacketView {
            bytes: self.bytes@,
            pts: self.pts,
            dts: self.dts as int,
            is_keyframe: self.is_keyframe,
        }
    }
}

/// Driver handles of one pipeline slot; zero is no handle.
#[derive(Debug, Clone, Copy, PartialEq, Eq, Structural)]
pub struct EncodeSlot {
    pub registered: u64,
    pub bitstream: u64,
    pub event: u64,
}

/// A picture the encoder has accepted and whose bitstream has not been read yet.
#[derive(Debug, Clone, Copy, PartialEq, Eq, Structural)]
pub struct PendingOutput {
    pub bitstream: u64,
    pub mapped_input: u64,
    /// Signalled when the picture is done; zero in synchronous mode.
    pub event: u64,
    pub slot: usize,
}

/// A picture as it is submitted.
#[derive(Debug, Clone, Copy, PartialEq, Eq, Structural)]
pub struct PicParams {
    pub version: u32,
    pub input_width: u32,
    pub input_height: u32,
    pub input_pitch: u32,
    pub encode_pic_flags: u32,
    pub input_timestamp: u64,
    pub input_buffer: u64,
    pub output_bitstream: u64,
    pub completion_event: u64,
    pub buffer_fmt: u32,
    pub picture_struct: u32,
}

/// What the caller has to do with the driver next.
pub enum NvencCall {
    /// Map a registered input resource.
    MapInput { registered: u64 },
    /// Submit a picture.
    Encode { pic: PicParams },
    /// Wait for the event of the end-of-stream picture, at most [`ENCODE_WAIT_TIMEOUT_MS`];
    /// how the wait ends does not matter.
    WaitEos { event: u64 },
    /// Wait for the output's event if `wait` is set, then lock its bitstream, copy it,
    /// unlock it and unmap the input.
    Retrieve { output: PendingOutput, wait: bool },
    /// Test, without waiting, whether the event is signalled, and leave it signalled.
    Probe { event: u64 },
    /// The operation is over; its packets are ready to be taken.
    Done,
    /// The operation has failed.  Unmap `unmap` if it is not zero, and nothing else.
    Failed { error: EncodeInteropError, unmap: u64 },
}

/// What the driver answered.
pub enum NvencReply {
    Mapped { status: i32, mapped: u64 },
    Encoded { status: i32 },
    EosWaited,
    WaitFailed,
    LockFailed { status: i32 },
    Locked { bytes: Vec<u8>, timestamp: u64, picture_type: u32 },
    Probed { ready: bool },
}

/// What the session is waiting for.
#[derive(Debug, Clone, Copy, PartialEq, Eq, Structural)]
pub enum Task {
    Idle,
    /// An output, on the way to a free `slot` for the frame at `frame`, if there is one.
    Reclaiming { slot: usize, frame: Option<i64> },
    Mapping { slot: usize, pts: i64 },
    Submitting { slot: usize, pts: i64, mapped: u64 },
    Probing,
    /// An output that was tested to be ready.
    Draining,
    SubmittingEos,
    WaitingEos,
    /// An output after the end of the stream.
    Flushing,
}

/// The session as a value.
#[verifier::ext_equal]
pub struct SessionState {
    pub width: u32,
    pub height: u32,
    pub pitch: u32,
    pub api_version: u32,
    pub is_async: bool,
    pub slots: Seq<EncodeSlot>,
    pub eos_event: u64,
    pub pending: Seq<PendingOutput>,
    pub submitted: Seq<i64>,
    pub last_dts: Option<i64>,
    pub eos_sent: bool,
    pub poisoned: bool,
    pub task: Task,
    /// The output being retrieved.
    pub taken: Option<PendingOutput>,
    /// Packets of the operation in progress.
    pub packets: Seq<PacketView>,
}

impl SessionState {
    /// A session that has just been opened: nothing is in flight.
    pub open spec fn just_opened(
        width: u32,
        height: u32,
        pitch: u32,
        api_version: u32,
        is_async: bool,
        slots: Seq<EncodeSlot>,
        eos_event: u64,
    ) -> SessionState {
        SessionState {
            width,
            height,
            pitch,
            api_version,
            is_async,
            slots,
            eos_event,
            pending: Seq::empty(),
            submitted: Seq::empty(),
            last_dts: None,
            eos_sent: false,
            poisoned: false,
            task: Task::Idle,
            taken: None,
            packets: Seq::empty(),
        }
    }

    /// Some picture in flight owns `slot`.
    pub open spec fn busy(self, slot: int) -> bool {
        exists|i: int| 0 <= i < self.pending.len() && (#[trigger] self.pending[i]).slot == slot
    }

    /// An output is on its way.
    pub open spec fn retrieving(self) -> bool {
        self.task is Reclaiming || self.task is Draining || self.task is Flushing
    }

    /// The slot that a frame under way is going to occupy.
    pub open spec fn reserved(self) -> Option<usize> {
        match self.task {
            Task::Mapping { slot, .. } => Some(slot),
            Task::Submitting { slot, .. } => Some(slot),
            _ => None,
        }
    }

    /// Every picture in flight has a slot of its own, a free slot is kept for the frame
    /// under way, every accepted picture still owes its packet, and a session that has
    /// failed holds nothing.
    pub open spec fn inv(self) -> bool {
        &&& self.slots.len() >= 1
        &&& self.poisoned ==> self.pending.len() == 0 && self.task is Idle
        &&& forall|i: int|
            0 <= i < self.pending.len() ==> (#[trigger] self.pending[i]).slot < self.slots.len()
        &&& forall|i: int, j: int|
            0 <= i < j < self.pending.len() ==> (#[trigger] self.pending[i]).slot != (
            #[trigger] self.pending[j]).slot
        &&& self.taken is Some <==> self.retrieving()
        &&& !self.poisoned ==> self.submitted.len() == self.pending.len() + if self.retrieving() {
            1int
        } else {
            0
        }
        &&& match self.task {
            Task::Reclaiming { slot, .. } => slot < self.slots.len(),
            Task::Mapping { slot, .. } => slot < self.slots.len() && !self.busy(slot as int),
            Task::Submitting { slot, .. } => slot < self.slots.len() && !self.busy(slot as int),
            Task::Probing => self.pending.len() > 0,
            _ => true,
        }
    }

    /// `reply` answers what the session asked for.
    pub open spec fn answers(self, reply: NvencReply) -> bool {
        match reply {
            NvencReply::Mapped { .. } => self.task is Mapping,
            NvencReply::Encoded { .. } => self.task is Submitting || self.task is SubmittingEos,
            NvencReply::EosWaited => self.task is WaitingEos,
            NvencReply::WaitFailed => self.retrieving(),
            NvencReply::LockFailed { .. } => self.retrieving(),
            NvencReply::Locked { .. } => self.retrieving(),
            NvencReply::Probed { .. } => self.task is Probing,
        }
    }

    pub open spec fn done(self) -> (SessionState, NvencCall) {
        (SessionState { task: Task::Idle, ..self }, NvencCall::Done)
    }

    /// The session gives up: nothing in flight is touched again.
    pub open spec fn fail(self, error: EncodeInteropError, unmap: u64) -> (
        SessionState,
        NvencCall,
    ) {
        (
            SessionState {
                poisoned: true,
                pending: Seq::empty(),
                task: Task::Idle,
                taken: None,
                packets: Seq::empty(),
                ..self
            },
            NvencCall::Failed { error, unmap },
        )
    }

    /// Retrieve the oldest output.
    pub open spec fn take(self, task: Task) -> (SessionState, NvencCall) {
        (
            SessionState {
                pending: self.pending.drop_first(),
                task,
                taken: Some(self.pending[0]),
                ..self
            },
            NvencCall::Retrieve {
                output: self.pending[0],
                wait: self.is_async && self.pending[0].event != 0,
            },
        )
    }

    /// Retrieve outputs until nothing in flight owns `slot`, then go on with the frame.
    pub open spec fn reclaim(self, slot: usize, frame: Option<i64>) -> (SessionState, NvencCall) {
        if self.busy(slot as int) {
            self.take(Task::Reclaiming { slot, frame })
        } else {
            match frame {
                None => self.done(),
                Some(pts) => (
                    SessionState { task: Task::Mapping { slot, pts }, ..self },
                    NvencCall::MapInput { registered: self.slots[slot as int].registered },
                ),
            }
        }
    }

    /// Go on retrieving outputs as long as the oldest one is known to be ready.
    pub open spec fn drain(self) -> (SessionState, NvencCall) {
        if !self.poisoned && self.is_async && self.pending.len() > 0 && self.pending[0].event
            != 0 {
            (
                SessionState { task: Task::Probing, ..self },
                NvencCall::Probe { event: self.pending[0].event },
            )
        } else {
            self.done()
        }
    }

    /// Retrieve what is left.
    pub open spec fn drain_all(self) -> (SessionState, NvencCall) {
        if self.pending.len() > 0 {
            self.take(Task::Flushing)
        } else {
            self.done()
        }
    }

    /// The picture that encodes the contents of `slot`.
    pub open spec fn picture(self, slot: usize, pts: i64, mapped: u64) -> PicParams {
        PicParams {
            version: high_word(self.api_version, 7),
            input_width: self.width,
            input_height: self.height,
            input_pitch: self.pitch,
            encode_pic_flags: 0,
            input_timestamp: pts as u64,
            input_buffer: mapped,
            output_bitstream: self.slots[slot as int].bitstream,
            completion_event: if self.is_async { self.slots[slot as int].event } else { 0 },
            buffer_fmt: NV_ENC_BUFFER_FORMAT_NV12,
            picture_struct: NV_ENC_PIC_STRUCT_FRAME,
        }
    }

    /// The end-of-stream picture: no input, no output.
    pub open spec fn eos_picture(self) -> PicParams {
        PicParams {
            version: high_word(self.api_version, 7),
            input_width: 0,
            input_height: 0,
            input_pitch: 0,
            encode_pic_flags: NV_ENC_PIC_FLAG_EOS,
            input_timestamp: 0,
            input_buffer: 0,
            output_bitstream: 0,
            completion_event: if self.is_async { self.eos_event } else { 0 },
            buffer_fmt: 0,
            picture_struct: NV_ENC_PIC_STRUCT_FRAME,
        }
    }

    /// Start of an operation: no packets yet.
    pub open spec fn fresh(self) -> SessionState {
        SessionState { packets: Seq::empty(), ..self }
    }

    pub open spec fn after_reclaim_slot(self, slot: usize) -> (SessionState, NvencCall) {
        if self.poisoned || self.pending.len() == 0 {
            self.fresh().done()
        } else {
            self.fresh().reclaim((slot as int % self.slots.len() as int) as usize, None)
        }
    }

    pub open spec fn after_encode_frame(self, pts: i64, slot: usize) -> (SessionState, NvencCall) {
        if self.poisoned {
            (
                self.fresh(),
                NvencCall::Failed {
                    error: EncodeInteropError::Encode(NV_ENC_ERR_INVALID_CALL),
                    unmap: 0,
                },
            )
        } else if self.eos_sent {
            self.fresh().done()
        } else {
            self.fresh().reclaim((slot as int % self.slots.len() as int) as usize, Some(pts))
        }
    }

    pub open spec fn after_flush(self) -> (SessionState, NvencCall) {
        if self.poisoned || self.eos_sent {
            self.fresh().done()
        } else {
            (
                SessionState { eos_sent: true, task: Task::SubmittingEos, ..self.fresh() },
                NvencCall::Encode { pic: self.eos_picture() },
            )
        }
    }

    /// The state with the retrieved bitstream added to the packets.
    pub open spec fn with_packet(self, bytes: Seq<u8>, timestamp: u64, picture_type: u32) -> Self {
        let pts = timestamp as i64;
        let dts = next_dts(self.submitted, self.last_dts, pts);
        SessionState {
            submitted: rest_of(self.submitted),
            last_dts: Some(dts as i64),
            taken: None,
            packets: self.packets.push(
                PacketView { bytes, pts, dts, is_keyframe: is_keyframe(picture_type) },
            ),
            ..self
        }
    }

    /// What follows the driver's answer.
    pub open spec fn after_reply(self, reply: NvencReply) -> (SessionState, NvencCall) {
        match reply {
            NvencReply::Mapped { status, mapped } => match self.task {
                Task::Mapping { slot, pts } => if status != NV_ENC_SUCCESS {
                    self.fail(EncodeInteropError::MapInput(status), 0)
                } else {
                    (
                        SessionState { task: Task::Submitting { slot, pts, mapped }, ..self },
                        NvencCall::Encode { pic: self.picture(slot, pts, mapped) },
                    )
                },
                _ => self.done(),
            },
            NvencReply::Encoded { status } => match self.task {
                Task::Submitting { slot, pts, mapped } => if status != NV_ENC_SUCCESS && status
                    != NV_ENC_ERR_NEED_MORE_INPUT {
                    self.fail(EncodeInteropError::Encode(status), mapped)
                } else {
                    SessionState {
                        submitted: self.submitted.push(pts),
                        pending: self.pending.push(
                            PendingOutput {
                                bitstream: self.slots[slot as int].bitstream,
                                mapped_input: mapped,
                                event: if self.is_async {
                                    self.slots[slot as int].event
                                } else {
                                    0
                                },
                                slot,
                            },
                        ),
                        ..self
                    }.drain()
                },
                _ => if status != NV_ENC_SUCCESS {
                    self.fail(EncodeInteropError::Encode(status), 0)
                } else if self.is_async && self.eos_event != 0 {
                    (
                        SessionState { task: Task::WaitingEos, ..self },
                        NvencCall::WaitEos { event: self.eos_event },
                    )
                } else {
                    self.drain_all()
                },
            },
            NvencReply::EosWaited => self.drain_all(),
            NvencReply::WaitFailed => self.fail(EncodeInteropError::Encode(NV_ENC_ERR_GENERIC), 0),
            NvencReply::LockFailed { status } => self.fail(
                EncodeInteropError::Lock(status),
                self.taken->0.mapped_input,
            ),
            NvencReply::Locked { bytes, timestamp, picture_type } => {
                let next = self.with_packet(bytes@, timestamp, picture_type);
                match self.task {
                    Task::Reclaiming { slot, frame } => next.reclaim(slot, frame),
                    Task::Draining => next.drain(),
                    _ => next.drain_all(),
                }
            },
            NvencReply::Probed { ready } => if ready {
                self.take(Task::Draining)
            } else {
                self.done()
            },
        }
    }
}

/// An open NVENC session and the pictures in flight.
///
/// Every operation begins with one of `reclaim_slot`, `drain_completed`, `encode_frame` or
/// `flush`, which say what to ask of the driver; `resume` takes each answer and says what
/// to ask next, until the operation is done or has failed.
pub struct EncodeInterop {
    width: u32,
    height: u32,
    pitch: u32,
    api_version: u32,
    is_async: bool,
    reorder_disabled: bool,
    slots: Vec<EncodeSlot>,
    eos_event: u64,
    pending: VecDeque<PendingOutput>,
    dts_queue: DtsQueue,
    eos_sent: bool,
    poisoned: bool,
    task: Task,
    taken: Option<PendingOutput>,
    packets: Vec<EncodedPacket>,
}

impl View for EncodeInterop {
    type V = SessionState;

    closed spec fn view(&self) -> SessionState {
        SessionState {
            width: self.width,
            height: self.height,
            pitch: self.pitch,
            api_version: self.api_version,
            is_async: self.is_async,
            slots: self.slots@,
            eos_event: self.eos_event,
            pending: self.pending@,
            submitted: self.dts_queue.submitted(),
            last_dts: self.dts_queue.last(),
            eos_sent: self.eos_sent,
            poisoned: self.poisoned,
            task: self.task,
            taken: self.taken,
            packets: self.packets@.map_values(|p: EncodedPacket| p@),
        }
    }
}

impl EncodeInterop {
    pub closed spec fn reorder_off(&self) -> bool {
        self.reorder_disabled
    }

    /// A session the driver has just opened, with nothing in flight.
    pub(crate) fn opened(
        width: u32,
        height: u32,
        pitch: u32,
        api_version: u32,
        is_async: bool,
        reorder_disabled: bool,
        slots: Vec<EncodeSlot>,
        eos_event: u64,
    ) -> (r: Self)
        requires
            slots@.len() >= 1,
        ensures
            r@ == SessionState::just_opened(
                width,
                height,
                pitch,
                api_version,
                is_async,
                slots@,
                eos_event,
            ),
            r@.inv(),
            r.reorder_off() == reorder_disabled,
    {
        let r = EncodeInterop {
            width,
            height,
            pitch,
            api_version,
            is_async,
            reorder_disabled,
            slots,
            eos_event,
            pending: VecDeque::new(),
            dts_queue: DtsQueue::new(),
            eos_sent: false,
            poisoned: false,
            task: Task::Idle,
            taken: None,
            packets: Vec::new(),
        };
        assert(r@.packets =~= Seq::empty());
        r
    }

    /// How many frames the session keeps in flight.
    pub fn slot_count(&self) -> (r: usize)
        ensures
            r == self@.slots.len(),
    {
        self.slots.len()
    }

    /// Which buffer a frame for that slot is written to.
    pub fn nv12_buffer_for_slot(&self, slot: usize) -> (r: usize)
        requires
            self@.inv(),
        ensures
            r == slot as int % self@.slots.len() as int,
    {
        slot % self.slots.len()
    }

    /// Row stride of both planes in every slot's buffer.
    pub fn pitch(&self) -> (r: u32)
        ensures
            r == self@.pitch,
    {
        self.pitch
    }

    /// Whether output order is sure to be submission order.
    pub fn reorder_disabled(&self) -> (r: bool)
        ensures
            r == self.reorder_off(),
    {
        self.reorder_disabled
    }

    /// Whether a driver call has failed in a way that ended the session.
    pub fn is_poisoned(&self) -> (r: bool)
        ensures
            r == self@.poisoned,
    {
        self.poisoned
    }

    /// Whether the last decode timestamp leaves room for another.
    pub fn has_dts_room(&self) -> (r: bool)
        ensures
            r == (self@.last_dts != Some(i64::MAX)),
    {
        match self.dts_queue.last_dts {
            Some(last) => last != i64::MAX,
            None => true,
        }
    }

    /// The packets of the finished operation, in decode order.
    pub fn take_packets(&mut self) -> (r: Vec<EncodedPacket>)
        ensures
            r@.map_values(|p: EncodedPacket| p@) == old(self)@.packets,
            final(self)@ == old(self)@.fresh(),
            final(self).reorder_off() == old(self).reorder_off(),
    {
        let mut packets: Vec<EncodedPacket> = Vec::new();
        std::mem::swap(&mut packets, &mut self.packets);
        assert(self@.packets =~= Seq::empty());
        packets
    }

    fn finish(&mut self) -> (r: NvencCall)
        ensures
            (final(self)@, r) == old(self)@.done(),
            final(self).reorder_off() == old(self).reorder_off(),
    {
        self.task = Task::Idle;
        NvencCall::Done
    }

    /// Mark the session unusable and abandon every queued handle without touching it.
    fn poison(&mut self, error: EncodeInteropError, unmap: u64) -> (r: NvencCall)
        ensures
            (final(self)@, r) == old(self)@.fail(error, unmap),
            final(self).reorder_off() == old(self).reorder_off(),
    {
        self.poisoned = true;
        self.pending.clear();
        self.task = Task::Idle;
        self.taken = None;
        self.packets = Vec::new();
        assert(self@.packets =~= Seq::empty());
        NvencCall::Failed { error, unmap }
    }

    fn take_oldest_output(&mut self, task: Task) -> (r: NvencCall)
        requires
            old(self)@.pending.len() > 0,
        ensures
            (final(self)@, r) == old(self)@.take(task),
            final(self).reorder_off() == old(self).reorder_off(),
    {
        match self.pending.pop_front() {
            Some(output) => {
                self.task = task;
                self.taken = Some(output);
                assert(self@.pending =~= old(self)@.pending.drop_first());
                NvencCall::Retrieve { output, wait: self.is_async && output.event != 0 }
            },
            None => NvencCall::Done,
        }
    }

    fn slot_busy(&self, slot: usize) -> (r: bool)
        ensures
            r == self@.busy(slot as int),
    {
        let mut i: usize = 0;
        while i < self.pending.len()
            invariant
                i <= self@.pending.len(),
                self.pending@ == self@.pending,
                forall|k: int| 0 <= k < i ==> (#[trigger] self@.pending[k]).slot != slot,
            decreases self@.pending.len() - i,
        {
            if self.pending[i].slot == slot {
                assert(self@.pending[i as int].slot == slot);
                return true;
            }
            i += 1;
        }
        false
    }

    fn step_reclaim(&mut self, slot: usize, frame: Option<i64>) -> (r: NvencCall)
        requires
            slot < old(self)@.slots.len(),
        ensures
            (final(self)@, r) == old(self)@.reclaim(slot, frame),
            final(self).reorder_off() == old(self).reorder_off(),
    {
        if self.slot_busy(slot) {
            self.take_oldest_output(Task::Reclaiming { slot, frame })
        } else {
            match frame {
                None => self.finish(),
                Some(pts) => {
                    self.task = Task::Mapping { slot, pts };
                    NvencCall::MapInput { registered: self.slots[slot].registered }
                },
            }
        }
    }

    fn step_drain(&mut self) -> (r: NvencCall)
        ensures
            (final(self)@, r) == old(self)@.drain(),
            final(self).reorder_off() == old(self).reorder_off(),
    {
        if !self.poisoned && self.is_async && self.pending.len() > 0 && self.pending[0].event != 0 {
            self.task = Task::Probing;
            NvencCall::Probe { event: self.pending[0].event }
        } else {
            self.finish()
        }
    }

    fn step_drain_all(&mut self) -> (r: NvencCall)
        ensures
            (final(self)@, r) == old(self)@.drain_all(),
            final(self).reorder_off() == old(self).reorder_off(),
    {
        if self.pending.len() > 0 {
            self.take_oldest_output(Task::Flushing)
        } else {
            self.finish()
        }
    }

    fn start(&mut self)
        ensures
            final(self)@ == old(self)@.fresh(),
            final(self).reorder_off() == old(self).reorder_off(),
    {
        self.packets = Vec::new();
        assert(self@.packets =~= Seq::empty());
    }

    /// Retrieve outputs until no picture in flight uses `slot`.
    ///
    /// To be called before GPU work that overwrites the slot's buffer is recorded.
    pub fn reclaim_slot(&mut self, slot: usize) -> (r: NvencCall)
        requires
            old(self)@.inv(),
            old(self)@.task is Idle,
        ensures
            (final(self)@, r) == old(self)@.after_reclaim_slot(slot),
            final(self)@.inv(),
            final(self).reorder_off() == old(self).reorder_off(),
    {
        self.start();
        if self.poisoned || self.pending.len() == 0 {
            return self.finish();
        }
        let slot: usize = slot % self.slots.len();
        proof {
            lemma_reclaim(self@, slot, None);
        }
        self.step_reclaim(slot, None)
    }

    /// Retrieve the outputs that are ready, without waiting for any.
    pub fn drain_completed(&mut self) -> (r: NvencCall)
        requires
            old(self)@.inv(),
            old(self)@.task is Idle,
        ensures
            (final(self)@, r) == old(self)@.fresh().drain(),
            final(self)@.inv(),
            final(self).reorder_off() == old(self).reorder_off(),
    {
        self.start();
        self.step_drain()
    }

    /// Submit the frame at `pts`, whose pixels lie in `slot`'s buffer, without waiting for
    /// its bitstream.
    pub fn encode_frame(&mut self, pts: i64, slot: usize) -> (r: NvencCall)
        requires
            old(self)@.inv(),
            old(self)@.task is Idle,
        ensures
            (final(self)@, r) == old(self)@.after_encode_frame(pts, slot),
            final(self)@.inv(),
            final(self).reorder_off() == old(self).reorder_off(),
    {
        self.start();
        if self.poisoned {
            return NvencCall::Failed {
                error: EncodeInteropError::Encode(NV_ENC_ERR_INVALID_CALL),
                unmap: 0,
            };
        }
        if self.eos_sent {
            return self.finish();
        }
        let slot: usize = slot % self.slots.len();
        proof {
            lemma_reclaim(self@, slot, Some(pts));
        }
        self.step_reclaim(slot, Some(pts))
    }

    /// Submit the end of the stream and retrieve every output the encoder still holds.
    pub fn flush(&mut self) -> (r: NvencCall)
        requires
            old(self)@.inv(),
            old(self)@.task is Idle,
        ensures
            (final(self)@, r) == old(self)@.after_flush(),
            final(self)@.inv(),
            final(self).reorder_off() == old(self).reorder_off(),
    {
        self.start();
        if self.poisoned || self.eos_sent {
            return self.finish();
        }
        self.eos_sent = true;
        self.task = Task::SubmittingEos;
        let pic = PicParams {
            version: nv_enc_pic_params_ver(self.api_version),
            input_width: 0,
            input_height: 0,
            input_pitch: 0,
            encode_pic_flags: NV_ENC_PIC_FLAG_EOS,
            input_timestamp: 0,
            input_buffer: 0,
            output_bitstream: 0,
            completion_event: if self.is_async { self.eos_event } else { 0 },
            buffer_fmt: 0,
            picture_struct: NV_ENC_PIC_STRUCT_FRAME,
        };
        NvencCall::Encode { pic }
    }

    /// Take the driver's answer and say what to ask next.
    pub fn resume(&mut self, reply: NvencReply) -> (r: NvencCall)
        requires
            old(self)@.inv(),
            old(self)@.answers(reply),
            reply is Locked ==> old(self)@.last_dts != Some(i64::MAX),
        ensures
            (final(self)@, r) == old(self)@.after_reply(reply),
            final(self)@.inv(),
            final(self).reorder_off() == old(self).reorder_off(),
    {
        proof {
            lemma_reply_keeps_inv(old(self)@, reply);
        }
        match reply {
            NvencReply::Mapped { status, mapped } => {
                if let Task::Mapping { slot, pts } = self.task {
                    if status != NV_ENC_SUCCESS {
                        return self.poison(EncodeInteropError::MapInput(status), 0);
                    }
                    let event: u64 = if self.is_async { self.slots[slot].event } else { 0 };
                    let pic = PicParams {
                        version: nv_enc_pic_params_ver(self.api_version),
                        input_width: self.width,
                        input_height: self.height,
                        input_pitch: self.pitch,
                        encode_pic_flags: 0,
                        input_timestamp: pts as u64,
                        input_buffer: mapped,
                        output_bitstream: self.slots[slot].bitstream,
                        completion_event: event,
                        buffer_fmt: NV_ENC_BUFFER_FORMAT_NV12,
                        picture_struct: NV_ENC_PIC_STRUCT_FRAME,
                    };
                    self.task = Task::Submitting { slot, pts, mapped };
                    NvencCall::Encode { pic }
                } else {
                    self.finish()
                }
            },
            NvencReply::Encoded { status } => {
                if let Task::Submitting { slot, pts, mapped } = self.task {
                    if status != NV_ENC_SUCCESS && status != NV_ENC_ERR_NEED_MORE_INPUT {
                        return self.poison(EncodeInteropError::Encode(status), mapped);
                    }
                    let event: u64 = if self.is_async { self.slots[slot].event } else { 0 };
                    self.dts_queue.push_input(pts);
                    self.pending.push_back(
                        PendingOutput {
                            bitstream: self.slots[slot].bitstream,
                            mapped_input: mapped,
                            event,
                            slot,
                        },
                    );
                    self.step_drain()
                } else {
                    if status != NV_ENC_SUCCESS {
                        return self.poison(EncodeInteropError::Encode(status), 0);
                    }
                    if self.is_async && self.eos_event != 0 {
                        self.task = Task::WaitingEos;
                        NvencCall::WaitEos { event: self.eos_event }
                    } else {
                        self.step_drain_all()
                    }
                }
            },
            NvencReply::EosWaited => self.step_drain_all(),
            NvencReply::WaitFailed => {
                self.poison(EncodeInteropError::Encode(NV_ENC_ERR_GENERIC), 0)
            },
            NvencReply::LockFailed { status } => {
                let unmap: u64 = match self.taken {
                    Some(output) => output.mapped_input,
                    None => 0,
                };
                self.poison(EncodeInteropError::Lock(status), unmap)
            },
            NvencReply::Locked { bytes, timestamp, picture_type } => {
                let ghost before = self@;
                let pts: i64 = timestamp as i64;
                let dts: i64 = self.dts_queue.pop_output(pts);
                let packet = EncodedPacket {
                    bytes,
                    pts,
                    dts,
                    is_keyframe: nv_enc_pic_type_is_keyframe(picture_type),
                };
                self.taken = None;
                self.packets.push(packet);
                assert(self@.packets =~= before.packets.push(packet@));
                assert(self@ =~= before.with_packet(bytes@, timestamp, picture_type));
                match self.task {
                    Task::Reclaiming { slot, frame } => self.step_reclaim(slot, frame),
                    Task::Draining => self.step_drain(),
                    _ => self.step_drain_all(),
                }
            },
            NvencReply::Probed { ready } => {
                if ready {
                    self.take_oldest_output(Task::Draining)
                } else {
                    self.finish()
                }
            },
        }
    }
}

proof fn lemma_take(s: SessionState, task: Task)
    requires
        s.slots.len() >= 1,
        !s.poisoned,
        forall|i: int|
            0 <= i < s.pending.len() ==> (#[trigger] s.pending[i]).slot < s.slots.len(),
        forall|i: int, j: int|
            0 <= i < j < s.pending.len() ==> (#[trigger] s.pending[i]).slot != (
            #[trigger] s.pending[j]).slot,
        s.submitted.len() == s.pending.len(),
        s.pending.len() > 0,
        match task {
            Task::Reclaiming { slot, .. } => slot < s.slots.len(),
            Task::Draining => true,
            Task::Flushing => true,
            _ => false,
        },
    ensures
        s.take(task).0.inv(),
{
}

proof fn lemma_reclaim(s: SessionState, slot: usize, frame: Option<i64>)
    requires
        s.slots.len() >= 1,
        !s.poisoned,
        forall|i: int|
            0 <= i < s.pending.len() ==> (#[trigger] s.pending[i]).slot < s.slots.len(),
        forall|i: int, j: int|
            0 <= i < j < s.pending.len() ==> (#[trigger] s.pending[i]).slot != (
            #[trigger] s.pending[j]).slot,
        s.submitted.len() == s.pending.len(),
        s.taken is None,
        slot < s.slots.len(),
    ensures
        s.reclaim(slot, frame).0.inv(),
{
    if s.busy(slot as int) {
        lemma_take(s, Task::Reclaiming { slot, frame });
    }
}

proof fn lemma_reply_keeps_inv(s: SessionState, reply: NvencReply)
    requires
        s.inv(),
        s.answers(reply),
    ensures
        s.after_reply(reply).0.inv(),
{
    match reply {
        NvencReply::Locked { bytes, timestamp, picture_type } => {
            let next = s.with_packet(bytes@, timestamp, picture_type);
            match s.task {
                Task::Reclaiming { slot, frame } => {
                    lemma_reclaim(next, slot, frame);
                },
                Task::Draining => {},
                _ => {
                    if next.pending.len() > 0 {
                        lemma_take(next, Task::Flushing);
                    }
                },
            }
        },
        NvencReply::Probed { ready } => {
            if ready {
                lemma_take(s, Task::Draining);
            }
        },
        NvencReply::Encoded { status } => {
            if s.task is SubmittingEos && status == NV_ENC_SUCCESS && s.pending.len() > 0 {
                lemma_take(s, Task::Flushing);
            }
        },
        NvencReply::EosWaited => {
            if s.pending.len() > 0 {
                lemma_take(s, Task::Flushing);
            }
        },
        _ => {},
    }
}

/// There are never more pictures in flight than slots: a slot's buffers are not reused
/// before the encoder is done with them.
pub proof fn law_no_more_pictures_than_slots(s: SessionState)
    requires
        s.inv(),
    ensures
        s.pending.len() <= s.slots.len(),
        s.reserved() is Some ==> s.pending.len() < s.slots.len(),
{
    let all = vstd::set_lib::set_int_range(0, s.slots.len() as int);
    vstd::set_lib::lemma_int_range(0, s.slots.len() as int);
    let of = s.pending.map_values(|p: PendingOutput| p.slot as int);
    assert(of.no_duplicates());
    of.unique_seq_to_set();
    assert(of.to_set().subset_of(all)) by {
        assert forall|k: int| of.to_set().contains(k) implies all.contains(k) by {
            let i = choose|i: int| 0 <= i < of.len() && of[i] == k;
            assert(s.pending[i].slot == k);
        }
    }
    vstd::set_lib::lemma_len_subset(of.to_set(), all);
    if s.reserved() is Some {
        let slot = s.reserved()->0 as int;
        assert(!of.to_set().contains(slot)) by {
            if of.to_set().contains(slot) {
                let i = choose|i: int| 0 <= i < of.len() && of[i] == slot;
                assert(s.pending[i].slot == slot);
            }
        }
        assert(of.to_set().insert(slot).subset_of(all));
        vstd::set_lib::lemma_len_subset(of.to_set().insert(slot), all);
    }
}

/// A session that has failed accepts no picture, flushes nothing and asks nothing more of
/// the driver.
pub proof fn law_poisoned_session_rests(s: SessionState, pts: i64, slot: usize)
    requires
        s.inv(),
        s.poisoned,
    ensures
        s.after_encode_frame(pts, slot).1 == (NvencCall::Failed {
            error: EncodeInteropError::Encode(NV_ENC_ERR_INVALID_CALL),
            unmap: 0,
        }),
        s.after_encode_frame(pts, slot).0 == s.fresh(),
        s.after_flush() == (s.fresh(), NvencCall::Done),
        s.after_reclaim_slot(slot) == (s.fresh(), NvencCall::Done),
        s.fresh().drain() == (s.fresh(), NvencCall::Done),
        s.fresh().packets.len() == 0,
{
}

/// After the end of the stream no picture is submitted, and a second flush does nothing.
pub proof fn law_nothing_follows_the_end(s: SessionState, pts: i64, slot: usize)
    requires
        s.inv(),
        s.task is Idle,
        s.eos_sent,
    ensures
        s.after_flush() == (s.fresh(), NvencCall::Done),
        !s.poisoned ==> s.after_encode_frame(pts, slot) == (s.fresh(), NvencCall::Done),
{
}

/// Whatever goes wrong, the session is given up on the spot: it is poisoned, nothing is
/// left in flight, and at most the one input that was being handled is to be unmapped.
pub proof fn law_failures_poison(s: SessionState, reply: NvencReply)
    requires
        s.inv(),
        s.answers(reply),
        s.after_reply(reply).1 is Failed,
    ensures
        s.after_reply(reply).0.poisoned,
        s.after_reply(reply).0.pending.len() == 0,
        s.after_reply(reply).0.packets.len() == 0,
        s.after_reply(reply).1->unmap != 0 ==> match s.task {
            Task::Submitting { mapped, .. } => s.after_reply(reply).1->unmap == mapped,
            _ => s.taken is Some && s.after_reply(reply).1->unmap == s.taken->0.mapped_input,
        },
{
}

/// A session only ever retrieves the oldest picture in flight, and every packet's decode
/// time is later than the one before, from the first packet of the session to the last.
pub proof fn law_packets_advance(s: SessionState, bytes: Vec<u8>, timestamp: u64, picture_type: u32)
    requires
        s.inv(),
        s.retrieving(),
        s.last_dts != Some(i64::MAX),
    ensures
        ({
            let next = s.with_packet(bytes@, timestamp, picture_type);
            let after = s.after_reply(NvencReply::Locked { bytes, timestamp, picture_type });
            &&& next.packets.len() == s.packets.len() + 1
            &&& next.packets.last().bytes == bytes@
            &&& next.packets.last().dts == next.last_dts->0
            &&& s.last_dts is Some ==> next.packets.last().dts > s.last_dts->0
            &&& after.0.packets == next.packets
            &&& after.1 matches NvencCall::Retrieve { output, .. } ==> s.pending.len() > 0
                && output == s.pending[0]
        }),
{
}

/// The session after a run of answers.
pub open spec fn run(s: SessionState, replies: Seq<NvencReply>) -> SessionState
    decreases replies.len(),
{
    if replies.len() == 0 {
        s
    } else {
        run(s.after_reply(replies[0]).0, replies.drop_first())
    }
}

/// A flush brings out a packet for every picture still in flight, and then the session is
/// empty.
pub proof fn law_flush_recovers_everything(s: SessionState, replies: Seq<NvencReply>)
    requires
        s.inv(),
        s.task is Flushing,
        replies.len() == s.pending.len() + 1,
        forall|i: int| 0 <= i < replies.len() ==> #[trigger] replies[i] is Locked,
    ensures
        run(s, replies).task is Idle,
        run(s, replies).pending.len() == 0,
        run(s, replies).submitted.len() == 0,
        run(s, replies).packets.len() == s.packets.len() + replies.len(),
    decreases replies.len(),
{
    let next = s.after_reply(replies[0]).0;
    lemma_reply_keeps_inv(s, replies[0]);
    if s.pending.len() > 0 {
        assert forall|i: int| 0 <= i < replies.drop_first().len() implies
            #[trigger] replies.drop_first()[i] is Locked by {
            assert(replies[i + 1] is Locked);
        }
        law_flush_recovers_everything(next, replies.drop_first());
    } else {
        assert(replies.drop_first().len() == 0);
        assert(run(next, replies.drop_first()) == next);
    }
}

/// One step of taking a session down.
#[derive(Debug, Clone, Copy, PartialEq, Eq, Structural)]
pub enum TeardownCall {
    Unmap(u64),
    UnregisterEvent(u64),
    CloseEvent(u64),
    DestroyBitstream(u64),
    DestroyEncoder,
}

/// Close an event, after unregistering it where the session still can.
pub open spec fn event_calls(event: u64, unregister: bool) -> Seq<TeardownCall> {
    if event == 0 {
        Seq::empty()
    } else if unregister {
        seq![TeardownCall::UnregisterEvent(event), TeardownCall::CloseEvent(event)]
    } else {
        seq![TeardownCall::CloseEvent(event)]
    }
}

pub open spec fn slot_event_calls(slots: Seq<EncodeSlot>, unregister: bool) -> Seq<TeardownCall>
    decreases slots.len(),
{
    if slots.len() == 0 {
        Seq::empty()
    } else {
        slot_event_calls(slots.drop_last(), unregister) + event_calls(
            slots.last().event,
            unregister,
        )
    }
}

pub open spec fn bitstream_calls(slots: Seq<EncodeSlot>) -> Seq<TeardownCall>
    decreases slots.len(),
{
    if slots.len() == 0 {
        Seq::empty()
    } else {
        let rest = bitstream_calls(slots.drop_last());
        if slots.last().bitstream == 0 {
            rest
        } else {
            rest.push(TeardownCall::DestroyBitstream(slots.last().bitstream))
        }
    }
}

pub open spec fn unmap_calls(pending: Seq<PendingOutput>) -> Seq<TeardownCall>
    decreases pending.len(),
{
    if pending.len() == 0 {
        Seq::empty()
    } else {
        let rest = unmap_calls(pending.drop_last());
        if pending.last().mapped_input == 0 {
            rest
        } else {
            rest.push(TeardownCall::Unmap(pending.last().mapped_input))
        }
    }
}

impl SessionState {
    /// How the session is taken down.  A session that has failed is only destroyed: its
    /// handles went with it, except for the events, which are the caller's own.
    pub open spec fn teardown(self) -> Seq<TeardownCall> {
        if self.poisoned {
            seq![TeardownCall::DestroyEncoder] + slot_event_calls(self.slots, false) + event_calls(
                self.eos_event,
                false,
            )
        } else {
            unmap_calls(self.pending) + (if self.is_async {
                slot_event_calls(self.slots, true) + event_calls(self.eos_event, true)
            } else {
                Seq::empty()
            }) + bitstream_calls(self.slots) + seq![TeardownCall::DestroyEncoder]
        }
    }
}

fn push_event_calls(calls: &mut Vec<TeardownCall>, event: u64, unregister: bool)
    ensures
        final(calls)@ == old(calls)@ + event_calls(event, unregister),
{
    if event != 0 {
        if unregister {
            calls.push(TeardownCall::UnregisterEvent(event));
        }
        calls.push(TeardownCall::CloseEvent(event));
    }
}

impl EncodeInterop {
    fn push_slot_event_calls(&self, calls: &mut Vec<TeardownCall>, unregister: bool)
        ensures
            final(calls)@ == old(calls)@ + slot_event_calls(self@.slots, unregister),
    {
        let mut i: usize = 0;
        while i < self.slots.len()
            invariant
                i <= self.slots.len(),
                self@.slots == self.slots@,
                calls@ == old(calls)@ + slot_event_calls(self@.slots.take(i as int), unregister),
            decreases self.slots.len() - i,
        {
            push_event_calls(calls, self.slots[i].event, unregister);
            i += 1;
            assert(self@.slots.take(i as int).drop_last() =~= self@.slots.take(i - 1));
        }
        assert(self@.slots.take(i as int) =~= self@.slots);
    }

    /// The driver calls that take the session down, in order.
    pub fn teardown(&self) -> (calls: Vec<TeardownCall>)
        ensures
            calls@ == self@.teardown(),
    {
        let mut calls: Vec<TeardownCall> = Vec::new();
        if self.poisoned {
            calls.push(TeardownCall::DestroyEncoder);
            assert(calls@ =~= seq![TeardownCall::DestroyEncoder]);
            self.push_slot_event_calls(&mut calls, false);
            push_event_calls(&mut calls, self.eos_event, false);
            return calls;
        }
        let mut i: usize = 0;
        while i < self.pending.len()
            invariant
                i <= self.pending@.len(),
                calls@ == unmap_calls(self.pending@.take(i as int)),
            decreases self.pending@.len() - i,
        {
            if self.pending[i].mapped_input != 0 {
                calls.push(TeardownCall::Unmap(self.pending[i].mapped_input));
            }
            i += 1;
            assert(self.pending@.take(i as int).drop_last() =~= self.pending@.take(i - 1));
        }
        assert(self.pending@.take(i as int) =~= self.pending@);
        let ghost unmaps = calls@;
        if self.is_async {
            self.push_slot_event_calls(&mut calls, true);
            push_event_calls(&mut calls, self.eos_event, true);
        }
        let ghost events = if self.is_async {
            slot_event_calls(self@.slots, true) + event_calls(self@.eos_event, true)
        } else {
            Seq::empty()
        };
        assert(calls@ =~= unmaps + events);
        let mut k: usize = 0;
        while k < self.slots.len()
            invariant
                k <= self.slots.len(),
                calls@ == unmaps + events + bitstream_calls(self.slots@.take(k as int)),
            decreases self.slots.len() - k,
        {
            if self.slots[k].bitstream != 0 {
                calls.push(TeardownCall::DestroyBitstream(self.slots[k].bitstream));
            }
            k += 1;
            assert(self.slots@.take(k as int).drop_last() =~= self.slots@.take(k - 1));
            assert(calls@ =~= unmaps + events + bitstream_calls(self.slots@.take(k as int)));
        }
        assert(self.slots@.take(k as int) =~= self.slots@);
        calls.push(TeardownCall::DestroyEncoder);
        assert(calls@ =~= self@.teardown());
        calls
    }
}

/// A session is destroyed exactly once, and one that has failed is asked for nothing else:
/// no input is unmapped, no bitstream destroyed and no event unregistered on it.
pub proof fn law_failed_session_is_only_destroyed(s: SessionState)
    requires
        s.poisoned,
    ensures
        s.teardown()[0] == TeardownCall::DestroyEncoder,
        forall|i: int|
            1 <= i < s.teardown().len() ==> #[trigger] s.teardown()[i] is CloseEvent,
{
    lemma_event_calls_close(s.slots);
}

proof fn lemma_event_calls_close(slots: Seq<EncodeSlot>)
    ensures
        forall|i: int|
            0 <= i < slot_event_calls(slots, false).len() ==> #[trigger] slot_event_calls(
                slots,
                false,
            )[i] is CloseEvent,
    decreases slots.len(),
{
    if slots.len() > 0 {
        lemma_event_calls_close(slots.drop_last());
    }
}

/// An error names the call that failed, the status it failed with by name and by number, or
/// what CUDA said.
pub proof fn law_errors_name_the_call(error: EncodeInteropError, cuda: Seq<char>)
    ensures
        ({
            let told = |s: i32|
                " failed: "@ + status_name(s as int) + " ("@ + signed_decimal(s as int) + ")"@;
            match error {
                EncodeInteropError::ApiLoad => error.words(cuda)
                    == "NvEncodeAPICreateInstance failed"@,
                EncodeInteropError::SessionOpen(s) => error.words(cuda)
                    == "nvEncOpenEncodeSessionEx"@ + told(s),
                EncodeInteropError::Initialize(s) => error.words(cuda)
                    == "nvEncInitializeEncoder"@ + told(s),
                EncodeInteropError::Register(s) => error.words(cuda) == "nvEncRegisterResource"@
                    + told(s),
                EncodeInteropError::MapInput(s) => error.words(cuda) == "nvEncMapInputResource"@
                    + told(s),
                EncodeInteropError::Encode(s) => error.words(cuda) == "nvEncEncodePicture"@
                    + told(s),
                EncodeInteropError::Lock(s) => error.words(cuda) == "nvEncLockBitstream"@
                    + told(s),
                EncodeInteropError::Cuda(_) => error.words(cuda) == "CUDA interop failed: "@
                    + cuda,
            }
        }),
{
    match error {
        EncodeInteropError::SessionOpen(s) => {
            lemma_told("nvEncOpenEncodeSessionEx"@, s as int);
        },
        EncodeInteropError::Initialize(s) => {
            lemma_told("nvEncInitializeEncoder"@, s as int);
        },
        EncodeInteropError::Register(s) => {
            lemma_told("nvEncRegisterResource"@, s as int);
        },
        EncodeInteropError::MapInput(s) => {
            lemma_told("nvEncMapInputResource"@, s as int);
        },
        EncodeInteropError::Encode(s) => {
            lemma_told("nvEncEncodePicture"@, s as int);
        },
        EncodeInteropError::Lock(s) => {
            lemma_told("nvEncLockBitstream"@, s as int);
        },
        _ => {},
    }
}

proof fn lemma_told(call: Seq<char>, s: int)
    ensures
        failure_text(call, s) == call + (" failed: "@ + status_name(s) + " ("@ + signed_decimal(s)
            + ")"@),
{
    assert(failure_text(call, s) =~= call + (" failed: "@ + status_name(s) + " ("@
        + signed_decimal(s) + ")"@));
}

/// A packet is decoded at the oldest time that was submitted, or its own where none waits, but
/// never at or before the packet in front of it: then one tick behind that.  The time is used
/// up.
pub proof fn law_the_oldest_time_is_handed_out(
    submitted: Seq<i64>,
    last: Option<i64>,
    fallback: i64,
)
    ensures
        ({
            let dts = next_dts(submitted, last, fallback);
            let wanted = if submitted.len() > 0 { submitted[0] } else { fallback };
            &&& last is None || wanted > last->0 ==> dts == wanted
            &&& last is Some && wanted <= last->0 ==> dts == last->0 + 1
            &&& submitted.len() > 0 ==> rest_of(submitted) == submitted.subrange(
                1,
                submitted.len() as int,
            )
            &&& submitted.len() == 0 ==> rest_of(submitted).len() == 0
        }),
{
    if submitted.len() > 0 {
        assert(rest_of(submitted) =~= submitted.subrange(1, submitted.len() as int));
    }
}

/// A frame is given to the slot that its number falls to, in turn.  A free slot's own buffer is
/// mapped for it; for a slot that is in flight the oldest picture is waited for and taken out
/// first.  After the end of the stream a frame is passed over.
pub proof fn law_a_frame_gets_its_slot(s: SessionState, pts: i64, slot: usize)
    requires
        s.inv(),
        s.task is Idle,
        !s.poisoned,
    ensures
        ({
            let (after, call) = s.after_encode_frame(pts, slot);
            let own = slot as int % s.slots.len() as int;
            let taken = exists|i: int|
                0 <= i < s.pending.len() && (#[trigger] s.pending[i]).slot == own;
            &&& s.eos_sent ==> call is Done && after.task is Idle && after.pending == s.pending
            &&& !s.eos_sent && !taken ==> {
                &&& call == (NvencCall::MapInput { registered: s.slots[own].registered })
                &&& after.task == (Task::Mapping { slot: own as usize, pts })
                &&& after.pending == s.pending
            }
            &&& !s.eos_sent && taken ==> {
                &&& call is Retrieve
                &&& call->output == s.pending[0]
                &&& call->wait <==> s.is_async && s.pending[0].event != 0
                &&& after.pending == s.pending.drop_first()
                &&& after.task == (Task::Reclaiming { slot: own as usize, frame: Some(pts) })
            }
            &&& after.packets.len() == 0
            &&& after.eos_sent == s.eos_sent && after.submitted == s.submitted
        }),
{
    vstd::arithmetic::div_mod::lemma_mod_bound(slot as int, s.slots.len() as int);
    vstd::arithmetic::div_mod::lemma_mod_decreases(slot as nat, s.slots.len());
}

/// A mapped frame is submitted as what it is: the session's extent and pitch, its own time, the
/// buffer that was mapped, and the bitstream and the event of its slot, as a whole NV12 frame
/// and without a flag.
pub proof fn law_a_mapped_frame_is_submitted(
    s: SessionState,
    status: i32,
    mapped: u64,
)
    requires
        s.inv(),
        s.task is Mapping,
    ensures
        ({
            let (after, call) = s.after_reply((NvencReply::Mapped { status, mapped }));
            let (slot, pts) = (s.task->Mapping_slot, s.task->Mapping_pts);
            &&& status != 0 ==> call is Failed && call->error == EncodeInteropError::MapInput(
                status,
            ) && call->unmap == 0
            &&& status == 0 ==> {
                &&& call is Encode
                &&& call->pic.input_width == s.width && call->pic.input_height == s.height
                &&& call->pic.input_pitch == s.pitch
                &&& call->pic.encode_pic_flags == 0
                &&& pts >= 0 ==> call->pic.input_timestamp == pts
                &&& call->pic.input_buffer == mapped
                &&& call->pic.output_bitstream == s.slots[slot as int].bitstream
                &&& s.is_async ==> call->pic.completion_event == s.slots[slot as int].event
                &&& !s.is_async ==> call->pic.completion_event == 0
                &&& call->pic.buffer_fmt == 1
                &&& call->pic.picture_struct == 1
                &&& after.task == (Task::Submitting { slot, pts, mapped })
            }
        }),
{
}

/// A picture that the encoder took, with a bitstream or not yet, is in flight behind all the
/// others, with what has to be read and unmapped for it, and its time waits for a packet.  One
/// that it refused fails the session, and its input is unmapped.
pub proof fn law_an_accepted_picture_is_in_flight(s: SessionState, status: i32)
    requires
        s.inv(),
        s.task is Submitting,
    ensures
        ({
            let (after, call) = s.after_reply((NvencReply::Encoded { status }));
            let (slot, pts, mapped) = (
                s.task->Submitting_slot,
                s.task->Submitting_pts,
                s.task->mapped,
            );
            let taken = status == 0 || status == 17;
            &&& !taken ==> call is Failed && call->error == EncodeInteropError::Encode(status)
                && call->unmap == mapped
            &&& taken ==> {
                &&& after.submitted == s.submitted.push(pts)
                &&& after.pending.len() == s.pending.len() + 1
                &&& after.pending.drop_last() == s.pending
                &&& after.pending.last().slot == slot
                &&& after.pending.last().mapped_input == mapped
                &&& after.pending.last().bitstream == s.slots[slot as int].bitstream
                &&& s.is_async ==> after.pending.last().event == s.slots[slot as int].event
                &&& !s.is_async ==> after.pending.last().event == 0
                &&& call is Probe <==> s.is_async && after.pending[0].event != 0
                &&& call is Probe ==> call->Probe_event == after.pending[0].event
                    && after.task is Probing
                &&& !(call is Probe) ==> call is Done && after.task is Idle
            }
        }),
{
    let (after, call) = s.after_reply((NvencReply::Encoded { status }));
    if status == 0 || status == 17 {
        assert(after.pending.drop_last() =~= s.pending);
    }
}

/// What comes out of the encoder becomes a packet as it is: its bytes, the time it carries,
/// and whether it stands alone.  Behind it, a slot that is wanted is waited for as long as it
/// is in flight and then gets its frame; outputs that were tested ready go on being tested; and
/// after the end of the stream the next oldest is taken until none is left.
pub proof fn law_outputs_become_packets(
    s: SessionState,
    bytes: Vec<u8>,
    timestamp: u64,
    picture_type: u32,
)
    requires
        s.inv(),
        s.retrieving(),
        s.last_dts != Some(i64::MAX),
    ensures
        ({
            let (after, call) = s.after_reply(
                (NvencReply::Locked { bytes, timestamp, picture_type }),
            );
            let packet = after.packets.last();
            &&& after.packets.len() == s.packets.len() + 1
            &&& after.packets.drop_last() == s.packets
            &&& packet.bytes == bytes@
            &&& timestamp <= i64::MAX ==> packet.pts == timestamp
            &&& packet.is_keyframe <==> picture_type == 2 || picture_type == 3
            &&& packet.dts == after.last_dts->0
            &&& s.task matches Task::Reclaiming { slot, frame } ==> {
                let busy = exists|i: int|
                    0 <= i < s.pending.len() && (#[trigger] s.pending[i]).slot == slot;
                &&& busy ==> call is Retrieve && call->output == s.pending[0] && after.task
                    == s.task
                &&& !busy && frame is Some ==> call == (NvencCall::MapInput {
                    registered: s.slots[slot as int].registered,
                }) && after.task == (Task::Mapping { slot, pts: frame->0 })
                &&& !busy && frame is None ==> call is Done && after.task is Idle
            }
            &&& s.task is Draining ==> {
                &&& call is Probe <==> s.is_async && s.pending.len() > 0 && s.pending[0].event
                    != 0
                &&& !(call is Probe) ==> call is Done
            }
            &&& s.task is Flushing ==> {
                &&& call is Retrieve <==> s.pending.len() > 0
                &&& call is Retrieve ==> call->output == s.pending[0] && after.task is Flushing
                &&& !(call is Retrieve) ==> call is Done && after.task is Idle
            }
        }),
{
    let (after, call) = s.after_reply((NvencReply::Locked { bytes, timestamp, picture_type }));
    assert(after.packets.drop_last() =~= s.packets);
}

/// The end of the stream is a picture without input or output that asks for everything held
/// back; it is waited for where there is an event for it, and then what is in flight is taken
/// out, oldest first.
pub proof fn law_a_flush_ends_the_stream(s: SessionState, reply: NvencReply)
    requires
        s.inv(),
    ensures
        s.task is Idle && !s.poisoned && !s.eos_sent ==> {
            let (after, call) = s.after_flush();
            &&& after.eos_sent
            &&& after.task is SubmittingEos
            &&& after.pending == s.pending
            &&& call is Encode
            &&& call->pic.encode_pic_flags == 8
            &&& call->pic.input_buffer == 0 && call->pic.output_bitstream == 0
            &&& s.is_async ==> call->pic.completion_event == s.eos_event
            &&& !s.is_async ==> call->pic.completion_event == 0
        },
        s.task is SubmittingEos && reply is Encoded ==> {
            let status = reply->Encoded_status;
            let (after, call) = s.after_reply(reply);
            let event = s.is_async && s.eos_event != 0;
            &&& status != 0 ==> call is Failed && call->error == EncodeInteropError::Encode(status)
            &&& status == 0 && event ==> call == (NvencCall::WaitEos { event: s.eos_event })
                && after.task is WaitingEos
            &&& status == 0 && !event ==> takes_what_is_left(s, after, call)
        },
        s.task is WaitingEos && reply is EosWaited ==> takes_what_is_left(
            s,
            s.after_reply(reply).0,
            s.after_reply(reply).1,
        ),
{
}

/// The oldest output is taken out if there is one, and the flush is over if there is none.
pub open spec fn takes_what_is_left(
    s: SessionState,
    after: SessionState,
    call: NvencCall,
) -> bool {
    &&& s.pending.len() > 0 ==> {
        &&& call is Retrieve
        &&& call->output == s.pending[0]
        &&& call->wait <==> s.is_async && s.pending[0].event != 0
        &&& after.task is Flushing
        &&& after.pending == s.pending.drop_first()
    }
    &&& s.pending.len() == 0 ==> call is Done && after.task is Idle
}

/// An output that is not ready is left where it is; one that is ready is taken out.  A wait
/// that fails and a bitstream that cannot be locked end the session, each with its error.
pub proof fn law_outputs_are_taken_when_ready(s: SessionState, reply: NvencReply)
    requires
        s.inv(),
        s.answers(reply),
    ensures
        reply matches NvencReply::Probed { ready } ==> {
            let (after, call) = s.after_reply(reply);
            &&& ready ==> call is Retrieve && call->output == s.pending[0] && after.task
                is Draining && after.pending == s.pending.drop_first()
            &&& !ready ==> call is Done && after.task is Idle && after.pending == s.pending
        },
        reply is WaitFailed ==> {
            let call = s.after_reply(reply).1;
            call is Failed && call->error == EncodeInteropError::Encode(20) && call->unmap == 0
        },
        reply matches NvencReply::LockFailed { status } ==> {
            let call = s.after_reply(reply).1;
            call is Failed && call->error == EncodeInteropError::Lock(status) && call->unmap
                == s.taken->0.mapped_input
        },
{
}

proof fn lemma_teardown_parts(a: Seq<TeardownCall>, b: Seq<TeardownCall>)
    ensures
        forall|c: TeardownCall| #[trigger]
            (a + b).contains(c) <==> a.contains(c) || b.contains(c),
{
    let both = a + b;
    assert forall|c: TeardownCall| #[trigger] both.contains(c) <==> a.contains(c) || b.contains(
        c,
    ) by {
        if a.contains(c) {
            let i = choose|i: int| 0 <= i < a.len() && a[i] == c;
            assert(both[i] == c);
        }
        if b.contains(c) {
            let i = choose|i: int| 0 <= i < b.len() && b[i] == c;
            assert(both[a.len() + i] == c);
        }
    }
}

proof fn lemma_slot_events(slots: Seq<EncodeSlot>, unregister: bool, k: int)
    requires
        0 <= k < slots.len(),
        slots[k].event != 0,
    ensures
        slot_event_calls(slots, unregister).contains(TeardownCall::CloseEvent(slots[k].event)),
        unregister ==> slot_event_calls(slots, unregister).contains(
            TeardownCall::UnregisterEvent(slots[k].event),
        ),
    decreases slots.len(),
{
    let last = event_calls(slots.last().event, unregister);
    lemma_teardown_parts(slot_event_calls(slots.drop_last(), unregister), last);
    if k < slots.len() - 1 {
        lemma_slot_events(slots.drop_last(), unregister, k);
    } else if unregister {
        assert(last[0] == TeardownCall::UnregisterEvent(slots[k].event));
        assert(last[1] == TeardownCall::CloseEvent(slots[k].event));
    } else {
        assert(last[0] == TeardownCall::CloseEvent(slots[k].event));
    }
}

proof fn lemma_bitstreams(slots: Seq<EncodeSlot>, k: int)
    requires
        0 <= k < slots.len(),
        slots[k].bitstream != 0,
    ensures
        bitstream_calls(slots).contains(TeardownCall::DestroyBitstream(slots[k].bitstream)),
    decreases slots.len(),
{
    let rest = bitstream_calls(slots.drop_last());
    let all = bitstream_calls(slots);
    if k < slots.len() - 1 {
        lemma_bitstreams(slots.drop_last(), k);
        let i = choose|i: int|
            0 <= i < rest.len() && rest[i] == TeardownCall::DestroyBitstream(slots[k].bitstream);
        assert(all[i] == rest[i]);
    } else {
        assert(all[rest.len() as int] == TeardownCall::DestroyBitstream(slots[k].bitstream));
    }
}

proof fn lemma_unmaps(pending: Seq<PendingOutput>, k: int)
    requires
        0 <= k < pending.len(),
        pending[k].mapped_input != 0,
    ensures
        unmap_calls(pending).contains(TeardownCall::Unmap(pending[k].mapped_input)),
    decreases pending.len(),
{
    let rest = unmap_calls(pending.drop_last());
    let all = unmap_calls(pending);
    if k < pending.len() - 1 {
        lemma_unmaps(pending.drop_last(), k);
        let i = choose|i: int|
            0 <= i < rest.len() && rest[i] == TeardownCall::Unmap(pending[k].mapped_input);
        assert(all[i] == rest[i]);
    } else {
        assert(all[rest.len() as int] == TeardownCall::Unmap(pending[k].mapped_input));
    }
}

/// A sound session is taken down without leaving anything: every input still mapped is
/// unmapped, every event unregistered and closed, every bitstream destroyed, and last of all
/// the session itself.
pub proof fn law_nothing_is_left_of_a_session(s: SessionState, k: int)
    requires
        !s.poisoned,
    ensures
        s.teardown().len() > 0,
        s.teardown().last() == TeardownCall::DestroyEncoder,
        0 <= k < s.pending.len() && s.pending[k].mapped_input != 0 ==> s.teardown().contains(
            TeardownCall::Unmap(s.pending[k].mapped_input),
        ),
        0 <= k < s.slots.len() && s.slots[k].bitstream != 0 ==> s.teardown().contains(
            TeardownCall::DestroyBitstream(s.slots[k].bitstream),
        ),
        0 <= k < s.slots.len() && s.slots[k].event != 0 && s.is_async ==> s.teardown().contains(
            TeardownCall::UnregisterEvent(s.slots[k].event),
        ) && s.teardown().contains(TeardownCall::CloseEvent(s.slots[k].event)),
        s.eos_event != 0 && s.is_async ==> s.teardown().contains(
            TeardownCall::UnregisterEvent(s.eos_event),
        ) && s.teardown().contains(TeardownCall::CloseEvent(s.eos_event)),
{
    let unmaps = unmap_calls(s.pending);
    let of_slots = slot_event_calls(s.slots, true);
    let of_end = event_calls(s.eos_event, true);
    let events = if s.is_async { of_slots + of_end } else { Seq::empty() };
    let streams = bitstream_calls(s.slots);
    let destroy = seq![TeardownCall::DestroyEncoder];
    lemma_teardown_parts(of_slots, of_end);
    lemma_teardown_parts(unmaps, events);
    lemma_teardown_parts(unmaps + events, streams);
    lemma_teardown_parts(unmaps + events + streams, destroy);
    if 0 <= k < s.pending.len() && s.pending[k].mapped_input != 0 {
        lemma_unmaps(s.pending, k);
    }
    if 0 <= k < s.slots.len() && s.slots[k].bitstream != 0 {
        lemma_bitstreams(s.slots, k);
    }
    if 0 <= k < s.slots.len() && s.slots[k].event != 0 {
        lemma_slot_events(s.slots, true, k);
    }
    if s.eos_event != 0 {
        assert(of_end[0] == TeardownCall::UnregisterEvent(s.eos_event));
        assert(of_end[1] == TeardownCall::CloseEvent(s.eos_event));
    }
}

/// The events of a session that has failed are closed all the same: they are the caller's own.
pub proof fn law_events_are_closed_after_a_failure(s: SessionState, k: int)
    requires
        s.poisoned,
    ensures
        0 <= k < s.slots.len() && s.slots[k].event != 0 ==> s.teardown().contains(
            TeardownCall::CloseEvent(s.slots[k].event),
        ),
        s.eos_event != 0 ==> s.teardown().contains(TeardownCall::CloseEvent(s.eos_event)),
{
    let destroy = seq![TeardownCall::DestroyEncoder];
    let of_slots = slot_event_calls(s.slots, false);
    let of_end = event_calls(s.eos_event, false);
    lemma_teardown_parts(destroy, of_slots);
    lemma_teardown_parts(destroy + of_slots, of_end);
    if 0 <= k < s.slots.len() && s.slots[k].event != 0 {
        lemma_slot_events(s.slots, false, k);
    }
    if s.eos_event != 0 {
        assert(of_end[0] == TeardownCall::CloseEvent(s.eos_event));
    }
}

/// A session that has just been opened takes frames into the slots it was given: nothing is in
/// flight or under way, no time has been given out, and no packet is waiting.
pub proof fn law_an_opened_session_is_idle(
    width: u32,
    height: u32,
    pitch: u32,
    api_version: u32,
    is_async: bool,
    slots: Seq<EncodeSlot>,
    eos_event: u64,
)
    ensures
        ({
            let s = SessionState::just_opened(
                width,
                height,
                pitch,
                api_version,
                is_async,
                slots,
                eos_event,
            );
            &&& s.task is Idle && !s.poisoned && !s.eos_sent
            &&& s.pending.len() == 0 && s.submitted.len() == 0 && s.packets.len() == 0
            &&& s.last_dts is None && s.taken is None
            &&& (s.width, s.height, s.pitch) == (width, height, pitch)
            &&& s.api_version == api_version && s.is_async == is_async
            &&& s.slots == slots && s.eos_event == eos_event
            &&& forall|slot: int| !s.busy(slot)
        }),
{
}

} // verus!
