//! An export from its start to its end: what is opened and in which order, what the threads
//! do, and what is reported when they are through.
use crate::export::job::{ExportJob, JobError};
use crate::export::muxer::MuxError;
use crate::export::partitioner::{
    contiguous, is_segment, law_partition_covers_the_job, partitionable, segment_count,
    ExportSegment, SegmentPartitioner,
};
use crate::export::progress::ExportPhase;
use crate::export::queue::QueueItem;
use crate::export::renderer::RawFrame;
use crate::export::video_encoder::{
    zero_copy, EncodeError, EncoderPlan, SelectCall, VideoEncoderBackend,
};
use crate::interop::capability::InteropCapability;
use crate::io::ffi::avutil::AVRational;
use crate::text::{decimal, decimal_str};
use vstd::prelude::*;
use vstd::string::*;

verus! {

/// Why an export could not be started.
#[derive(Debug)]
pub enum ExportError {
    JobInvalid(JobError),
    EncoderOpen(EncodeError),
    MuxerOpen(MuxError),
    /// What the system said.
    ThreadSpawn(String),
}

/// What starting an export has to do next.
pub enum StartCall {
    /// Open an encoder of libavcodec.
    OpenFfmpeg,
    /// Open a direct NVENC session.
    OpenInterop,
    /// Open an encoder of libavcodec for the parameters of the stream alone.
    OpenParams,
    OpenAudio,
    /// Open the output, its streams ticking with these clocks.
    OpenMuxer { video_tb: AVRational, audio_tb: AVRational },
    /// Build the conversion to NV12 for frames of that extent.
    BuildNv12 { width: u32, height: u32 },
    /// Create the buffers frames of that extent are read back through.
    CreateReadback { width: u32, height: u32 },
    /// Spawn the thread that encodes what is read back.
    SpawnEncoder,
    SpawnAudio,
    /// Spawn the thread that renders these segments and concludes the export.
    SpawnDispatch { segments: Vec<ExportSegment>, total_frames: usize },
    Started,
    Failed { error: ExportError },
}

/// What came of it.
pub enum StartReply {
    /// An encoder, of either kind, or the audio encoder.
    Encoder { result: Result<(), EncodeError> },
    Interop { opened: bool },
    Muxer { result: Result<(), MuxError> },
    Built,
    Readback { result: Result<(), String> },
    Spawned { result: Result<(), String> },
}

#[derive(Debug, Clone, Copy, PartialEq, Eq, Structural)]
pub enum StartStage {
    Ffmpeg,
    Interop,
    Params,
    Audio { gpu: bool },
    Muxer { gpu: bool },
    Nv12,
    Readback,
    EncoderThread,
    AudioThread { gpu: bool },
    DispatchThread { gpu: bool },
    Over,
}

/// An export being started.
pub struct ExportEngine {
    pub job: ExportJob,
    pub capability: InteropCapability,
    /// There is a CUDA context.
    pub cuda: bool,
    /// The direct session is not to be used.
    pub force_cpu: bool,
    pub stage: StartStage,
}

/// The clock of the video stream: a tick is a frame.
pub open spec fn video_clock(job: ExportJob) -> AVRational {
    AVRational { num: job.frame_rate.den as i32, den: job.frame_rate.num as i32 }
}

/// The clock of the audio stream: a tick is a sample.
pub open spec fn audio_clock() -> AVRational {
    AVRational { num: 1, den: 48000 }
}

impl ExportEngine {
    pub fn new(job: ExportJob, capability: InteropCapability, cuda: bool, force_cpu: bool) -> (r:
        Self)
        ensures
            r == (ExportEngine { job, capability, cuda, force_cpu, stage: StartStage::Over }),
    {
        ExportEngine { job, capability, cuda, force_cpu, stage: StartStage::Over }
    }

    pub open spec fn same_export(&self, other: &Self) -> bool {
        &&& self.job == other.job
        &&& self.capability == other.capability
        &&& self.cuda == other.cuda
        &&& self.force_cpu == other.force_cpu
    }

    /// What starting an export leads to.
    pub open spec fn begins(
        &self,
        parent_exists: bool,
        colour_safe: bool,
        after: &Self,
        call: StartCall,
    ) -> bool {
        match self.job.defect(parent_exists) {
            Some(defect) => {
                &&& after.stage is Over
                &&& call matches StartCall::Failed { error: ExportError::JobInvalid(e) }
                &&& e == defect || (e matches JobError::BadOutputPath(path) && defect
                    is BadOutputPath && path@ == self.job.output_path@)
            },
            None => if !self.force_cpu && zero_copy(
                self.job,
                self.capability,
                colour_safe,
                self.cuda,
            ) {
                after.stage is Interop && call is OpenInterop
            } else {
                after.stage is Ffmpeg && call is OpenFfmpeg
            },
        }
    }

    /// Start the export: check the job, then open its encoder.
    ///
    /// `parent_exists` says whether the directory of the output exists, `colour_safe`
    /// whether the direct session can signal the depth and range of the output.
    pub fn start(&mut self, parent_exists: bool, colour_safe: bool) -> (r: StartCall)
        ensures
            final(self).same_export(old(self)),
            old(self).begins(parent_exists, colour_safe, final(self), r),
    {
        match self.job.validate(parent_exists) {
            Err(e) => {
                self.stage = StartStage::Over;
                return StartCall::Failed { error: ExportError::JobInvalid(e) };
            },
            Ok(_) => {},
        }
        let choice: SelectCall = if self.force_cpu {
            SelectCall::OpenFfmpeg
        } else {
            VideoEncoderBackend::select(&self.job, &self.capability, colour_safe, self.cuda)
        };
        match choice {
            SelectCall::OpenFfmpeg => {
                self.stage = StartStage::Ffmpeg;
                StartCall::OpenFfmpeg
            },
            SelectCall::OpenInterop => {
                self.stage = StartStage::Interop;
                StartCall::OpenInterop
            },
        }
    }

    pub open spec fn answers(&self, reply: StartReply) -> bool {
        match reply {
            StartReply::Encoder { .. } => self.stage is Ffmpeg || self.stage is Params
                || self.stage is Audio,
            StartReply::Interop { .. } => self.stage is Interop,
            StartReply::Muxer { .. } => self.stage is Muxer,
            StartReply::Built => self.stage is Nv12,
            StartReply::Readback { .. } => self.stage is Readback,
            StartReply::Spawned { .. } => self.stage is EncoderThread || self.stage is AudioThread
                || self.stage is DispatchThread,
        }
    }

    pub open spec fn fails(&self, after: &Self, call: StartCall, error: ExportError) -> bool {
        &&& after.stage is Over
        &&& call == (StartCall::Failed { error })
    }

    /// The segments are the job's.
    pub open spec fn dispatches(&self, call: StartCall) -> bool {
        &&& call matches StartCall::SpawnDispatch { segments, total_frames }
        &&& segments@.len() == segment_count(
            self.job.frame_total(),
            self.job.render_threads as int,
        )
        &&& forall|i: int|
            0 <= i < segments@.len() ==> is_segment(self.job, i, #[trigger] segments@[i])
        &&& total_frames == self.job.frame_total()
    }

    /// What follows `reply`.
    pub open spec fn follows(&self, reply: StartReply, after: &Self, call: StartCall) -> bool {
        match (self.stage, reply) {
            (StartStage::Ffmpeg, StartReply::Encoder { result }) => match result {
                Ok(_) => after.stage == (StartStage::Audio { gpu: false }) && call is OpenAudio,
                Err(e) => self.fails(after, call, ExportError::EncoderOpen(e)),
            },
            (StartStage::Interop, StartReply::Interop { opened }) => if opened {
                after.stage is Params && call is OpenParams
            } else {
                after.stage is Ffmpeg && call is OpenFfmpeg
            },
            (StartStage::Params, StartReply::Encoder { result }) => match result {
                Ok(_) => after.stage == (StartStage::Audio { gpu: true }) && call is OpenAudio,
                Err(e) => self.fails(after, call, ExportError::EncoderOpen(e)),
            },
            (StartStage::Audio { gpu }, StartReply::Encoder { result }) => match result {
                Ok(_) => {
                    &&& after.stage == (StartStage::Muxer { gpu })
                    &&& call == (StartCall::OpenMuxer {
                        video_tb: video_clock(self.job),
                        audio_tb: audio_clock(),
                    })
                },
                Err(e) => self.fails(after, call, ExportError::EncoderOpen(e)),
            },
            (StartStage::Muxer { gpu }, StartReply::Muxer { result }) => match result {
                Ok(_) => {
                    let (width, height) = (self.job.width, self.job.height);
                    if gpu {
                        &&& after.stage is Nv12
                        &&& call == (StartCall::BuildNv12 { width, height })
                    } else {
                        &&& after.stage is Readback
                        &&& call == (StartCall::CreateReadback { width, height })
                    }
                },
                Err(e) => self.fails(after, call, ExportError::MuxerOpen(e)),
            },
            (StartStage::Nv12, StartReply::Built) => {
                &&& after.stage == (StartStage::AudioThread { gpu: true })
                &&& call is SpawnAudio
            },
            (StartStage::Readback, StartReply::Readback { result }) => match result {
                Ok(_) => after.stage is EncoderThread && call is SpawnEncoder,
                Err(e) => self.fails(
                    after,
                    call,
                    ExportError::EncoderOpen(EncodeError::Interop(e)),
                ),
            },
            (StartStage::EncoderThread, StartReply::Spawned { result }) => match result {
                Ok(_) => {
                    &&& after.stage == (StartStage::AudioThread { gpu: false })
                    &&& call is SpawnAudio
                },
                Err(e) => self.fails(after, call, ExportError::ThreadSpawn(e)),
            },
            (StartStage::AudioThread { gpu }, StartReply::Spawned { result }) => match result {
                Ok(_) => {
                    &&& after.stage == (StartStage::DispatchThread { gpu })
                    &&& self.dispatches(call)
                },
                Err(e) => self.fails(after, call, ExportError::ThreadSpawn(e)),
            },
            (StartStage::DispatchThread { .. }, StartReply::Spawned { result }) => match result {
                Ok(_) => after.stage is Over && call is Started,
                Err(e) => self.fails(after, call, ExportError::ThreadSpawn(e)),
            },
            _ => true,
        }
    }

    fn fail(&mut self, error: ExportError) -> (r: StartCall)
        ensures
            *final(self) == (ExportEngine { stage: StartStage::Over, ..*old(self) }),
            r == (StartCall::Failed { error }),
    {
        self.stage = StartStage::Over;
        StartCall::Failed { error }
    }

    /// Take what came of the last call and say what to do next.
    pub fn resume(&mut self, reply: StartReply) -> (r: StartCall)
        requires
            old(self).answers(reply),
            partitionable(old(self).job),
        ensures
            final(self).same_export(old(self)),
            old(self).follows(reply, final(self), r),
    {
        match (self.stage, reply) {
            (StartStage::Ffmpeg, StartReply::Encoder { result }) => {
                match result {
                    Ok(_) => {
                        self.stage = StartStage::Audio { gpu: false };
                        StartCall::OpenAudio
                    },
                    Err(e) => self.fail(ExportError::EncoderOpen(e)),
                }
            },
            (StartStage::Interop, StartReply::Interop { opened }) => {
                if opened {
                    self.stage = StartStage::Params;
                    StartCall::OpenParams
                } else {
                    self.stage = StartStage::Ffmpeg;
                    StartCall::OpenFfmpeg
                }
            },
            (StartStage::Params, StartReply::Encoder { result }) => {
                match result {
                    Ok(_) => {
                        self.stage = StartStage::Audio { gpu: true };
                        StartCall::OpenAudio
                    },
                    Err(e) => self.fail(ExportError::EncoderOpen(e)),
                }
            },
            (StartStage::Audio { gpu }, StartReply::Encoder { result }) => {
                match result {
                    Ok(_) => {
                        self.stage = StartStage::Muxer { gpu };
                        StartCall::OpenMuxer {
                            video_tb: AVRational {
                                num: self.job.frame_rate.den as i32,
                                den: self.job.frame_rate.num as i32,
                            },
                            audio_tb: AVRational { num: 1, den: 48000 },
                        }
                    },
                    Err(e) => self.fail(ExportError::EncoderOpen(e)),
                }
            },
            (StartStage::Muxer { gpu }, StartReply::Muxer { result }) => {
                let (width, height): (u32, u32) = (self.job.width, self.job.height);
                match result {
                    Ok(_) => {
                        if gpu {
                            self.stage = StartStage::Nv12;
                            StartCall::BuildNv12 { width, height }
                        } else {
                            self.stage = StartStage::Readback;
                            StartCall::CreateReadback { width, height }
                        }
                    },
                    Err(e) => self.fail(ExportError::MuxerOpen(e)),
                }
            },
            (StartStage::Nv12, StartReply::Built) => {
                self.stage = StartStage::AudioThread { gpu: true };
                StartCall::SpawnAudio
            },
            (StartStage::Readback, StartReply::Readback { result }) => {
                match result {
                    Ok(_) => {
                        self.stage = StartStage::EncoderThread;
                        StartCall::SpawnEncoder
                    },
                    Err(e) => self.fail(ExportError::EncoderOpen(EncodeError::Interop(e))),
                }
            },
            (StartStage::EncoderThread, StartReply::Spawned { result }) => {
                match result {
                    Ok(_) => {
                        self.stage = StartStage::AudioThread { gpu: false };
                        StartCall::SpawnAudio
                    },
                    Err(e) => self.fail(ExportError::ThreadSpawn(e)),
                }
            },
            (StartStage::AudioThread { gpu }, StartReply::Spawned { result }) => {
                match result {
                    Ok(_) => {
                        self.stage = StartStage::DispatchThread { gpu };
                        StartCall::SpawnDispatch {
                            segments: SegmentPartitioner::partition(&self.job),
                            total_frames: self.job.total_frames(),
                        }
                    },
                    Err(e) => self.fail(ExportError::ThreadSpawn(e)),
                }
            },
            (StartStage::DispatchThread { .. }, StartReply::Spawned { result }) => {
                match result {
                    Ok(_) => {
                        self.stage = StartStage::Over;
                        StartCall::Started
                    },
                    Err(e) => self.fail(ExportError::ThreadSpawn(e)),
                }
            },
            _ => {
                self.stage = StartStage::Over;
                StartCall::Started
            },
        }
    }
}

/// `prefix` and then `rest`.
fn joined(prefix: &str, rest: &String) -> (r: String)
    ensures
        r@ == prefix@ + rest@,
{
    let mut text = String::from_str(prefix);
    text.append(rest.as_str());
    text
}

/// What a panic said, if it said anything.
pub fn panic_message(payload: Option<String>) -> (r: String)
    ensures
        r@ == match payload {
            Some(text) => text@,
            None => "(unknown panic payload)"@,
        },
{
    match payload {
        Some(text) => text,
        None => String::from_str("(unknown panic payload)"),
    }
}

/// What the rendering thread has to do next.
#[derive(Debug, Clone, Copy, PartialEq, Eq, Structural)]
pub enum DispatchCall {
    /// Look at the cancel flag.
    CheckCancelled,
    RenderSegment { index: usize },
    /// The renderer is through, or was stopped.
    Finished,
    /// The segment could not be rendered.
    Failed { index: usize },
}

/// What came of it.
#[derive(Debug, Clone, Copy, PartialEq, Eq, Structural)]
pub enum DispatchEvent {
    Cancelled { set: bool },
    Rendered { ok: bool },
}

#[derive(Debug, Clone, Copy, PartialEq, Eq, Structural)]
pub enum DispatchPhase {
    /// Before the segment.
    Before,
    Rendering,
    /// After the segment.
    After,
    Over,
}

/// Segments being rendered, one after the other.
#[derive(Debug, Clone, Copy, PartialEq, Eq, Structural)]
pub struct DispatchRun {
    pub count: usize,
    pub index: usize,
    pub phase: DispatchPhase,
}

impl DispatchRun {
    pub open spec fn inv(self) -> bool {
        &&& self.index <= self.count
        &&& !(self.phase is Over) ==> self.index < self.count
    }

    pub open spec fn answers(self, event: DispatchEvent) -> bool {
        match event {
            DispatchEvent::Cancelled { .. } => self.phase is Before || self.phase is After,
            DispatchEvent::Rendered { .. } => self.phase is Rendering,
        }
    }

    /// At segment `index`, or at the end.
    pub open spec fn at(count: usize, index: int) -> (DispatchRun, DispatchCall) {
        if index < count {
            (
                DispatchRun { count, index: index as usize, phase: DispatchPhase::Before },
                DispatchCall::CheckCancelled,
            )
        } else {
            (
                DispatchRun { count, index: count, phase: DispatchPhase::Over },
                DispatchCall::Finished,
            )
        }
    }

    /// The run and its call after `event`.
    pub open spec fn after(self, event: DispatchEvent) -> (DispatchRun, DispatchCall) {
        match event {
            DispatchEvent::Cancelled { set } => if set {
                (
                    DispatchRun { phase: DispatchPhase::Over, ..self },
                    DispatchCall::Finished,
                )
            } else if self.phase is Before {
                (
                    DispatchRun { phase: DispatchPhase::Rendering, ..self },
                    DispatchCall::RenderSegment { index: self.index },
                )
            } else {
                Self::at(self.count, self.index + 1)
            },
            DispatchEvent::Rendered { ok } => if ok {
                (
                    DispatchRun { phase: DispatchPhase::After, ..self },
                    DispatchCall::CheckCancelled,
                )
            } else {
                (
                    DispatchRun { phase: DispatchPhase::Over, ..self },
                    DispatchCall::Failed { index: self.index },
                )
            },
        }
    }

    fn go_to(count: usize, index: usize) -> (r: (DispatchRun, DispatchCall))
        requires
            index <= count,
        ensures
            r == Self::at(count, index as int),
            r.0.inv(),
    {
        if index < count {
            (
                DispatchRun { count, index, phase: DispatchPhase::Before },
                DispatchCall::CheckCancelled,
            )
        } else {
            (
                DispatchRun { count, index: count, phase: DispatchPhase::Over },
                DispatchCall::Finished,
            )
        }
    }

    /// Start rendering `count` segments.
    pub fn start(count: usize) -> (r: (DispatchRun, DispatchCall))
        ensures
            r == Self::at(count, 0),
            r.0.inv(),
    {
        Self::go_to(count, 0)
    }

    /// Take what came of the last call and say what to do next.
    pub fn resume(&mut self, event: DispatchEvent) -> (r: DispatchCall)
        requires
            old(self).inv(),
            old(self).answers(event),
        ensures
            (*final(self), r) == old(self).after(event),
            final(self).inv(),
    {
        match event {
            DispatchEvent::Cancelled { set } => {
                if set {
                    self.phase = DispatchPhase::Over;
                    return DispatchCall::Finished;
                }
                if self.phase == DispatchPhase::Before {
                    self.phase = DispatchPhase::Rendering;
                    return DispatchCall::RenderSegment { index: self.index };
                }
                let (next, call) = Self::go_to(self.count, self.index + 1);
                *self = next;
                call
            },
            DispatchEvent::Rendered { ok } => {
                if ok {
                    self.phase = DispatchPhase::After;
                    DispatchCall::CheckCancelled
                } else {
                    self.phase = DispatchPhase::Over;
                    DispatchCall::Failed { index: self.index }
                }
            },
        }
    }
}

/// What rendering came to.
pub enum RenderOutcome {
    /// All segments, or those before a cancellation.
    Finished { frames_done: usize },
    Failed { index: usize, error: String },
    Panicked { payload: Option<String> },
}

/// What a thread came to.
pub enum WorkerOutcome {
    Finished,
    Failed { error: String },
    Panicked { payload: Option<String> },
}

/// What concluding an export has to do next.
pub enum FinishCall {
    /// Tell the encoder thread that no more frames come.
    FinishQueue,
    /// Take out what the direct session still holds, and mux it.
    FlushNvenc,
    /// Wait for the encoder thread.
    JoinVideo,
    /// Wait for the audio thread.
    JoinAudio,
    /// Write the trailer and close the file.
    Finalise,
    /// Look at the cancel flag.
    CheckCancelled,
    Report { frames_done: usize, phase: ExportPhase },
}

/// What came of it; texts are those of the errors.
pub enum FinishEvent {
    Queued,
    Flushed { error: Option<String>, mux_error: Option<String> },
    Joined { outcome: WorkerOutcome },
    Finalised { error: Option<String> },
    Cancelled { set: bool },
}

#[derive(Debug, Clone, Copy, PartialEq, Eq, Structural)]
pub enum FinishStage {
    Queue,
    Flush,
    Video,
    Audio,
    Finalise,
    Cancelled,
    Over,
}

/// The message of a panic.
pub open spec fn panic_text(payload: Option<String>) -> Seq<char> {
    match payload {
        Some(text) => text@,
        None => "(unknown panic payload)"@,
    }
}

/// What rendering failed with, if it failed.
pub open spec fn render_error(outcome: RenderOutcome) -> Option<Seq<char>> {
    match outcome {
        RenderOutcome::Finished { .. } => None,
        RenderOutcome::Failed { index, error } => Some(
            "render_segment "@ + decimal(index as int) + " failed: "@ + error@,
        ),
        RenderOutcome::Panicked { payload } => Some(
            "dispatch thread panicked: "@ + panic_text(payload),
        ),
    }
}

/// What a thread failed with, if it failed; `panicked` begins the text of a panic.
pub open spec fn worker_error(outcome: WorkerOutcome, panicked: Seq<char>) -> Option<Seq<char>> {
    match outcome {
        WorkerOutcome::Finished => None,
        WorkerOutcome::Failed { error } => Some(error@),
        WorkerOutcome::Panicked { payload } => Some(panicked + panic_text(payload)),
    }
}

/// `text` with something before it, if there is a text.
pub open spec fn prefixed(prefix: Seq<char>, text: Option<String>) -> Option<Seq<char>> {
    match text {
        Some(text) => Some(prefix + text@),
        None => None,
    }
}

/// The earlier of two errors.
pub open spec fn earlier(first: Option<Seq<char>>, second: Option<Seq<char>>) -> Option<Seq<char>> {
    if first is Some { first } else { second }
}

pub open spec fn text_of(text: Option<String>) -> Option<Seq<char>> {
    match text {
        Some(text) => Some(text@),
        None => None,
    }
}

/// The first error of an export, and what is still to be done before it is over.
pub struct Conclusion {
    /// The export is encoded by the direct session.
    pub gpu: bool,
    /// There is an encoder thread.
    pub video_worker: bool,
    pub first_error: Option<String>,
    /// Frames rendered, if rendering did not fail.
    pub frames_done: Option<usize>,
    pub total_frames: usize,
    pub stage: FinishStage,
}

impl Conclusion {
    pub open spec fn answers(&self, event: FinishEvent) -> bool {
        match event {
            FinishEvent::Queued => self.stage is Queue,
            FinishEvent::Flushed { .. } => self.stage is Flush,
            FinishEvent::Joined { .. } => self.stage is Video || self.stage is Audio,
            FinishEvent::Finalised { .. } => self.stage is Finalise,
            FinishEvent::Cancelled { .. } => self.stage is Cancelled,
        }
    }

    pub open spec fn same_export(&self, other: &Self) -> bool {
        &&& self.gpu == other.gpu
        &&& self.video_worker == other.video_worker
        &&& self.frames_done == other.frames_done
        &&& self.total_frames == other.total_frames
    }

    /// The error an event brings.
    pub open spec fn brings(&self, event: FinishEvent) -> Option<Seq<char>> {
        match event {
            FinishEvent::Queued => if !self.gpu && !self.video_worker {
                Some("missing CPU video worker"@)
            } else {
                None
            },
            FinishEvent::Flushed { error, mux_error } => earlier(
                prefixed("NVENC flush failed: "@, error),
                prefixed("NVENC flush mux write failed: "@, mux_error),
            ),
            FinishEvent::Joined { outcome } => if self.stage is Video {
                worker_error(outcome, "video worker panicked: "@)
            } else {
                worker_error(outcome, "audio worker panicked: "@)
            },
            FinishEvent::Finalised { error } => prefixed("muxer finalise failed: "@, error),
            FinishEvent::Cancelled { .. } => None,
        }
    }

    /// What is done after `event`.
    pub open spec fn goes_on(&self, event: FinishEvent, after: &Self, call: FinishCall) -> bool {
        match event {
            FinishEvent::Queued => if self.gpu && self.frames_done is Some {
                after.stage is Flush && call is FlushNvenc
            } else if !self.gpu && self.video_worker {
                after.stage is Video && call is JoinVideo
            } else {
                after.stage is Audio && call is JoinAudio
            },
            FinishEvent::Flushed { .. } => after.stage is Audio && call is JoinAudio,
            FinishEvent::Joined { .. } => if self.stage is Video {
                after.stage is Audio && call is JoinAudio
            } else {
                after.stage is Finalise && call is Finalise
            },
            FinishEvent::Finalised { .. } => after.stage is Cancelled && call is CheckCancelled,
            FinishEvent::Cancelled { set } => {
                &&& after.stage is Over
                &&& match self.first_error {
                    Some(error) => call == (FinishCall::Report {
                        frames_done: 0,
                        phase: ExportPhase::Failed(error),
                    }),
                    None => if set {
                        call == (FinishCall::Report {
                            frames_done: match self.frames_done {
                                Some(n) => n,
                                None => 0,
                            },
                            phase: ExportPhase::Cancelled,
                        })
                    } else {
                        call == (FinishCall::Report {
                            frames_done: self.total_frames,
                            phase: ExportPhase::Done,
                        })
                    },
                }
            },
        }
    }

    /// The conclusion of an export that came to `outcome`, at its beginning.
    pub open spec fn begins(
        &self,
        outcome: RenderOutcome,
        gpu: bool,
        video_worker: bool,
        total_frames: usize,
    ) -> bool {
        &&& self.gpu == gpu
        &&& self.video_worker == video_worker
        &&& self.total_frames == total_frames
        &&& self.stage is Queue
        &&& text_of(self.first_error) == render_error(outcome)
        &&& self.frames_done == match outcome {
            RenderOutcome::Finished { frames_done } => Some(frames_done),
            _ => None,
        }
    }

    /// Start concluding an export that has been rendered, or has not.
    pub fn start(outcome: RenderOutcome, gpu: bool, video_worker: bool, total_frames: usize) -> (r: (
        Self,
        FinishCall,
    ))
        ensures
            r.0.begins(outcome, gpu, video_worker, total_frames),
            r.1 is FinishQueue,
    {
        let (first_error, frames_done): (Option<String>, Option<usize>) = match outcome {
            RenderOutcome::Finished { frames_done } => (None, Some(frames_done)),
            RenderOutcome::Failed { index, error } => {
                let mut text = String::from_str("render_segment ");
                text.append(decimal_str(index as u64).as_str());
                text.append(" failed: ");
                text.append(error.as_str());
                (Some(text), None)
            },
            RenderOutcome::Panicked { payload } => {
                let message = panic_message(payload);
                (Some(joined("dispatch thread panicked: ", &message)), None)
            },
        };
        (
            Conclusion {
                gpu,
                video_worker,
                first_error,
                frames_done,
                total_frames,
                stage: FinishStage::Queue,
            },
            FinishCall::FinishQueue,
        )
    }

    fn note(&mut self, error: Option<String>)
        ensures
            *final(self) == (Conclusion { first_error: final(self).first_error, ..*old(self) }),
            text_of(final(self).first_error) == earlier(
                text_of(old(self).first_error),
                text_of(error),
            ),
    {
        if self.first_error.is_none() {
            self.first_error = error;
        }
    }

    fn note_worker(&mut self, outcome: WorkerOutcome, panicked: &str)
        ensures
            *final(self) == (Conclusion { first_error: final(self).first_error, ..*old(self) }),
            text_of(final(self).first_error) == earlier(
                text_of(old(self).first_error),
                worker_error(outcome, panicked@),
            ),
    {
        match outcome {
            WorkerOutcome::Finished => {},
            WorkerOutcome::Failed { error } => self.note(Some(error)),
            WorkerOutcome::Panicked { payload } => {
                let message = panic_message(payload);
                self.note(Some(joined(panicked, &message)));
            },
        }
    }

    fn note_with(&mut self, prefix: &str, error: Option<String>)
        ensures
            *final(self) == (Conclusion { first_error: final(self).first_error, ..*old(self) }),
            text_of(final(self).first_error) == earlier(
                text_of(old(self).first_error),
                prefixed(prefix@, error),
            ),
    {
        if let Some(text) = error {
            self.note(Some(joined(prefix, &text)));
        }
    }

    /// Take what came of the last call and say what to do next.
    pub fn resume(&mut self, event: FinishEvent) -> (r: FinishCall)
        requires
            old(self).answers(event),
        ensures
            final(self).same_export(old(self)),
            !(event is Cancelled) ==> text_of(final(self).first_error) == earlier(
                text_of(old(self).first_error),
                old(self).brings(event),
            ),
            old(self).goes_on(event, final(self), r),
    {
        match event {
            FinishEvent::Queued => {
                if self.gpu && self.frames_done.is_some() {
                    self.stage = FinishStage::Flush;
                    return FinishCall::FlushNvenc;
                }
                if !self.gpu && self.video_worker {
                    self.stage = FinishStage::Video;
                    return FinishCall::JoinVideo;
                }
                if !self.gpu {
                    self.note(Some(String::from_str("missing CPU video worker")));
                }
                self.stage = FinishStage::Audio;
                FinishCall::JoinAudio
            },
            FinishEvent::Flushed { error, mux_error } => {
                self.note_with("NVENC flush failed: ", error);
                self.note_with("NVENC flush mux write failed: ", mux_error);
                self.stage = FinishStage::Audio;
                FinishCall::JoinAudio
            },
            FinishEvent::Joined { outcome } => {
                if self.stage == FinishStage::Video {
                    self.note_worker(outcome, "video worker panicked: ");
                    self.stage = FinishStage::Audio;
                    FinishCall::JoinAudio
                } else {
                    self.note_worker(outcome, "audio worker panicked: ");
                    self.stage = FinishStage::Finalise;
                    FinishCall::Finalise
                }
            },
            FinishEvent::Finalised { error } => {
                self.note_with("muxer finalise failed: ", error);
                self.stage = FinishStage::Cancelled;
                FinishCall::CheckCancelled
            },
            FinishEvent::Cancelled { set } => {
                self.stage = FinishStage::Over;
                match self.first_error.take() {
                    Some(error) => FinishCall::Report {
                        frames_done: 0,
                        phase: ExportPhase::Failed(error),
                    },
                    None => {
                        if set {
                            let frames_done: usize = match self.frames_done {
                                Some(n) => n,
                                None => 0,
                            };
                            FinishCall::Report { frames_done, phase: ExportPhase::Cancelled }
                        } else {
                            FinishCall::Report {
                                frames_done: self.total_frames,
                                phase: ExportPhase::Done,
                            }
                        }
                    },
                }
            },
        }
    }
}

/// What the encoder thread has to do next.
pub enum EncoderCall {
    /// Take the next item out of the queue.
    Pop,
    /// Encode the frame, muxing what comes out.
    Encode { frame: RawFrame },
    /// Report that many frames encoded.
    Report { frames_encoded: usize },
    /// Take out what the encoder still holds, muxing it.
    Flush,
    Done { result: Result<(), String> },
}

/// What came of it; texts are those of the first error of either kind.
pub enum EncoderEvent {
    /// The item, or nothing when the queue is closed.
    Popped { item: Option<QueueItem> },
    Encoded { error: Option<String>, mux_error: Option<String> },
    Reported,
    Flushed { error: Option<String>, mux_error: Option<String> },
}

#[derive(Debug, Clone, Copy, PartialEq, Eq, Structural)]
pub enum EncoderStage {
    Popping,
    Encoding,
    Reporting,
    Flushing,
    Over,
}

/// The encoder thread.
#[derive(Debug, Clone, Copy, PartialEq, Eq, Structural)]
pub struct EncoderRun {
    pub frames_encoded: usize,
    pub stage: EncoderStage,
}

impl EncoderRun {
    pub fn start() -> (r: (Self, EncoderCall))
        ensures
            r.0 == (EncoderRun { frames_encoded: 0, stage: EncoderStage::Popping }),
            r.1 is Pop,
    {
        (EncoderRun { frames_encoded: 0, stage: EncoderStage::Popping }, EncoderCall::Pop)
    }

    pub open spec fn answers(&self, event: EncoderEvent) -> bool {
        match event {
            EncoderEvent::Popped { .. } => self.stage is Popping,
            EncoderEvent::Encoded { .. } => self.stage is Encoding && self.frames_encoded
                < usize::MAX,
            EncoderEvent::Reported => self.stage is Reporting,
            EncoderEvent::Flushed { .. } => self.stage is Flushing,
        }
    }

    /// `call` ends the thread with that error, or without one.
    pub open spec fn ends(&self, after: Self, call: EncoderCall, error: Option<Seq<char>>) -> bool {
        &&& after == (EncoderRun { stage: EncoderStage::Over, ..*self })
        &&& match error {
            Some(text) => call matches EncoderCall::Done { result: Err(e) } && e@ == text,
            None => call == (EncoderCall::Done { result: Ok(()) }),
        }
    }

    pub open spec fn at(&self, stage: EncoderStage) -> EncoderRun {
        EncoderRun { stage, ..*self }
    }

    /// What follows `event`.
    pub open spec fn follows(&self, event: EncoderEvent, after: Self, call: EncoderCall) -> bool {
        match event {
            EncoderEvent::Popped { item } => match item {
                Some(QueueItem::Frame(frame)) => {
                    &&& after == self.at(EncoderStage::Encoding)
                    &&& call == (EncoderCall::Encode { frame })
                },
                Some(QueueItem::SegmentDone { .. }) => after == *self && call is Pop,
                Some(QueueItem::AllDone) => after == self.at(EncoderStage::Flushing) && call
                    is Flush,
                None => after == self.at(EncoderStage::Flushing) && call is Flush,
            },
            EncoderEvent::Encoded { error, mux_error } => {
                let failed = earlier(
                    prefixed("encode_frame failed: "@, error),
                    prefixed("video mux write failed: "@, mux_error),
                );
                if failed is Some {
                    self.ends(after, call, failed)
                } else {
                    &&& after == (EncoderRun {
                        frames_encoded: (self.frames_encoded + 1) as usize,
                        stage: EncoderStage::Reporting,
                    })
                    &&& call == (EncoderCall::Report {
                        frames_encoded: (self.frames_encoded + 1) as usize,
                    })
                }
            },
            EncoderEvent::Reported => after == self.at(EncoderStage::Popping) && call is Pop,
            EncoderEvent::Flushed { error, mux_error } => self.ends(
                after,
                call,
                earlier(
                    prefixed("video flush failed: "@, error),
                    prefixed("video flush mux write failed: "@, mux_error),
                ),
            ),
        }
    }

    fn end(&mut self, result: Result<(), String>) -> (r: EncoderCall)
        ensures
            *final(self) == old(self).at(EncoderStage::Over),
            r == (EncoderCall::Done { result }),
    {
        self.stage = EncoderStage::Over;
        EncoderCall::Done { result }
    }

    /// Take what came of the last call and say what to do next.
    pub fn resume(&mut self, event: EncoderEvent) -> (r: EncoderCall)
        requires
            old(self).answers(event),
        ensures
            old(self).follows(event, *final(self), r),
    {
        match event {
            EncoderEvent::Popped { item } => {
                match item {
                    Some(QueueItem::Frame(frame)) => {
                        self.stage = EncoderStage::Encoding;
                        EncoderCall::Encode { frame }
                    },
                    Some(QueueItem::SegmentDone { .. }) => EncoderCall::Pop,
                    _ => {
                        self.stage = EncoderStage::Flushing;
                        EncoderCall::Flush
                    },
                }
            },
            EncoderEvent::Encoded { error, mux_error } => {
                if let Some(text) = error {
                    return self.end(Err(joined("encode_frame failed: ", &text)));
                }
                if let Some(text) = mux_error {
                    return self.end(Err(joined("video mux write failed: ", &text)));
                }
                self.frames_encoded += 1;
                self.stage = EncoderStage::Reporting;
                EncoderCall::Report { frames_encoded: self.frames_encoded }
            },
            EncoderEvent::Reported => {
                self.stage = EncoderStage::Popping;
                EncoderCall::Pop
            },
            EncoderEvent::Flushed { error, mux_error } => {
                if let Some(text) = error {
                    return self.end(Err(joined("video flush failed: ", &text)));
                }
                if let Some(text) = mux_error {
                    return self.end(Err(joined("video flush mux write failed: ", &text)));
                }
                self.end(Ok(()))
            },
        }
    }
}

/// The first error wins: what has gone wrong first is what is reported, whatever goes wrong
/// afterwards, and an export with an error is never reported as cancelled or done.
pub proof fn law_the_first_error_is_reported(
    before: Conclusion,
    event: FinishEvent,
    after: Conclusion,
    call: FinishCall,
)
    requires
        before.answers(event),
        before.goes_on(event, &after, call),
        before.first_error is Some,
        !(event is Cancelled) ==> text_of(after.first_error) == earlier(
            text_of(before.first_error),
            before.brings(event),
        ),
    ensures
        !(event is Cancelled) ==> text_of(after.first_error) == text_of(before.first_error),
        event is Cancelled ==> call == (FinishCall::Report {
            frames_done: 0,
            phase: ExportPhase::Failed(before.first_error->0),
        }),
{
}

/// The file is closed after every thread that writes to it is through, and exactly once: the
/// audio thread has been joined, and the trailer leads to the report and nowhere else.
pub proof fn law_the_file_is_closed_last(
    before: Conclusion,
    event: FinishEvent,
    after: Conclusion,
    call: FinishCall,
)
    requires
        before.answers(event),
        before.goes_on(event, &after, call),
    ensures
        call is Finalise ==> before.stage is Audio && event is Joined,
        before.stage is Finalise ==> call is CheckCancelled,
        call is JoinAudio ==> before.stage is Queue || before.stage is Flush || before.stage
            is Video,
        before.stage is Queue && !before.gpu && before.video_worker ==> call is JoinVideo,
{
}

/// Rendering stops at the first segment that fails and never skips one.
pub proof fn law_segments_are_rendered_in_order(run: DispatchRun, event: DispatchEvent)
    requires
        run.inv(),
        run.answers(event),
    ensures
        run.after(event).1 matches DispatchCall::RenderSegment { index } ==> index == run.index,
        run.after(event).0.index == run.index || (run.phase is After && run.after(event).0.index
            == run.index + 1),
        event == (DispatchEvent::Rendered { ok: false }) ==> run.after(event).1 == (
        DispatchCall::Failed { index: run.index }),
{
}

/// The encoder counts the frames it has encoded, and ends without an error only after a
/// flush without one.
pub proof fn law_encoding_ends_with_a_flush(
    before: EncoderRun,
    event: EncoderEvent,
    after: EncoderRun,
    call: EncoderCall,
)
    requires
        before.answers(event),
        before.follows(event, after, call),
        call == (EncoderCall::Done { result: Ok(()) }),
    ensures
        before.stage is Flushing,
        event matches EncoderEvent::Flushed { error, mux_error } && error is None && mux_error
            is None,
{
}

/// The output's clocks are those of what is written to it: a tick of the video stream is one
/// frame at the job's rate, whole or not, and the same tick the encoder counts in; a tick of
/// the audio stream is one sample.
pub proof fn law_the_streams_keep_time(
    before: ExportEngine,
    reply: StartReply,
    after: ExportEngine,
    call: StartCall,
)
    requires
        before.answers(reply),
        before.follows(reply, &after, call),
        call is OpenMuxer,
        0 < before.job.frame_rate.num <= i32::MAX,
        0 < before.job.frame_rate.den <= i32::MAX,
    ensures
        ({
            let (rate, video, audio) = (before.job.frame_rate, call->video_tb, call->audio_tb);
            &&& video.num > 0 && video.den > 0
            &&& video.num * rate.num == video.den * rate.den
            &&& video.num == rate.den
            &&& audio.num == 1 && audio.den == 48_000
            &&& forall|plan: EncoderPlan, hw_name: Option<Seq<char>>| #[trigger]
                plan.is_for(before.job, hw_name) ==> video.num == plan.time_base_num && video.den
                    == plan.time_base_den
        }),
{
    let (n, d) = (before.job.frame_rate.num as int, before.job.frame_rate.den as int);
    assert(d * n == n * d) by (nonlinear_arith);
}

/// An export starts on a direct session exactly when it may and can, and on libavcodec
/// otherwise; a job that is not in order starts nothing.
pub proof fn law_a_sound_job_starts_on_the_gpu_if_it_can(
    before: ExportEngine,
    parent_exists: bool,
    colour_safe: bool,
    after: ExportEngine,
    call: StartCall,
)
    requires
        before.begins(parent_exists, colour_safe, &after, call),
    ensures
        call is Failed <==> before.job.defect(parent_exists) is Some,
        call is Failed ==> after.stage is Over && call->error is JobInvalid,
        call is OpenInterop <==> {
            &&& before.job.defect(parent_exists) is None
            &&& !before.force_cpu
            &&& !(before.job.output_color.transfer_fn is Pq)
            &&& !(before.job.output_color.transfer_fn is Hlg)
            &&& before.job.video_codec is H264 || before.job.video_codec is H265
            &&& !(before.capability.transport is Unavailable)
            &&& colour_safe
            &&& before.cuda
        },
        call is OpenInterop || call is OpenFfmpeg || call is Failed,
        call is OpenInterop ==> after.stage is Interop,
        call is OpenFfmpeg ==> after.stage is Ffmpeg,
{
}

/// The error an export could not be started for is the one that came back, under the name of
/// what it came from; nothing that went well ends the start.
pub proof fn law_starting_fails_with_what_failed(
    before: ExportEngine,
    reply: StartReply,
    after: ExportEngine,
    call: StartCall,
)
    requires
        before.answers(reply),
        before.follows(reply, &after, call),
    ensures
        match reply {
            StartReply::Encoder { result } => match result {
                Ok(_) => !(call is Failed),
                Err(e) => call == (StartCall::Failed { error: ExportError::EncoderOpen(e) }),
            },
            StartReply::Interop { opened } => if opened {
                call is OpenParams
            } else {
                call is OpenFfmpeg && after.stage is Ffmpeg
            },
            StartReply::Muxer { result } => match result {
                Ok(_) => !(call is Failed),
                Err(e) => call == (StartCall::Failed { error: ExportError::MuxerOpen(e) }),
            },
            StartReply::Built => !(call is Failed),
            StartReply::Readback { result } => match result {
                Ok(_) => !(call is Failed),
                Err(e) => call == (StartCall::Failed {
                    error: ExportError::EncoderOpen(EncodeError::Interop(e)),
                }),
            },
            StartReply::Spawned { result } => match result {
                Ok(_) => !(call is Failed),
                Err(e) => call == (StartCall::Failed { error: ExportError::ThreadSpawn(e) }),
            },
        },
        call is Failed || call is Started ==> after.stage is Over,
{
}

/// What starting an export does, in its order: an encoder for the pictures, one for the sound,
/// and only then the output; then, for a direct session, the conversion to NV12 alone, and
/// without one the buffers to read back through and the thread that encodes what is read; then
/// the sound, and last the rendering, with which the export has started.  The extent is the
/// job's throughout.
pub proof fn law_an_export_is_started_in_order(
    before: ExportEngine,
    reply: StartReply,
    after: ExportEngine,
    call: StartCall,
)
    requires
        before.answers(reply),
        before.follows(reply, &after, call),
        !(call is Failed),
    ensures
        match before.stage {
            StartStage::Ffmpeg => call is OpenAudio && after.stage == (StartStage::Audio {
                gpu: false,
            }),
            StartStage::Interop => call is OpenParams && after.stage is Params || call
                is OpenFfmpeg && after.stage is Ffmpeg,
            StartStage::Params => call is OpenAudio && after.stage == (StartStage::Audio {
                gpu: true,
            }),
            StartStage::Audio { gpu } => call is OpenMuxer && after.stage == (StartStage::Muxer {
                gpu,
            }),
            StartStage::Muxer { gpu } => if gpu {
                &&& call is BuildNv12
                &&& call->BuildNv12_width == before.job.width
                &&& call->BuildNv12_height == before.job.height
                &&& after.stage is Nv12
            } else {
                &&& call is CreateReadback
                &&& call->CreateReadback_width == before.job.width
                &&& call->CreateReadback_height == before.job.height
                &&& after.stage is Readback
            },
            StartStage::Nv12 => call is SpawnAudio && after.stage == (StartStage::AudioThread {
                gpu: true,
            }),
            StartStage::Readback => call is SpawnEncoder && after.stage is EncoderThread,
            StartStage::EncoderThread => call is SpawnAudio && after.stage == (
            StartStage::AudioThread { gpu: false }),
            StartStage::AudioThread { gpu } => call is SpawnDispatch && after.stage == (
            StartStage::DispatchThread { gpu }),
            StartStage::DispatchThread { .. } => call is Started && after.stage is Over,
            StartStage::Over => true,
        },
{
}

/// The segments handed to the rendering thread are all of the export and nothing twice: the
/// first begins at its first frame, each begins where the one before it ends, and the last
/// ends with the export, whose frames are what is announced.
pub proof fn law_the_whole_export_is_dispatched(
    before: ExportEngine,
    reply: StartReply,
    after: ExportEngine,
    call: StartCall,
)
    requires
        before.answers(reply),
        before.follows(reply, &after, call),
        partitionable(before.job),
        call is SpawnDispatch,
    ensures
        ({
            let segments = call->segments@;
            let total = before.job.frame_total();
            &&& call->total_frames == total
            &&& total > 0 ==> segments.len() > 0
            &&& segments.len() > 0 ==> segments[0].frame_start == 0
            &&& segments.len() > 0 ==> segments.last().frame_end == total
            &&& forall|i: int|
                0 < i < segments.len() ==> (#[trigger] segments[i]).frame_start == segments[i
                    - 1].frame_end
            &&& forall|i: int|
                0 <= i < segments.len() ==> (#[trigger] segments[i]).frame_start
                    <= segments[i].frame_end && segments[i].index == i
        }),
{
    let segments = call->segments@;
    law_partition_covers_the_job(before.job, segments);
    assert forall|i: int| 0 < i < segments.len() implies (#[trigger] segments[i]).frame_start
        == segments[i - 1].frame_end by {
        assert(contiguous(segments[i - 1], segments[i]));
    }
}

/// Rendering goes through the segments from the first to the last: when nobody cancels and
/// none fails, a segment is rendered once, between two looks at the cancel flag, the next one
/// follows it, and behind the last one the renderer is through.
pub proof fn law_every_segment_is_rendered_once(run: DispatchRun)
    requires
        run.inv(),
        run.phase is Before,
    ensures
        ({
            let (rendering, first) = run.after(DispatchEvent::Cancelled { set: false });
            let (after, second) = rendering.after(DispatchEvent::Rendered { ok: true });
            let (next, third) = after.after(DispatchEvent::Cancelled { set: false });
            &&& first == (DispatchCall::RenderSegment { index: run.index })
            &&& rendering.phase is Rendering
            &&& second is CheckCancelled
            &&& after.phase is After
            &&& run.index + 1 < run.count ==> {
                &&& third is CheckCancelled
                &&& next == (DispatchRun { index: (run.index + 1) as usize, ..run })
            }
            &&& run.index + 1 == run.count ==> third is Finished && next.phase is Over
        }),
        DispatchRun::at(run.count, 0).0 == (DispatchRun {
            count: run.count,
            index: 0,
            phase: DispatchPhase::Before,
        }),
        DispatchRun::at(run.count, 0).1 is CheckCancelled,
        DispatchRun::at(0, 0).1 is Finished,
{
}

/// A set cancel flag ends rendering without an error, before and behind a segment.
pub proof fn law_cancelling_ends_rendering(run: DispatchRun)
    requires
        run.inv(),
        run.phase is Before || run.phase is After,
    ensures
        run.after(DispatchEvent::Cancelled { set: true }).1 is Finished,
        run.after(DispatchEvent::Cancelled { set: true }).0.phase is Over,
        run.phase is Before ==> run.after(DispatchEvent::Cancelled { set: false }).1
            is RenderSegment,
{
}

/// A conclusion begins with what rendering came to: an error says which segment it was and
/// why, or what the thread panicked with; without one the frames rendered are known.
pub proof fn law_a_conclusion_begins_with_the_rendering(
    begun: Conclusion,
    outcome: RenderOutcome,
    gpu: bool,
    video_worker: bool,
    total_frames: usize,
)
    requires
        begun.begins(outcome, gpu, video_worker, total_frames),
    ensures
        begun.gpu == gpu && begun.video_worker == video_worker,
        begun.total_frames == total_frames,
        begun.stage is Queue,
        match outcome {
            RenderOutcome::Finished { frames_done } => begun.first_error is None
                && begun.frames_done == Some(frames_done),
            RenderOutcome::Failed { index, error } => {
                &&& begun.frames_done is None
                &&& begun.first_error is Some
                &&& begun.first_error->0@ == "render_segment "@ + decimal(index as int)
                    + " failed: "@ + error@
            },
            RenderOutcome::Panicked { payload } => {
                &&& begun.frames_done is None
                &&& begun.first_error is Some
                &&& payload matches Some(text) ==> begun.first_error->0@
                    == "dispatch thread panicked: "@ + text@
                &&& payload is None ==> begun.first_error->0@ == "dispatch thread panicked: "@
                    + "(unknown panic payload)"@
            },
        },
{
}

/// Every error on the way to the end of an export is kept in its own words when it is the
/// first, and an event without an error adds none.
pub proof fn law_every_failure_is_noted(
    before: Conclusion,
    event: FinishEvent,
    after: Conclusion,
)
    requires
        before.answers(event),
        before.first_error is None,
        !(event is Cancelled),
        text_of(after.first_error) == earlier(
            text_of(before.first_error),
            before.brings(event),
        ),
    ensures
        match event {
            FinishEvent::Queued => if before.gpu || before.video_worker {
                after.first_error is None
            } else {
                after.first_error is Some && after.first_error->0@ == "missing CPU video worker"@
            },
            FinishEvent::Flushed { error, mux_error } => {
                &&& after.first_error is None <==> error is None && mux_error is None
                &&& error matches Some(text) ==> after.first_error->0@ == "NVENC flush failed: "@
                    + text@
                &&& error is None && mux_error is Some ==> after.first_error->0@
                    == "NVENC flush mux write failed: "@ + mux_error->0@
            },
            FinishEvent::Joined { outcome } => match outcome {
                WorkerOutcome::Finished => after.first_error is None,
                WorkerOutcome::Failed { error } => after.first_error is Some
                    && after.first_error->0@ == error@,
                WorkerOutcome::Panicked { payload } => {
                    let who = if before.stage is Video { "video"@ } else { "audio"@ };
                    let said = match payload {
                        Some(text) => text@,
                        None => "(unknown panic payload)"@,
                    };
                    &&& after.first_error is Some
                    &&& after.first_error->0@ == who + " worker panicked: "@ + said
                },
            },
            FinishEvent::Finalised { error } => match error {
                Some(text) => after.first_error is Some && after.first_error->0@
                    == "muxer finalise failed: "@ + text@,
                None => after.first_error is None,
            },
            FinishEvent::Cancelled { .. } => true,
        },
{
    reveal_strlit("video");
    reveal_strlit("audio");
    reveal_strlit(" worker panicked: ");
    reveal_strlit("video worker panicked: ");
    reveal_strlit("audio worker panicked: ");
    assert("video"@ + " worker panicked: "@ =~= "video worker panicked: "@);
    assert("audio"@ + " worker panicked: "@ =~= "audio worker panicked: "@);
}

/// How an export ends.  What a direct session still holds is taken out unless rendering
/// failed; an encoder thread is waited for where there is one; the sound is waited for always;
/// and the report says failed for an error, cancelled for a cancellation without one, with the
/// frames that were rendered, and done with all frames otherwise.
pub proof fn law_an_export_is_concluded_in_order(
    before: Conclusion,
    event: FinishEvent,
    after: Conclusion,
    call: FinishCall,
)
    requires
        before.answers(event),
        before.goes_on(event, &after, call),
    ensures
        call is FlushNvenc <==> before.stage is Queue && before.gpu && before.frames_done is Some,
        call is JoinVideo <==> before.stage is Queue && !before.gpu && before.video_worker,
        call is FlushNvenc ==> after.stage is Flush,
        call is JoinVideo ==> after.stage is Video,
        before.stage is Queue && !(call is FlushNvenc) && !(call is JoinVideo) ==> call
            is JoinAudio,
        before.stage is Flush || before.stage is Video ==> call is JoinAudio,
        call is JoinAudio ==> after.stage is Audio,
        before.stage is Audio ==> call is Finalise && after.stage is Finalise,
        before.stage is Finalise ==> call is CheckCancelled && after.stage is Cancelled,
        event matches FinishEvent::Cancelled { set } ==> {
            &&& after.stage is Over
            &&& call is Report
            &&& call->phase is Failed <==> before.first_error is Some
            &&& call->phase is Cancelled <==> before.first_error is None && set
            &&& call->phase is Done <==> before.first_error is None && !set
            &&& call->phase is Failed ==> call->phase->Failed_0 == before.first_error->0
                && call->frames_done == 0
            &&& call->phase is Cancelled && before.frames_done is Some ==> call->frames_done
                == before.frames_done->0
            &&& call->phase is Cancelled && before.frames_done is None ==> call->frames_done == 0
            &&& call->phase is Done ==> call->frames_done == before.total_frames
        },
{
}

/// The encoder thread encodes every frame it takes out, counts it and reports the count,
/// passes over the end of a segment, and flushes when all is done or the queue is closed.  An
/// error ends it, in its own words, and nothing else does before the flush.
pub proof fn law_every_frame_is_encoded(
    before: EncoderRun,
    event: EncoderEvent,
    after: EncoderRun,
    call: EncoderCall,
)
    requires
        before.answers(event),
        before.follows(event, after, call),
    ensures
        match event {
            EncoderEvent::Popped { item } => {
                &&& after.frames_encoded == before.frames_encoded
                &&& item matches Some(QueueItem::Frame(frame)) ==> call == (EncoderCall::Encode {
                    frame,
                }) && after.stage is Encoding
                &&& item matches Some(QueueItem::SegmentDone { .. }) ==> call is Pop
                    && after.stage is Popping
                &&& item is None || item->0 is AllDone ==> call is Flush && after.stage
                    is Flushing
            },
            EncoderEvent::Encoded { error, mux_error } => if error is None && mux_error is None {
                &&& after.frames_encoded == before.frames_encoded + 1
                &&& call is Report
                &&& call->frames_encoded == before.frames_encoded + 1
                &&& after.stage is Reporting
            } else {
                &&& after.stage is Over
                &&& after.frames_encoded == before.frames_encoded
                &&& call is Done
                &&& call->result is Err
                &&& error matches Some(text) ==> call->result->Err_0@ == "encode_frame failed: "@
                    + text@
                &&& error is None ==> call->result->Err_0@ == "video mux write failed: "@
                    + mux_error->0@
            },
            EncoderEvent::Reported => call is Pop && after == (EncoderRun {
                stage: EncoderStage::Popping,
                ..before
            }),
            EncoderEvent::Flushed { error, mux_error } => {
                &&& after.stage is Over
                &&& call is Done
                &&& call->result is Ok <==> error is None && mux_error is None
                &&& error matches Some(text) ==> call->result->Err_0@ == "video flush failed: "@
                    + text@
                &&& error is None && mux_error is Some ==> call->result->Err_0@
                    == "video flush mux write failed: "@ + mux_error->0@
            },
        },
{
}

/// Nothing of what an export is of changes while it is started.
pub proof fn law_a_started_export_stays_the_same(before: ExportEngine, after: ExportEngine)
    requires
        after.same_export(&before),
    ensures
        after.job == before.job,
        after.capability == before.capability,
        after.cuda == before.cuda && after.force_cpu == before.force_cpu,
{
}

/// Nothing of what was rendered changes while an export is concluded.
pub proof fn law_a_concluded_export_stays_the_same(before: Conclusion, after: Conclusion)
    requires
        after.same_export(&before),
    ensures
        after.gpu == before.gpu && after.video_worker == before.video_worker,
        after.frames_done == before.frames_done,
        after.total_frames == before.total_frames,
{
}

/// A defective job is turned down for its own defect.
pub proof fn law_a_defective_job_is_turned_down(
    before: ExportEngine,
    parent_exists: bool,
    colour_safe: bool,
    after: ExportEngine,
    call: StartCall,
)
    requires
        before.begins(parent_exists, colour_safe, &after, call),
        before.job.defect(parent_exists) is Some,
    ensures
        call is Failed && call->error is JobInvalid,
        ({
            let (defect, e) = (before.job.defect(parent_exists)->0, call->error->JobInvalid_0);
            &&& defect is NegativeDuration <==> e is NegativeDuration
            &&& defect is ZeroDimension <==> e is ZeroDimension
            &&& defect is ZeroFrameRate <==> e is ZeroFrameRate
            &&& defect is ZeroThreads <==> e is ZeroThreads
            &&& defect is CrfNotSupported <==> e is CrfNotSupported
            &&& e is CrfNotSupported ==> e->CrfNotSupported_0 == before.job.video_codec
            &&& defect is HdrNotSupported <==> e is HdrNotSupported
            &&& e is HdrNotSupported ==> e->HdrNotSupported_0 == before.job.video_codec
            &&& defect is BadOutputPath <==> e is BadOutputPath
            &&& e is BadOutputPath ==> e->BadOutputPath_0@ == before.job.output_path@
        }),
{
}

} // verus!
