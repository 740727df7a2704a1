//! The audio worker: decoding each clip into its window of the program, then encoding the
//! program frame by frame.
use crate::arith::{ceil_div, lemma_ceil_div};
use crate::export::audio::{
    channel_layout, law_samples_are_rounded_apart, law_windows_stay_in_the_program,
    layout_or_default, offset_samples, samples_ceil, samples_floor, total_samples, AudioClip,
    NO_PTS, SAMPLE_RATE,
};
use crate::io::ffi::avutil::{AVERROR_EAGAIN, AVERROR_EOF};
use crate::text::{signed_decimal, signed_str};
use vstd::prelude::*;

verus! {

/// What the caller has to do next.
#[derive(Debug, Clone, Copy, PartialEq, Eq, Structural)]
pub enum AudioCall {
    /// Look at the cancel flag.
    CheckControl,
    /// Close the source before, and open the file of the clip's source.
    OpenSource { clip: usize },
    /// Open a decoder for the file's audio stream.
    OpenDecoder,
    /// Allocate a resampler from the decoder's samples, in that channel layout and at the
    /// decoder's rate times the clip's speed, to the program's.
    AllocateResampler { clip: usize, layout: u64 },
    InitResampler,
    AllocateFrame,
    /// Scale ticks of the timeline by the clip's speed.
    ScaleTimes { clip: usize, from: i64, to: i64 },
    /// Seek the file to that tick of the project's clock, then flush the decoder.
    Seek { pts: i64 },
    /// Rescale ticks of the project's clock to the stream's.
    Rescale { seek: i64, end: i64 },
    /// Read the source's next audio packet and keep it as the current one.
    ReadPacket,
    /// Send the current packet to the decoder.
    SendPacket,
    /// Tell the decoder that no packet follows.
    SendDrain,
    /// Take a frame from the decoder.
    ReceiveFrame,
    /// Resample the frame into at most `out_max` samples.
    Resample { samples: i32, out_max: usize },
    /// Mix the first `count` resampled samples into the program at `position`.
    Mix { clip: usize, position: usize, count: usize },
    /// Ask the resampler how many samples it holds back.
    QueryDelay,
    /// Take at most `out_max` held-back samples from the resampler.
    FlushResampler { out_max: usize },
    /// Apply the limiter to the finished program.
    Limit,
    /// Encode `count` samples of the program from `start`, padded with silence to a frame.
    EncodeChunk { start: usize, count: usize, pts: i64 },
    /// Take what the encoder still holds.
    FlushEncoder,
    /// The worker is done.
    Finished,
    Failed { failure: AudioFailure },
}

/// What went wrong.
#[derive(Debug, Clone, Copy, PartialEq, Eq, Structural)]
pub enum AudioFailure {
    /// The project does not know the file of the source.
    NoPath,
    Open,
    NoStream,
    DecoderOpen,
    ResamplerAlloc,
    ResamplerInit,
    FrameAlloc,
    Seek,
    Demux,
    Submit(i32),
    Decode(i32),
    Resample(i32),
    Drain(i32),
    Encode,
    EncoderFlush,
    /// A packet could not be written.
    Mux,
}

/// The text of a failed FFmpeg call on the source at `path`.
pub open spec fn ffmpeg_text(what: Seq<char>, path: Seq<char>, status: i32) -> Seq<char> {
    what + path + ": FFmpeg error "@ + signed_decimal(status as int)
}

fn ffmpeg_message(what: &str, path: &str, status: i32) -> (r: String)
    ensures
        r@ == ffmpeg_text(what@, path@, status),
{
    let mut text = String::from_str(what);
    text.append(path);
    text.append(": FFmpeg error ");
    text.append(signed_str(status as i64).as_str());
    text
}

/// The text of a step that failed on the source at `path`, saying `detail`.
pub open spec fn source_text(what: Seq<char>, path: Seq<char>, detail: Seq<char>) -> Seq<char> {
    what + path + ": "@ + detail
}

fn source_message(what: &str, path: &str, detail: &str) -> (r: String)
    ensures
        r@ == source_text(what@, path@, detail@),
{
    let mut text = String::from_str(what);
    text.append(path);
    text.append(": ");
    text.append(detail);
    text
}

impl AudioFailure {
    /// The text the failure is reported with.
    pub open spec fn text(self, path: Seq<char>, detail: Seq<char>) -> Seq<char> {
        match self {
            AudioFailure::NoPath => "audio source "@ + detail + " has no path"@,
            AudioFailure::Open => source_text("failed to open audio source "@, path, detail),
            AudioFailure::NoStream => "audio source "@ + path + " has no audio stream"@,
            AudioFailure::DecoderOpen => source_text(
                "failed to open audio decoder for "@,
                path,
                detail,
            ),
            AudioFailure::ResamplerAlloc => "failed to allocate audio resampler for "@ + path,
            AudioFailure::ResamplerInit => "failed to initialize audio resampler for "@ + path,
            AudioFailure::FrameAlloc => "failed to allocate audio decode frame"@,
            AudioFailure::Seek => source_text("audio seek failed for "@, path, detail),
            AudioFailure::Demux => source_text("audio demux failed for "@, path, detail),
            AudioFailure::Submit(s) => ffmpeg_text("audio packet submit failed for "@, path, s),
            AudioFailure::Decode(s) => ffmpeg_text("audio decode failed for "@, path, s),
            AudioFailure::Resample(s) => ffmpeg_text("audio resample failed for "@, path, s),
            AudioFailure::Drain(s) => ffmpeg_text("audio decoder drain failed for "@, path, s),
            AudioFailure::Encode => "audio encode failed: "@ + detail,
            AudioFailure::EncoderFlush => "audio encoder flush failed: "@ + detail,
            AudioFailure::Mux => "audio mux write failed: "@ + detail,
        }
    }

    /// The text the failure is reported with: `path` is the source being decoded, `detail`
    /// what the failed step said of itself, or the source that has no file.
    pub fn message(&self, path: &str, detail: &str) -> (r: String)
        ensures
            r@ == self.text(path@, detail@),
    {
        match *self {
            AudioFailure::NoPath => {
                let mut text = String::from_str("audio source ");
                text.append(detail);
                text.append(" has no path");
                text
            },
            AudioFailure::Open => source_message("failed to open audio source ", path, detail),
            AudioFailure::NoStream => {
                let mut text = String::from_str("audio source ");
                text.append(path);
                text.append(" has no audio stream");
                text
            },
            AudioFailure::DecoderOpen => {
                source_message("failed to open audio decoder for ", path, detail)
            },
            AudioFailure::ResamplerAlloc => {
                let mut text = String::from_str("failed to allocate audio resampler for ");
                text.append(path);
                text
            },
            AudioFailure::ResamplerInit => {
                let mut text = String::from_str("failed to initialize audio resampler for ");
                text.append(path);
                text
            },
            AudioFailure::FrameAlloc => String::from_str("failed to allocate audio decode frame"),
            AudioFailure::Seek => source_message("audio seek failed for ", path, detail),
            AudioFailure::Demux => source_message("audio demux failed for ", path, detail),
            AudioFailure::Submit(s) => ffmpeg_message("audio packet submit failed for ", path, s),
            AudioFailure::Decode(s) => ffmpeg_message("audio decode failed for ", path, s),
            AudioFailure::Resample(s) => ffmpeg_message("audio resample failed for ", path, s),
            AudioFailure::Drain(s) => ffmpeg_message("audio decoder drain failed for ", path, s),
            AudioFailure::Encode => {
                let mut text = String::from_str("audio encode failed: ");
                text.append(detail);
                text
            },
            AudioFailure::EncoderFlush => {
                let mut text = String::from_str("audio encoder flush failed: ");
                text.append(detail);
                text
            },
            AudioFailure::Mux => {
                let mut text = String::from_str("audio mux write failed: ");
                text.append(detail);
                text
            },
        }
    }
}

/// What came of it.
#[derive(Debug, Clone, Copy, PartialEq, Eq, Structural)]
pub enum AudioEvent {
    Control { cancelled: bool },
    NoPath,
    OpenFailed,
    /// The file is open, and has an audio stream or not.
    SourceOpened { has_audio: bool },
    DecoderFailed,
    /// The decoder is open: the channel layout it declares, and its number of channels.
    DecoderOpened { layout: u64, channels: i32 },
    /// The rate the resampler reads at, and whether there is one.
    ResamplerAllocated { in_rate: i32, ok: bool },
    ResamplerReady { ok: bool },
    FrameAllocated { ok: bool },
    TimesScaled { from: i64, to: i64 },
    Sought { ok: bool },
    Rescaled { stream_seek: i64, stream_end: i64 },
    Packet { pts: i64 },
    EndOfSource,
    DemuxFailed,
    Sent { status: i32 },
    /// A status, and for success the samples in the frame.
    Received { status: i32, samples: i32 },
    /// How many samples came out, or a negative status.
    Resampled { converted: i32 },
    Mixed,
    Delay { samples: i64 },
    Limited,
    Encoded { ok: bool },
    /// `mux_failed` tells whether any packet of the whole run could not be written.
    EncoderFlushed { ok: bool, mux_failed: bool },
}

/// What receiving frames is part of.
#[derive(Debug, Clone, Copy, PartialEq, Eq, Structural)]
pub enum Receiving {
    /// Making room for the current packet.
    Resend,
    /// After the current packet.
    NextPacket,
    /// After the end of the source.
    Drained,
}

/// What the worker is waiting for.
#[derive(Debug, Clone, Copy, PartialEq, Eq, Structural)]
pub enum AudioPhase {
    ClipStart,
    Opening,
    OpeningDecoder,
    AllocatingResampler,
    InitResampler,
    AllocatingFrame,
    Scaling,
    Seeking,
    Rescaling,
    Skipping,
    FeedControl,
    Reading,
    Sending,
    Receive { part: Receiving },
    Resampling { part: Receiving, out_max: usize },
    Mixing { part: Receiving },
    DrainControl,
    SendingDrain,
    QueryingDelay,
    Flushing { out_max: usize },
    MixingFlushed,
    Limiting,
    EncodeControl,
    Encoding,
    FlushingEncoder,
    Over,
}

/// The worker as a value.
#[derive(Debug, Clone, Copy, PartialEq, Eq, Structural)]
pub struct AudioState {
    pub pts_in: i64,
    pub pts_out: i64,
    pub tb_den: i64,
    /// Length of the program in samples.
    pub total: usize,
    /// Samples the encoder takes at a time.
    pub frame_size: usize,
    /// The clip being decoded.
    pub clip: usize,
    /// Where the clip's window starts in the program, and its length.
    pub offset: usize,
    pub count: usize,
    /// Samples of the window that are filled.
    pub samples: usize,
    pub in_rate: i32,
    /// The ends of what is heard of the source, in the project's clock.
    pub seek_pts: i64,
    pub end_pts: i64,
    /// The same in the stream's clock.
    pub stream_seek: i64,
    pub stream_end: i64,
    /// The current packet has been read ahead and not been sent, and its time.
    pub ahead: Option<i64>,
    /// The end of the source or of its heard part was reached.
    pub reached_end: bool,
    /// Next sample to encode.
    pub frame_start: usize,
    pub phase: AudioPhase,
}

pub open spec fn later(a: int, b: int) -> int {
    if a < b { b } else { a }
}

pub open spec fn earlier(a: int, b: int) -> int {
    if b < a { b } else { a }
}

impl AudioState {
    /// Where the clip starts to be heard, in ticks.
    pub open spec fn heard_from(self, c: AudioClip) -> int {
        later(c.t_in as int, self.pts_in as int)
    }

    pub open spec fn heard_to(self, c: AudioClip) -> int {
        earlier(c.t_out as int, self.pts_out as int)
    }

    /// The clip has a part that is heard.
    pub open spec fn heard(self, c: AudioClip) -> bool {
        self.heard_from(c) < self.heard_to(c)
    }

    /// What is heard of each clip ends a number of ticks behind the clip's start that fits.
    pub open spec fn measurable(self, clips: Seq<AudioClip>) -> bool {
        forall|i: int|
            0 <= i < clips.len() && self.heard(#[trigger] clips[i]) ==> self.heard_to(clips[i])
                - clips[i].t_in <= i64::MAX
    }

    pub open spec fn inv(self, clips: Seq<AudioClip>) -> bool {
        &&& self.measurable(clips)
        &&& self.pts_in < self.pts_out
        &&& self.pts_out - self.pts_in <= i64::MAX
        &&& self.tb_den > 0
        &&& self.total == samples_ceil(self.pts_out - self.pts_in, self.tb_den as int)
        &&& self.frame_size > 0
        &&& self.total + self.frame_size <= usize::MAX
        &&& self.total <= i64::MAX
        &&& self.clip <= clips.len()
        &&& self.offset + self.count <= self.total
        &&& self.samples <= self.count
        &&& match self.phase {
            AudioPhase::ClipStart | AudioPhase::Opening | AudioPhase::OpeningDecoder
            | AudioPhase::AllocatingResampler | AudioPhase::InitResampler => self.clip
                < clips.len(),
            AudioPhase::AllocatingFrame => self.clip < clips.len() && self.in_rate > 0,
            AudioPhase::Scaling | AudioPhase::Seeking | AudioPhase::Rescaling => {
                &&& self.clip < clips.len()
                &&& self.in_rate > 0
                &&& self.heard(clips[self.clip as int])
            },
            AudioPhase::Skipping | AudioPhase::FeedControl | AudioPhase::Reading
            | AudioPhase::Sending | AudioPhase::Receive { .. } | AudioPhase::Resampling { .. }
            | AudioPhase::Mixing { .. } => self.clip < clips.len() && self.in_rate > 0,
            AudioPhase::DrainControl | AudioPhase::SendingDrain | AudioPhase::QueryingDelay
            | AudioPhase::Flushing { .. } | AudioPhase::MixingFlushed => self.clip < clips.len()
                && self.in_rate > 0,
            AudioPhase::EncodeControl | AudioPhase::Encoding => self.frame_start < self.total,
            _ => true,
        }
    }

    pub open spec fn answers(self, clips: Seq<AudioClip>, event: AudioEvent) -> bool {
        match event {
            AudioEvent::Control { .. } => self.phase is ClipStart || self.phase is FeedControl
                || self.phase is DrainControl || self.phase is EncodeControl,
            AudioEvent::NoPath | AudioEvent::OpenFailed | AudioEvent::SourceOpened { .. } =>
                self.phase is Opening,
            AudioEvent::DecoderFailed | AudioEvent::DecoderOpened { .. } =>
                self.phase is OpeningDecoder,
            AudioEvent::ResamplerAllocated { .. } => self.phase is AllocatingResampler,
            AudioEvent::ResamplerReady { ok } => self.phase is InitResampler && (ok
                ==> self.in_rate > 0),
            AudioEvent::FrameAllocated { .. } => self.phase is AllocatingFrame,
            AudioEvent::TimesScaled { from, to } => {
                let start = clips[self.clip as int].source_in;
                &&& self.phase is Scaling
                &&& i64::MIN <= start + from <= i64::MAX
                &&& i64::MIN <= start + to <= i64::MAX
            },
            AudioEvent::Sought { .. } => self.phase is Seeking,
            AudioEvent::Rescaled { .. } => self.phase is Rescaling,
            AudioEvent::Packet { .. } | AudioEvent::EndOfSource | AudioEvent::DemuxFailed =>
                self.phase is Skipping || self.phase is Reading,
            AudioEvent::Sent { .. } => self.phase is Sending || self.phase is SendingDrain,
            AudioEvent::Received { samples, .. } => self.phase is Receive && samples >= 0,
            AudioEvent::Resampled { converted } => match self.phase {
                AudioPhase::Resampling { out_max, .. } => converted <= out_max,
                AudioPhase::Flushing { out_max } => converted <= out_max,
                _ => false,
            },
            AudioEvent::Mixed => self.phase is Mixing || self.phase is MixingFlushed,
            AudioEvent::Delay { samples } => self.phase is QueryingDelay && samples <= i64::MAX
                - 16,
            AudioEvent::Limited => self.phase is Limiting,
            AudioEvent::Encoded { .. } => self.phase is Encoding,
            AudioEvent::EncoderFlushed { .. } => self.phase is FlushingEncoder,
        }
    }

    pub open spec fn at(self, phase: AudioPhase) -> AudioState {
        AudioState { phase, ..self }
    }

    pub open spec fn fail(self, failure: AudioFailure) -> (AudioState, AudioCall) {
        (self.at(AudioPhase::Over), AudioCall::Failed { failure })
    }

    pub open spec fn finish(self) -> (AudioState, AudioCall) {
        (self.at(AudioPhase::Over), AudioCall::Finished)
    }

    /// A program of which nothing has been decoded.
    pub open spec fn beginning(
        pts_in: i64,
        pts_out: i64,
        tb_den: i64,
        frame_size: usize,
    ) -> AudioState {
        AudioState {
            pts_in,
            pts_out,
            tb_den,
            total: samples_ceil(pts_out - pts_in, tb_den as int) as usize,
            frame_size,
            clip: 0,
            offset: 0,
            count: 0,
            samples: 0,
            in_rate: 0,
            seek_pts: 0,
            end_pts: 0,
            stream_seek: 0,
            stream_end: 0,
            ahead: None,
            reached_end: false,
            frame_start: 0,
            phase: AudioPhase::Over,
        }
    }

    /// Turn to clip `clip`, or to the finished program when there is none left.
    pub open spec fn turn_to(self, clips: Seq<AudioClip>, clip: usize) -> (AudioState, AudioCall) {
        let s = AudioState { clip, ..self };
        if clip < clips.len() {
            (s.at(AudioPhase::ClipStart), AudioCall::CheckControl)
        } else {
            (s.at(AudioPhase::Limiting), AudioCall::Limit)
        }
    }

    pub open spec fn next_clip(self, clips: Seq<AudioClip>) -> (AudioState, AudioCall) {
        self.turn_to(clips, (self.clip + 1) as usize)
    }

    /// Go on draining the resampler while the window is not full.
    pub open spec fn flush_on(self, clips: Seq<AudioClip>) -> (AudioState, AudioCall) {
        if self.samples < self.count {
            (self.at(AudioPhase::QueryingDelay), AudioCall::QueryDelay)
        } else {
            self.next_clip(clips)
        }
    }

    /// More packets are wanted, or the window is full.
    pub open spec fn feed(self, clips: Seq<AudioClip>) -> (AudioState, AudioCall) {
        if self.samples < self.count {
            (self.at(AudioPhase::FeedControl), AudioCall::CheckControl)
        } else {
            self.after_feed(clips)
        }
    }

    /// No more packets: drain the decoder if the source has ended before the window was
    /// full, then the resampler.
    pub open spec fn after_feed(self, clips: Seq<AudioClip>) -> (AudioState, AudioCall) {
        if self.reached_end && self.samples < self.count {
            (self.at(AudioPhase::DrainControl), AudioCall::CheckControl)
        } else {
            self.flush_on(clips)
        }
    }

    /// Send the packet, unless it lies past what is heard.
    pub open spec fn take_packet(self, clips: Seq<AudioClip>, pts: i64) -> (AudioState, AudioCall) {
        let s = AudioState { ahead: None, ..self };
        if pts != NO_PTS && pts > self.stream_end {
            AudioState { reached_end: true, ..s }.after_feed(clips)
        } else {
            (s.at(AudioPhase::Sending), AudioCall::SendPacket)
        }
    }

    pub open spec fn receive(self, part: Receiving) -> (AudioState, AudioCall) {
        (self.at(AudioPhase::Receive { part }), AudioCall::ReceiveFrame)
    }

    /// Frames have been received until the decoder had no more, or the window was full.
    pub open spec fn received(self, clips: Seq<AudioClip>, part: Receiving, full: bool) -> (
        AudioState,
        AudioCall,
    ) {
        match part {
            Receiving::Resend => if full {
                self.receive(Receiving::NextPacket)
            } else {
                (self.at(AudioPhase::Sending), AudioCall::SendPacket)
            },
            Receiving::NextPacket => if full {
                self.after_feed(clips)
            } else {
                self.feed(clips)
            },
            Receiving::Drained => self.flush_on(clips),
        }
    }

    /// How many of `converted` samples still fit the window.
    pub open spec fn fitting(self, converted: int) -> int {
        earlier(converted, self.count - self.samples)
    }

    pub open spec fn mix(self, clip: usize, converted: int, phase: AudioPhase) -> (
        AudioState,
        AudioCall,
    ) {
        let n = self.fitting(converted);
        (
            AudioState { samples: (self.samples + n) as usize, ..self.at(phase) },
            AudioCall::Mix {
                clip,
                position: (self.offset + self.samples) as usize,
                count: n as usize,
            },
        )
    }

    /// Encode the next frame of the program, or flush when there is none left.
    pub open spec fn encode_on(self) -> (AudioState, AudioCall) {
        if self.frame_start < self.total {
            (self.at(AudioPhase::EncodeControl), AudioCall::CheckControl)
        } else {
            (self.at(AudioPhase::FlushingEncoder), AudioCall::FlushEncoder)
        }
    }

    /// Samples of the program in the frame that starts at `frame_start`.
    pub open spec fn frame_len(self) -> int {
        earlier(self.frame_size as int, self.total - self.frame_start)
    }

    /// The clips are still being decoded, or the program is being limited: nothing of it has
    /// been encoded.
    pub open spec fn unencoded(self) -> bool {
        match self.phase {
            AudioPhase::EncodeControl | AudioPhase::Encoding | AudioPhase::FlushingEncoder
            | AudioPhase::Over => false,
            _ => true,
        }
    }

    /// The clip's window, in samples.
    pub open spec fn window(self, c: AudioClip) -> AudioState {
        AudioState {
            offset: samples_floor(self.heard_from(c) - self.pts_in, self.tb_den as int) as usize,
            count: samples_ceil(
                self.heard_to(c) - self.heard_from(c),
                self.tb_den as int,
            ) as usize,
            samples: 0,
            ahead: None,
            reached_end: false,
            ..self
        }
    }

    /// What follows `event`.
    pub open spec fn after(self, clips: Seq<AudioClip>, event: AudioEvent) -> (
        AudioState,
        AudioCall,
    ) {
        match event {
            AudioEvent::Control { cancelled } => match self.phase {
                AudioPhase::ClipStart => if cancelled {
                    self.finish()
                } else if clips[self.clip as int].muted {
                    self.next_clip(clips)
                } else {
                    (
                        self.at(AudioPhase::Opening),
                        AudioCall::OpenSource { clip: self.clip },
                    )
                },
                AudioPhase::FeedControl => if cancelled {
                    self.after_feed(clips)
                } else {
                    match self.ahead {
                        Some(pts) => self.take_packet(clips, pts),
                        None => (self.at(AudioPhase::Reading), AudioCall::ReadPacket),
                    }
                },
                AudioPhase::DrainControl => if cancelled {
                    self.flush_on(clips)
                } else {
                    (self.at(AudioPhase::SendingDrain), AudioCall::SendDrain)
                },
                _ => if cancelled {
                    self.finish()
                } else {
                    (
                        self.at(AudioPhase::Encoding),
                        AudioCall::EncodeChunk {
                            start: self.frame_start,
                            count: self.frame_len() as usize,
                            pts: self.frame_start as i64,
                        },
                    )
                },
            },
            AudioEvent::NoPath => self.fail(AudioFailure::NoPath),
            AudioEvent::OpenFailed => self.fail(AudioFailure::Open),
            AudioEvent::SourceOpened { has_audio } => if has_audio {
                (self.at(AudioPhase::OpeningDecoder), AudioCall::OpenDecoder)
            } else {
                self.fail(AudioFailure::NoStream)
            },
            AudioEvent::DecoderFailed => self.fail(AudioFailure::DecoderOpen),
            AudioEvent::DecoderOpened { layout, channels } => (
                self.at(AudioPhase::AllocatingResampler),
                AudioCall::AllocateResampler {
                    clip: self.clip,
                    layout: layout_or_default(layout, channels),
                },
            ),
            AudioEvent::ResamplerAllocated { in_rate, ok } => if ok {
                (
                    AudioState { in_rate, ..self.at(AudioPhase::InitResampler) },
                    AudioCall::InitResampler,
                )
            } else {
                self.fail(AudioFailure::ResamplerAlloc)
            },
            AudioEvent::ResamplerReady { ok } => if ok {
                (self.at(AudioPhase::AllocatingFrame), AudioCall::AllocateFrame)
            } else {
                self.fail(AudioFailure::ResamplerInit)
            },
            AudioEvent::FrameAllocated { ok } => {
                let c = clips[self.clip as int];
                if !ok {
                    self.fail(AudioFailure::FrameAlloc)
                } else if !self.heard(c) {
                    self.next_clip(clips)
                } else {
                    (
                        self.at(AudioPhase::Scaling),
                        AudioCall::ScaleTimes {
                            clip: self.clip,
                            from: (self.heard_from(c) - c.t_in) as i64,
                            to: (self.heard_to(c) - c.t_in) as i64,
                        },
                    )
                }
            },
            AudioEvent::TimesScaled { from, to } => {
                let start = clips[self.clip as int].source_in;
                (
                    AudioState {
                        seek_pts: (start + from) as i64,
                        end_pts: (start + to) as i64,
                        ..self.at(AudioPhase::Seeking)
                    },
                    AudioCall::Seek { pts: (start + from) as i64 },
                )
            },
            AudioEvent::Sought { ok } => if ok {
                (
                    self.at(AudioPhase::Rescaling),
                    AudioCall::Rescale { seek: self.seek_pts, end: self.end_pts },
                )
            } else {
                self.fail(AudioFailure::Seek)
            },
            AudioEvent::Rescaled { stream_seek, stream_end } => {
                let c = clips[self.clip as int];
                let s = AudioState { stream_seek, stream_end, ..self.window(c) };
                if self.seek_pts > 0 {
                    (s.at(AudioPhase::Skipping), AudioCall::ReadPacket)
                } else {
                    s.feed(clips)
                }
            },
            AudioEvent::Packet { pts } => if self.phase is Skipping {
                if pts == NO_PTS || pts >= self.stream_seek {
                    AudioState { ahead: Some(pts), ..self }.feed(clips)
                } else {
                    (self, AudioCall::ReadPacket)
                }
            } else {
                self.take_packet(clips, pts)
            },
            AudioEvent::EndOfSource => if self.phase is Skipping {
                self.feed(clips)
            } else {
                AudioState { reached_end: true, ..self }.after_feed(clips)
            },
            AudioEvent::DemuxFailed => self.fail(AudioFailure::Demux),
            AudioEvent::Sent { status } => if self.phase is Sending {
                if status == AVERROR_EAGAIN {
                    self.receive(Receiving::Resend)
                } else if status < 0 {
                    self.fail(AudioFailure::Submit(status))
                } else {
                    self.receive(Receiving::NextPacket)
                }
            } else {
                if status < 0 && status != AVERROR_EOF {
                    self.fail(AudioFailure::Drain(status))
                } else {
                    self.receive(Receiving::Drained)
                }
            },
            AudioEvent::Received { status, samples } => match self.phase {
                AudioPhase::Receive { part } => if status == AVERROR_EAGAIN || status
                    == AVERROR_EOF {
                    self.received(clips, part, false)
                } else if status < 0 {
                    self.fail(AudioFailure::Decode(status))
                } else if samples == 0 {
                    (self, AudioCall::ReceiveFrame)
                } else {
                    let out_max = (samples * SAMPLE_RATE / self.in_rate as int + 32) as usize;
                    (
                        self.at(AudioPhase::Resampling { part, out_max }),
                        AudioCall::Resample { samples, out_max },
                    )
                },
                _ => self.finish(),
            },
            AudioEvent::Resampled { converted } => match self.phase {
                AudioPhase::Resampling { part, .. } => if converted < 0 {
                    self.fail(AudioFailure::Resample(converted))
                } else if converted == 0 {
                    self.receive(part)
                } else {
                    self.mix(self.clip, converted as int, AudioPhase::Mixing { part })
                },
                _ => if converted <= 0 {
                    self.next_clip(clips)
                } else {
                    self.mix(self.clip, converted as int, AudioPhase::MixingFlushed)
                },
            },
            AudioEvent::Mixed => match self.phase {
                AudioPhase::Mixing { part } => if self.samples >= self.count {
                    self.received(clips, part, true)
                } else {
                    self.receive(part)
                },
                _ => self.flush_on(clips),
            },
            AudioEvent::Delay { samples } => if samples <= 0 {
                self.next_clip(clips)
            } else {
                let out_max = (samples + 16) as usize;
                (
                    self.at(AudioPhase::Flushing { out_max }),
                    AudioCall::FlushResampler { out_max },
                )
            },
            AudioEvent::Limited => AudioState { frame_start: 0, ..self }.encode_on(),
            AudioEvent::Encoded { ok } => if ok {
                AudioState {
                    frame_start: (self.frame_start + self.frame_size) as usize,
                    ..self
                }.encode_on()
            } else {
                self.fail(AudioFailure::Encode)
            },
            AudioEvent::EncoderFlushed { ok, mux_failed } => if !ok {
                self.fail(AudioFailure::EncoderFlush)
            } else if mux_failed {
                self.fail(AudioFailure::Mux)
            } else {
                self.finish()
            },
        }
    }
}

/// The audio worker of an export.
pub struct AudioRun {
    clips: Vec<AudioClip>,
    state: AudioState,
}

impl View for AudioRun {
    type V = AudioState;

    closed spec fn view(&self) -> AudioState {
        self.state
    }
}

impl AudioRun {
    /// The clips of the program, in the order they are mixed.
    pub closed spec fn clips(&self) -> Seq<AudioClip> {
        self.clips@
    }

    pub open spec fn inv(&self) -> bool {
        self@.inv(self.clips()) && self.clips().len() < usize::MAX
    }

    /// Start the worker on the chosen clips.
    pub fn start(clips: Vec<AudioClip>, pts_in: i64, pts_out: i64, tb_den: i64, frame_size: usize) -> (r:
        (AudioRun, AudioCall))
        requires
            clips@.len() < usize::MAX,
            pts_in < pts_out,
            pts_out - pts_in <= i64::MAX,
            tb_den > 0,
            frame_size > 0,
            samples_ceil(pts_out - pts_in, tb_den as int) + frame_size <= usize::MAX,
            samples_ceil(pts_out - pts_in, tb_den as int) <= i64::MAX,
            forall|i: int|
                0 <= i < clips@.len() ==> earlier(
                    (#[trigger] clips@[i]).t_out as int,
                    pts_out as int,
                ) - clips@[i].t_in <= i64::MAX,
        ensures
            r.0.inv(),
            r.0.clips() == clips@,
            r.0@.unencoded(),
            (r.0@, r.1) == AudioState::beginning(pts_in, pts_out, tb_den, frame_size).turn_to(
                clips@,
                0,
            ),
    {
        proof {
            law_windows_stay_in_the_program(0, 0, pts_out - pts_in, tb_den as int);
        }
        let total: usize = total_samples(pts_out - pts_in, tb_den);
        let mut run = AudioRun {
            clips,
            state: AudioState {
                pts_in,
                pts_out,
                tb_den,
                total,
                frame_size,
                clip: 0,
                offset: 0,
                count: 0,
                samples: 0,
                in_rate: 0,
                seek_pts: 0,
                end_pts: 0,
                stream_seek: 0,
                stream_end: 0,
                ahead: None,
                reached_end: false,
                frame_start: 0,
                phase: AudioPhase::Over,
            },
        };
        let call: AudioCall = run.turn_to(0);
        (run, call)
    }

    /// The worker's state.
    pub fn state(&self) -> (r: AudioState)
        ensures
            r == self@,
    {
        self.state
    }

    fn turn_to(&mut self, clip: usize) -> (r: AudioCall)
        ensures
            (final(self)@, r) == old(self)@.turn_to(old(self).clips(), clip),
            final(self).clips() == old(self).clips(),
    {
        self.state.clip = clip;
        if clip < self.clips.len() {
            self.state.phase = AudioPhase::ClipStart;
            AudioCall::CheckControl
        } else {
            self.state.phase = AudioPhase::Limiting;
            AudioCall::Limit
        }
    }

    fn next_clip(&mut self) -> (r: AudioCall)
        requires
            old(self)@.clip < usize::MAX,
        ensures
            (final(self)@, r) == old(self)@.next_clip(old(self).clips()),
            final(self).clips() == old(self).clips(),
    {
        self.turn_to(self.state.clip + 1)
    }

    fn fail(&mut self, failure: AudioFailure) -> (r: AudioCall)
        ensures
            (final(self)@, r) == old(self)@.fail(failure),
            final(self).clips() == old(self).clips(),
    {
        self.state.phase = AudioPhase::Over;
        AudioCall::Failed { failure }
    }

    fn finish(&mut self) -> (r: AudioCall)
        ensures
            (final(self)@, r) == old(self)@.finish(),
            final(self).clips() == old(self).clips(),
    {
        self.state.phase = AudioPhase::Over;
        AudioCall::Finished
    }

    fn flush_on(&mut self) -> (r: AudioCall)
        requires
            old(self)@.clip < usize::MAX,
        ensures
            (final(self)@, r) == old(self)@.flush_on(old(self).clips()),
            final(self).clips() == old(self).clips(),
    {
        if self.state.samples < self.state.count {
            self.state.phase = AudioPhase::QueryingDelay;
            AudioCall::QueryDelay
        } else {
            self.next_clip()
        }
    }

    fn after_feed(&mut self) -> (r: AudioCall)
        requires
            old(self)@.clip < usize::MAX,
        ensures
            (final(self)@, r) == old(self)@.after_feed(old(self).clips()),
            final(self).clips() == old(self).clips(),
    {
        if self.state.reached_end && self.state.samples < self.state.count {
            self.state.phase = AudioPhase::DrainControl;
            AudioCall::CheckControl
        } else {
            self.flush_on()
        }
    }

    fn feed(&mut self) -> (r: AudioCall)
        requires
            old(self)@.clip < usize::MAX,
        ensures
            (final(self)@, r) == old(self)@.feed(old(self).clips()),
            final(self).clips() == old(self).clips(),
    {
        if self.state.samples < self.state.count {
            self.state.phase = AudioPhase::FeedControl;
            AudioCall::CheckControl
        } else {
            self.after_feed()
        }
    }

    fn take_packet(&mut self, pts: i64) -> (r: AudioCall)
        requires
            old(self)@.clip < usize::MAX,
        ensures
            (final(self)@, r) == old(self)@.take_packet(old(self).clips(), pts),
            final(self).clips() == old(self).clips(),
    {
        self.state.ahead = None;
        if pts != NO_PTS && pts > self.state.stream_end {
            self.state.reached_end = true;
            self.after_feed()
        } else {
            self.state.phase = AudioPhase::Sending;
            AudioCall::SendPacket
        }
    }

    fn receive(&mut self, part: Receiving) -> (r: AudioCall)
        ensures
            (final(self)@, r) == old(self)@.receive(part),
            final(self).clips() == old(self).clips(),
    {
        self.state.phase = AudioPhase::Receive { part };
        AudioCall::ReceiveFrame
    }

    fn received(&mut self, part: Receiving, full: bool) -> (r: AudioCall)
        requires
            old(self)@.clip < usize::MAX,
        ensures
            (final(self)@, r) == old(self)@.received(old(self).clips(), part, full),
            final(self).clips() == old(self).clips(),
    {
        match part {
            Receiving::Resend => {
                if full {
                    self.receive(Receiving::NextPacket)
                } else {
                    self.state.phase = AudioPhase::Sending;
                    AudioCall::SendPacket
                }
            },
            Receiving::NextPacket => {
                if full {
                    self.after_feed()
                } else {
                    self.feed()
                }
            },
            Receiving::Drained => self.flush_on(),
        }
    }

    fn mix(&mut self, converted: i32, phase: AudioPhase) -> (r: AudioCall)
        requires
            old(self).inv(),
            converted >= 0,
        ensures
            (final(self)@, r) == old(self)@.mix(old(self)@.clip, converted as int, phase),
            final(self).clips() == old(self).clips(),
    {
        let room: usize = self.state.count - self.state.samples;
        let n: usize = if room < converted as usize {
            room
        } else {
            converted as usize
        };
        let position: usize = self.state.offset + self.state.samples;
        self.state.samples = self.state.samples + n;
        self.state.phase = phase;
        AudioCall::Mix { clip: self.state.clip, position, count: n }
    }

    fn encode_on(&mut self) -> (r: AudioCall)
        ensures
            (final(self)@, r) == old(self)@.encode_on(),
            final(self).clips() == old(self).clips(),
    {
        if self.state.frame_start < self.state.total {
            self.state.phase = AudioPhase::EncodeControl;
            AudioCall::CheckControl
        } else {
            self.state.phase = AudioPhase::FlushingEncoder;
            AudioCall::FlushEncoder
        }
    }

    /// What is heard of the clip being decoded, in ticks of the timeline.
    fn heard_part(&self) -> (r: (i64, i64))
        requires
            self@.clip < self.clips().len(),
        ensures
            r.0 == self@.heard_from(self.clips()[self@.clip as int]),
            r.1 == self@.heard_to(self.clips()[self@.clip as int]),
    {
        let c = self.clips[self.state.clip];
        let from: i64 = if c.t_in < self.state.pts_in {
            self.state.pts_in
        } else {
            c.t_in
        };
        let to: i64 = if self.state.pts_out < c.t_out {
            self.state.pts_out
        } else {
            c.t_out
        };
        (from, to)
    }

    fn rescaled(&mut self, stream_seek: i64, stream_end: i64) -> (r: AudioCall)
        requires
            old(self).inv(),
            old(self)@.phase is Rescaling,
        ensures
            (final(self)@, r) == old(self)@.after(
                old(self).clips(),
                AudioEvent::Rescaled { stream_seek, stream_end },
            ),
            final(self).clips() == old(self).clips(),
            final(self).inv(),
    {
        let (from, to) = self.heard_part();
        proof {
            law_windows_stay_in_the_program(
                from - self.state.pts_in,
                to - from,
                self.state.pts_out - self.state.pts_in,
                self.state.tb_den as int,
            );
        }
        let offset: usize = offset_samples(from - self.state.pts_in, self.state.tb_den);
        let count: usize = total_samples(to - from, self.state.tb_den);
        self.state.offset = offset;
        self.state.count = count;
        self.state.samples = 0;
        self.state.ahead = None;
        self.state.reached_end = false;
        self.state.stream_seek = stream_seek;
        self.state.stream_end = stream_end;
        if self.state.seek_pts > 0 {
            self.state.phase = AudioPhase::Skipping;
            AudioCall::ReadPacket
        } else {
            self.feed()
        }
    }

    /// What the cancel flag said.
    fn control(&mut self, cancelled: bool) -> (r: AudioCall)
        requires
            old(self).inv(),
            old(self)@.answers(old(self).clips(), AudioEvent::Control { cancelled }),
        ensures
            final(self).inv(),
            final(self).clips() == old(self).clips(),
            (final(self)@, r) == old(self)@.after(
                old(self).clips(),
                AudioEvent::Control { cancelled },
            ),
    {
        match self.state.phase {
            AudioPhase::ClipStart => {
                if cancelled {
                    self.finish()
                } else if self.clips[self.state.clip].muted {
                    self.next_clip()
                } else {
                    self.state.phase = AudioPhase::Opening;
                    AudioCall::OpenSource { clip: self.state.clip }
                }
            },
            AudioPhase::FeedControl => {
                if cancelled {
                    self.after_feed()
                } else {
                    match self.state.ahead {
                        Some(pts) => self.take_packet(pts),
                        None => {
                            self.state.phase = AudioPhase::Reading;
                            AudioCall::ReadPacket
                        },
                    }
                }
            },
            AudioPhase::DrainControl => {
                if cancelled {
                    self.flush_on()
                } else {
                    self.state.phase = AudioPhase::SendingDrain;
                    AudioCall::SendDrain
                }
            },
            _ => {
                if cancelled {
                    self.finish()
                } else {
                    let left: usize = self.state.total - self.state.frame_start;
                    let count: usize = if left < self.state.frame_size {
                        left
                    } else {
                        self.state.frame_size
                    };
                    self.state.phase = AudioPhase::Encoding;
                    AudioCall::EncodeChunk {
                        start: self.state.frame_start,
                        count,
                        pts: self.state.frame_start as i64,
                    }
                }
            },
        }
    }

    /// How the clip's source, decoder and resampler were set up.
    fn prepared(&mut self, event: AudioEvent) -> (r: AudioCall)
        requires
            old(self).inv(),
            old(self)@.answers(old(self).clips(), event),
            event is NoPath
                || event is OpenFailed
                || event is SourceOpened
                || event is DecoderFailed
                || event is DecoderOpened
                || event is ResamplerAllocated
                || event is ResamplerReady
                || event is FrameAllocated
                || event is TimesScaled
                || event is Sought
                || event is Rescaled,
        ensures
            final(self).inv(),
            final(self).clips() == old(self).clips(),
            (final(self)@, r) == old(self)@.after(old(self).clips(), event),
    {
        match event {
            AudioEvent::NoPath => self.fail(AudioFailure::NoPath),
            AudioEvent::OpenFailed => self.fail(AudioFailure::Open),
            AudioEvent::SourceOpened { has_audio } => {
                if has_audio {
                    self.state.phase = AudioPhase::OpeningDecoder;
                    AudioCall::OpenDecoder
                } else {
                    self.fail(AudioFailure::NoStream)
                }
            },
            AudioEvent::DecoderFailed => self.fail(AudioFailure::DecoderOpen),
            AudioEvent::DecoderOpened { layout, channels } => {
                self.state.phase = AudioPhase::AllocatingResampler;
                AudioCall::AllocateResampler {
                    clip: self.state.clip,
                    layout: channel_layout(layout, channels),
                }
            },
            AudioEvent::ResamplerAllocated { in_rate, ok } => {
                if ok {
                    self.state.in_rate = in_rate;
                    self.state.phase = AudioPhase::InitResampler;
                    AudioCall::InitResampler
                } else {
                    self.fail(AudioFailure::ResamplerAlloc)
                }
            },
            AudioEvent::ResamplerReady { ok } => {
                if ok {
                    self.state.phase = AudioPhase::AllocatingFrame;
                    AudioCall::AllocateFrame
                } else {
                    self.fail(AudioFailure::ResamplerInit)
                }
            },
            AudioEvent::FrameAllocated { ok } => {
                if ok {
                    let (from, to) = self.heard_part();
                    if to <= from {
                        self.next_clip()
                    } else {
                        let clip: usize = self.state.clip;
                        let t_in: i64 = self.clips[clip].t_in;
                        self.state.phase = AudioPhase::Scaling;
                        AudioCall::ScaleTimes { clip, from: from - t_in, to: to - t_in }
                    }
                } else {
                    self.fail(AudioFailure::FrameAlloc)
                }
            },
            AudioEvent::TimesScaled { from, to } => {
                let start: i64 = self.clips[self.state.clip].source_in;
                self.state.seek_pts = start + from;
                self.state.end_pts = start + to;
                self.state.phase = AudioPhase::Seeking;
                AudioCall::Seek { pts: self.state.seek_pts }
            },
            AudioEvent::Sought { ok } => {
                if ok {
                    self.state.phase = AudioPhase::Rescaling;
                    AudioCall::Rescale { seek: self.state.seek_pts, end: self.state.end_pts }
                } else {
                    self.fail(AudioFailure::Seek)
                }
            },
            AudioEvent::Rescaled { stream_seek, stream_end } => {
                self.rescaled(stream_seek, stream_end)
            },
            _ => AudioCall::Finished,
        }
    }

    /// What was read, decoded and mixed of the clip.
    fn fed(&mut self, event: AudioEvent) -> (r: AudioCall)
        requires
            old(self).inv(),
            old(self)@.answers(old(self).clips(), event),
            event is Packet
                || event is EndOfSource
                || event is DemuxFailed
                || event is Sent
                || event is Received
                || event is Resampled
                || event is Mixed
                || event is Delay,
        ensures
            final(self).inv(),
            final(self).clips() == old(self).clips(),
            (final(self)@, r) == old(self)@.after(old(self).clips(), event),
    {
        match event {
            AudioEvent::Packet { pts } => {
                if self.state.phase == AudioPhase::Skipping {
                    if pts == NO_PTS || pts >= self.state.stream_seek {
                        self.state.ahead = Some(pts);
                        self.feed()
                    } else {
                        AudioCall::ReadPacket
                    }
                } else {
                    self.take_packet(pts)
                }
            },
            AudioEvent::EndOfSource => {
                if self.state.phase == AudioPhase::Skipping {
                    self.feed()
                } else {
                    self.state.reached_end = true;
                    self.after_feed()
                }
            },
            AudioEvent::DemuxFailed => self.fail(AudioFailure::Demux),
            AudioEvent::Sent { status } => {
                if self.state.phase == AudioPhase::Sending {
                    if status == AVERROR_EAGAIN {
                        self.receive(Receiving::Resend)
                    } else if status < 0 {
                        self.fail(AudioFailure::Submit(status))
                    } else {
                        self.receive(Receiving::NextPacket)
                    }
                } else {
                    if status < 0 && status != AVERROR_EOF {
                        self.fail(AudioFailure::Drain(status))
                    } else {
                        self.receive(Receiving::Drained)
                    }
                }
            },
            AudioEvent::Received { status, samples } => {
                if let AudioPhase::Receive { part } = self.state.phase {
                    if status == AVERROR_EAGAIN || status == AVERROR_EOF {
                        self.received(part, false)
                    } else if status < 0 {
                        self.fail(AudioFailure::Decode(status))
                    } else if samples == 0 {
                        AudioCall::ReceiveFrame
                    } else {
                        let resampled: i64 = samples as i64 * SAMPLE_RATE / self.state.in_rate as i64;
                        proof {
                            assert(0 <= samples * SAMPLE_RATE / self.state.in_rate as int <= samples
                                * SAMPLE_RATE) by (nonlinear_arith)
                                requires
                                    samples >= 0,
                                    self.state.in_rate >= 1,
                                    SAMPLE_RATE == 48_000,
                            ;
                        }
                        let out_max: usize = (resampled + 32) as usize;
                        self.state.phase = AudioPhase::Resampling { part, out_max };
                        AudioCall::Resample { samples, out_max }
                    }
                } else {
                    self.finish()
                }
            },
            AudioEvent::Resampled { converted } => {
                if let AudioPhase::Resampling { part, .. } = self.state.phase {
                    if converted < 0 {
                        self.fail(AudioFailure::Resample(converted))
                    } else if converted == 0 {
                        self.receive(part)
                    } else {
                        self.mix(converted, AudioPhase::Mixing { part })
                    }
                } else {
                    if converted <= 0 {
                        self.next_clip()
                    } else {
                        self.mix(converted, AudioPhase::MixingFlushed)
                    }
                }
            },
            AudioEvent::Mixed => {
                if let AudioPhase::Mixing { part } = self.state.phase {
                    if self.state.samples >= self.state.count {
                        self.received(part, true)
                    } else {
                        self.receive(part)
                    }
                } else {
                    self.flush_on()
                }
            },
            AudioEvent::Delay { samples } => {
                if samples <= 0 {
                    self.next_clip()
                } else {
                    let out_max: usize = (samples + 16) as usize;
                    self.state.phase = AudioPhase::Flushing { out_max };
                    AudioCall::FlushResampler { out_max }
                }
            },
            _ => AudioCall::Finished,
        }
    }

    /// How far the program has been encoded.
    fn encoded(&mut self, event: AudioEvent) -> (r: AudioCall)
        requires
            old(self).inv(),
            old(self)@.answers(old(self).clips(), event),
            event is Limited
                || event is Encoded
                || event is EncoderFlushed,
        ensures
            final(self).inv(),
            final(self).clips() == old(self).clips(),
            (final(self)@, r) == old(self)@.after(old(self).clips(), event),
    {
        match event {
            AudioEvent::Limited => {
                self.state.frame_start = 0;
                self.encode_on()
            },
            AudioEvent::Encoded { ok } => {
                if ok {
                    self.state.frame_start = self.state.frame_start + self.state.frame_size;
                    self.encode_on()
                } else {
                    self.fail(AudioFailure::Encode)
                }
            },
            AudioEvent::EncoderFlushed { ok, mux_failed } => {
                if !ok {
                    self.fail(AudioFailure::EncoderFlush)
                } else if mux_failed {
                    self.fail(AudioFailure::Mux)
                } else {
                    self.finish()
                }
            },
            _ => AudioCall::Finished,
        }
    }

    /// Take what came of the last call and say what to do next.
    pub fn resume(&mut self, event: AudioEvent) -> (r: AudioCall)
        requires
            old(self).inv(),
            old(self)@.answers(old(self).clips(), event),
        ensures
            final(self).inv(),
            final(self).clips() == old(self).clips(),
            (final(self)@, r) == old(self)@.after(old(self).clips(), event),
    {
        match event {
            AudioEvent::Control { cancelled } => self.control(cancelled),
            AudioEvent::Packet { .. } | AudioEvent::EndOfSource | AudioEvent::DemuxFailed
            | AudioEvent::Sent { .. } | AudioEvent::Received { .. }
            | AudioEvent::Resampled { .. } | AudioEvent::Mixed | AudioEvent::Delay { .. } => {
                self.fed(event)
            },
            AudioEvent::Limited | AudioEvent::Encoded { .. }
            | AudioEvent::EncoderFlushed { .. } => self.encoded(event),
            _ => self.prepared(event),
        }
    }
}

/// Samples are only ever mixed inside the clip's own window, one after the other from its
/// start, and never past the end of the program.
pub proof fn law_mixes_stay_in_the_window(s: AudioState, clips: Seq<AudioClip>, event: AudioEvent)
    requires
        s.inv(clips),
        s.answers(clips, event),
        s.after(clips, event).1 is Mix,
    ensures
        ({
            let (next, call) = s.after(clips, event);
            &&& call->position == s.offset + s.samples
            &&& next.samples == s.samples + call->Mix_count
            &&& call->position + call->Mix_count <= s.offset + s.count <= s.total
            &&& call->Mix_clip == s.clip
        }),
{
}

/// Only packets of the heard part reach the decoder: the first one kept after a seek is not
/// before its start, and none past its end is sent.  A packet without a time counts as
/// belonging to it.
pub proof fn law_packets_lie_in_the_heard_part(s: AudioState, clips: Seq<AudioClip>, pts: i64)
    requires
        s.inv(clips),
        s.answers(clips, AudioEvent::Packet { pts }),
    ensures
        ({
            let (next, call) = s.after(clips, AudioEvent::Packet { pts });
            &&& s.phase is Skipping ==> {
                &&& call is ReadPacket <==> pts != NO_PTS && pts < s.stream_seek
                &&& !(call is ReadPacket) ==> next.ahead == Some(pts)
                &&& !(call is SendPacket)
            }
            &&& s.phase is Reading ==> {
                &&& call is SendPacket <==> pts == NO_PTS || pts <= s.stream_end
                &&& !(call is SendPacket) ==> next.reached_end
            }
        }),
        s.phase is Skipping && s.ahead is None && s.samples < s.count ==> {
            let (fed, _) = s.after(clips, AudioEvent::Packet { pts });
            let (sent, call) = fed.after(clips, AudioEvent::Control { cancelled: false });
            pts == NO_PTS || pts >= s.stream_seek ==> {
                &&& call is SendPacket <==> pts == NO_PTS || pts <= s.stream_end
                &&& sent.ahead is None
            }
        },
{
}

/// The encoder is fed the whole program, frame after frame without gap or overlap: each
/// frame is full and followed by the next, except the last, which ends with the program.
pub proof fn law_chunks_tile_the_program(s: AudioState, clips: Seq<AudioClip>)
    requires
        s.inv(clips),
        s.phase is EncodeControl,
    ensures
        ({
            let (encoding, chunk) = s.after(clips, AudioEvent::Control { cancelled: false });
            let (next, call) = encoding.after(clips, AudioEvent::Encoded { ok: true });
            &&& chunk matches AudioCall::EncodeChunk { start, count, pts } && {
                &&& start == s.frame_start
                &&& pts == start
                &&& 0 < count <= s.frame_size
                &&& start + count < s.total ==> {
                    &&& count == s.frame_size
                    &&& next.phase is EncodeControl
                    &&& next.frame_start == start + count
                }
                &&& start + count >= s.total ==> {
                    &&& start + count == s.total
                    &&& call is FlushEncoder
                }
            }
        }),
{
}

/// The worker after a run of events.
pub open spec fn audio_after(s: AudioState, clips: Seq<AudioClip>, events: Seq<AudioEvent>) -> AudioState
    decreases events.len(),
{
    if events.len() == 0 {
        s
    } else {
        audio_after(s, clips, events.drop_last()).after(clips, events.last()).0
    }
}

/// Each event is what came of the call before it.
pub open spec fn audio_answers(s: AudioState, clips: Seq<AudioClip>, events: Seq<AudioEvent>) -> bool
    decreases events.len(),
{
    events.len() > 0 ==> {
        &&& audio_answers(s, clips, events.drop_last())
        &&& audio_after(s, clips, events.drop_last()).answers(clips, events.last())
    }
}

/// The calls of a run, one for each event.
pub open spec fn audio_calls(s: AudioState, clips: Seq<AudioClip>, events: Seq<AudioEvent>) -> Seq<
    AudioCall,
>
    decreases events.len(),
{
    if events.len() == 0 {
        Seq::empty()
    } else {
        let before = events.drop_last();
        audio_calls(s, clips, before).push(
            audio_after(s, clips, before).after(clips, events.last()).1,
        )
    }
}

/// The calls of the encoder among `calls`, in order.
pub open spec fn chunks_of(calls: Seq<AudioCall>) -> Seq<AudioCall>
    decreases calls.len(),
{
    if calls.len() == 0 {
        Seq::empty()
    } else {
        let before = chunks_of(calls.drop_last());
        if calls.last() is EncodeChunk {
            before.push(calls.last())
        } else {
            before
        }
    }
}

/// The encoder's `k`-th call, counted from zero: the samples from `k` frames on, a whole
/// frame of them or what is left of the program.
pub open spec fn chunk(total: usize, frame_size: usize, k: int) -> AudioCall {
    AudioCall::EncodeChunk {
        start: (k * frame_size) as usize,
        count: earlier(frame_size as int, total - k * frame_size) as usize,
        pts: (k * frame_size) as i64,
    }
}

/// The program is encoded once from end to end.  The encoder's `k`-th call is for the frame
/// that starts `k` frame sizes into the program; there are never more calls than frames that
/// cover the program; and there are exactly so many once the encoder is flushed, and hence
/// in every run that ends without an error and is not cancelled.
pub proof fn law_program_is_encoded_once(
    s: AudioState,
    clips: Seq<AudioClip>,
    events: Seq<AudioEvent>,
)
    requires
        s.inv(clips),
        s.unencoded(),
        audio_answers(s, clips, events),
    ensures
        ({
            let calls = audio_calls(s, clips, events);
            let chunks = chunks_of(calls);
            let frames = ceil_div(s.total as int, s.frame_size as int);
            &&& chunks.len() <= frames
            &&& forall|k: int|
                0 <= k < chunks.len() ==> #[trigger] chunks[k] == chunk(s.total, s.frame_size, k)
            &&& forall|i: int|
                0 <= i < calls.len() && #[trigger] calls[i] is FlushEncoder ==> chunks.len()
                    == frames
            &&& calls.len() > 0 && calls.last() is Finished && (forall|i: int|
                0 <= i < events.len() ==> #[trigger] events[i] != (AudioEvent::Control {
                    cancelled: true,
                })) ==> chunks.len() == frames
        }),
{
    lemma_encoding(s, clips, events);
    let calls = audio_calls(s, clips, events);
    let m = chunks_of(calls).len() as int;
    let (total, size) = (s.total as int, s.frame_size as int);
    lemma_ceil_div(total, size);
    lemma_frames_cover(total, size, m);
    if calls.len() > 0 && calls.last() is Finished && (forall|i: int|
        0 <= i < events.len() ==> #[trigger] events[i] != (AudioEvent::Control {
            cancelled: true,
        })) {
        assert(events[events.len() - 1] == events.last());
    }
}

/// `m` frames, the last of them begun within the program, are no more than cover it, and
/// just as many if they reach its end.
proof fn lemma_frames_cover(total: int, size: int, m: int)
    requires
        total >= 0,
        size > 0,
        m >= 0,
        m > 0 ==> (m - 1) * size < total,
    ensures
        m <= ceil_div(total, size),
        m * size >= total ==> m == ceil_div(total, size),
{
    lemma_ceil_div(total, size);
    let n = ceil_div(total, size);
    if m > n {
        assert((m - 1) * size >= n * size) by (nonlinear_arith)
            requires
                m - 1 >= n,
                size > 0,
        ;
    }
    assert(n >= 0) by (nonlinear_arith)
        requires
            total >= 0,
            size > 0,
            total <= n * size,
    ;
}

/// Some call of the run flushes the encoder.
spec fn flushed(calls: Seq<AudioCall>) -> bool {
    exists|i: int| 0 <= i < calls.len() && #[trigger] calls[i] is FlushEncoder
}

/// Until the program has been limited, no event starts the encoding.
proof fn lemma_decoding_step(s: AudioState, clips: Seq<AudioClip>, event: AudioEvent)
    requires
        s.answers(clips, event),
        s.unencoded(),
        !(s.phase is Limiting),
    ensures
        ({
            let (next, call) = s.after(clips, event);
            &&& (next.total, next.frame_size) == (s.total, s.frame_size)
            &&& next.unencoded() || next.phase is Over
            &&& !(call is FlushEncoder) && !(call is EncodeChunk)
            &&& call is Finished ==> event == (AudioEvent::Control { cancelled: true })
        }),
{
}

/// How one event moves the encoding on.
proof fn lemma_encoding_step(s: AudioState, clips: Seq<AudioClip>, event: AudioEvent)
    requires
        s.frame_size > 0,
        s.total + s.frame_size <= usize::MAX,
        s.answers(clips, event),
        s.phase is EncodeControl || s.phase is Encoding ==> s.frame_start < s.total,
    ensures
        ({
            let (next, call) = s.after(clips, event);
            &&& (next.total, next.frame_size) == (s.total, s.frame_size)
            &&& next.unencoded() ==> s.unencoded()
            &&& call is FlushEncoder <==> next.phase is FlushingEncoder
            &&& call is EncodeChunk <==> next.phase is Encoding
            &&& next.phase is Encoding ==> {
                &&& s.phase is EncodeControl
                &&& next.frame_start == s.frame_start
                &&& call == (AudioCall::EncodeChunk {
                    start: s.frame_start,
                    count: s.frame_len() as usize,
                    pts: s.frame_start as i64,
                })
            }
            &&& next.phase is EncodeControl || next.phase is FlushingEncoder ==> {
                &&& next.phase is EncodeControl <==> next.frame_start < s.total
                &&& s.phase is Limiting && next.frame_start == 0 || s.phase is Encoding
                    && next.frame_start == s.frame_start + s.frame_size
            }
            &&& s.phase is FlushingEncoder ==> next.phase is Over
            &&& call is Finished ==> s.phase is FlushingEncoder || event == (AudioEvent::Control {
                cancelled: true,
            })
        }),
{
    if s.unencoded() && !(s.phase is Limiting) {
        lemma_decoding_step(s, clips, event);
    } else {
        assert(event is Limited || event is Encoded || event is EncoderFlushed || event is Control);
    }
}

proof fn lemma_encoding(s: AudioState, clips: Seq<AudioClip>, events: Seq<AudioEvent>)
    requires
        s.frame_size > 0,
        s.total + s.frame_size <= usize::MAX,
        s.total <= i64::MAX,
        s.unencoded(),
        audio_answers(s, clips, events),
    ensures
        ({
            let now = audio_after(s, clips, events);
            let calls = audio_calls(s, clips, events);
            let chunks = chunks_of(calls);
            let m = chunks.len() as int;
            &&& now.total == s.total
            &&& now.frame_size == s.frame_size
            &&& calls.len() == events.len()
            &&& forall|k: int|
                0 <= k < m ==> #[trigger] chunks[k] == chunk(s.total, s.frame_size, k)
            &&& m > 0 ==> (m - 1) * s.frame_size < s.total
            &&& flushed(calls) ==> m * s.frame_size >= s.total
            &&& now.unencoded() ==> m == 0
            &&& now.phase is EncodeControl ==> now.frame_start == m * s.frame_size < s.total
            &&& now.phase is Encoding ==> m > 0 && now.frame_start == (m - 1) * s.frame_size
                < s.total
            &&& now.phase is FlushingEncoder <==> calls.len() > 0 && calls.last() is FlushEncoder
            &&& flushed(calls) ==> now.phase is FlushingEncoder || now.phase is Over
            &&& calls.len() > 0 && calls.last() is Finished && events.last() != (
                AudioEvent::Control { cancelled: true }) ==> flushed(calls)
        }),
    decreases events.len(),
{
    if events.len() > 0 {
        let before = events.drop_last();
        lemma_encoding(s, clips, before);
        let was = audio_after(s, clips, before);
        let earlier_calls = audio_calls(s, clips, before);
        let calls = audio_calls(s, clips, events);
        let (now, call) = was.after(clips, events.last());
        let m = chunks_of(earlier_calls).len() as int;
        let size = s.frame_size as int;
        assert(calls.drop_last() =~= earlier_calls);
        assert(calls.last() == call);
        assert((m + 1 - 1) * size == m * size && (m - 1) * size == m * size - size)
            by (nonlinear_arith);
        assert(flushed(calls) <==> flushed(earlier_calls) || call is FlushEncoder) by {
            if flushed(earlier_calls) {
                let i = choose|i: int|
                    0 <= i < earlier_calls.len() && #[trigger] earlier_calls[i] is FlushEncoder;
                assert(calls[i] is FlushEncoder);
            }
            assert(calls[calls.len() - 1] == call);
            if flushed(calls) {
                let i = choose|i: int| 0 <= i < calls.len() && #[trigger] calls[i] is FlushEncoder;
                if i < earlier_calls.len() {
                    assert(earlier_calls[i] is FlushEncoder);
                }
            }
        }
        if was.phase is FlushingEncoder {
            assert(earlier_calls[earlier_calls.len() - 1] is FlushEncoder);
        }
        assert(0 * size == 0) by (nonlinear_arith);
        lemma_encoding_step(was, clips, events.last());
    }
}

/// Cancelling before a clip or before an encoder frame ends the worker without an error;
/// cancelling while a clip is fed stops the feeding.
pub proof fn law_cancelling_is_no_failure(s: AudioState, clips: Seq<AudioClip>)
    requires
        s.inv(clips),
        s.answers(clips, AudioEvent::Control { cancelled: true }),
    ensures
        s.phase is ClipStart || s.phase is EncodeControl ==> s.after(
            clips,
            AudioEvent::Control { cancelled: true },
        ).1 is Finished,
        !(s.after(clips, AudioEvent::Control { cancelled: true }).1 is Failed),
        !(s.after(clips, AudioEvent::Control { cancelled: true }).1 is ReadPacket),
{
}

/// Every clip is decoded or passed over before the program is encoded: the worker turns to
/// the limiter only behind the last clip.
pub proof fn law_encoding_follows_every_clip(s: AudioState, clips: Seq<AudioClip>, event: AudioEvent)
    requires
        s.inv(clips),
        clips.len() < usize::MAX,
        s.answers(clips, event),
        s.after(clips, event).1 is Limit,
    ensures
        s.after(clips, event).0.clip == clips.len(),
        s.clip + 1 == clips.len(),
{
}

/// Decoding a clip begins with its window empty, whatever was mixed before: no sample of it
/// is filled, no packet is read ahead, and the end has not been reached.  The window starts
/// where the clip, or the range, starts, whichever is later, and is as long as what is heard
/// of the clip.  After a seek packets are skipped first.
pub proof fn law_a_clip_begins_with_an_empty_window(
    s: AudioState,
    clips: Seq<AudioClip>,
    stream_seek: i64,
    stream_end: i64,
)
    requires
        s.inv(clips),
        s.phase is Rescaling,
    ensures
        ({
            let c = clips[s.clip as int];
            let from = if c.t_in > s.pts_in { c.t_in } else { s.pts_in };
            let to = if c.t_out < s.pts_out { c.t_out } else { s.pts_out };
            let (next, call) = s.after(clips, AudioEvent::Rescaled { stream_seek, stream_end });
            let den = s.tb_den as int;
            &&& next.clip == s.clip
            &&& next.samples == 0
            &&& next.ahead is None
            &&& !next.reached_end
            &&& (next.stream_seek, next.stream_end) == (stream_seek, stream_end)
            &&& next.offset * den <= (from - s.pts_in) * 48_000 < (next.offset + 1) * den
            &&& (next.count - 1) * den < (to - from) * 48_000 <= next.count * den
            &&& s.seek_pts > 0 ==> call is ReadPacket && next.phase is Skipping
            &&& s.seek_pts <= 0 ==> call is CheckControl && next.phase is FeedControl
        }),
{
    let c = clips[s.clip as int];
    let from = s.heard_from(c);
    let to = s.heard_to(c);
    law_windows_stay_in_the_program(
        from - s.pts_in,
        to - from,
        s.pts_out - s.pts_in,
        s.tb_den as int,
    );
    law_samples_are_rounded_apart(from - s.pts_in, s.tb_den as int);
    law_samples_are_rounded_apart(to - from, s.tb_den as int);
    let count = samples_ceil(to - from, s.tb_den as int);
    assert(count >= 1) by (nonlinear_arith)
        requires
            (to - from) * 48_000 <= count * s.tb_den,
            to - from >= 1,
            s.tb_den > 0,
    ;
}

/// The samples that a run has mixed of clip `clip`.
pub open spec fn mixed_of(calls: Seq<AudioCall>, clip: usize) -> int
    decreases calls.len(),
{
    if calls.len() == 0 {
        0
    } else {
        mixed_of(calls.drop_last(), clip) + match calls.last() {
            AudioCall::Mix { clip: mixed, count, .. } => if mixed == clip { count as int } else { 0 },
            _ => 0,
        }
    }
}

/// The clip's window has been set up and the clip is being decoded into it.
pub open spec fn filling(phase: AudioPhase) -> bool {
    match phase {
        AudioPhase::Skipping | AudioPhase::FeedControl | AudioPhase::Reading
        | AudioPhase::Sending | AudioPhase::Receive { .. } | AudioPhase::Resampling { .. }
        | AudioPhase::Mixing { .. } | AudioPhase::DrainControl | AudioPhase::SendingDrain
        | AudioPhase::QueryingDelay | AudioPhase::Flushing { .. } | AudioPhase::MixingFlushed =>
            true,
        _ => false,
    }
}

/// From the start of its window on, every sample that is mixed of a clip follows the one
/// before: what has been mixed is exactly what is filled, from the window's own start.
///
/// `s` is the worker where the window has just been set up, `events` those that follow while
/// the clip is decoded.
pub proof fn law_a_window_is_filled_from_its_start(
    s: AudioState,
    clips: Seq<AudioClip>,
    events: Seq<AudioEvent>,
)
    requires
        filling(s.phase),
        s.samples == 0,
        s.samples <= s.count,
        s.offset + s.count <= s.total,
        audio_answers(s, clips, events),
        filling(audio_after(s, clips, events).phase),
        forall|i: int|
            0 <= i < events.len() ==> filling(
                #[trigger] audio_after(s, clips, events.take(i)).phase,
            ),
    ensures
        ({
            let now = audio_after(s, clips, events);
            let calls = audio_calls(s, clips, events);
            &&& (now.clip, now.offset, now.count, now.total) == (
                s.clip,
                s.offset,
                s.count,
                s.total,
            )
            &&& now.samples == mixed_of(calls, s.clip) <= s.count
            &&& calls.len() > 0 && calls.last() is Mix ==> calls.last() == (AudioCall::Mix {
                clip: s.clip,
                position: (s.offset + mixed_of(calls.drop_last(), s.clip)) as usize,
                count: (mixed_of(calls, s.clip) - mixed_of(calls.drop_last(), s.clip)) as usize,
            })
        }),
    decreases events.len(),
{
    if events.len() > 0 {
        let before = events.drop_last();
        assert(before =~= events.take(events.len() - 1));
        assert(filling(audio_after(s, clips, events.take(events.len() - 1)).phase));
        assert forall|i: int| 0 <= i < before.len() implies filling(
            #[trigger] audio_after(s, clips, before.take(i)).phase,
        ) by {
            assert(before.take(i) =~= events.take(i));
            assert(filling(audio_after(s, clips, events.take(i)).phase));
        }
        law_a_window_is_filled_from_its_start(s, clips, before);
        let was = audio_after(s, clips, before);
        let calls = audio_calls(s, clips, events);
        assert(calls.drop_last() =~= audio_calls(s, clips, before));
        lemma_filling_step(was, clips, events.last());
    }
}

proof fn lemma_filling_step(s: AudioState, clips: Seq<AudioClip>, event: AudioEvent)
    requires
        filling(s.phase),
        s.samples <= s.count,
        s.offset + s.count <= s.total,
        s.answers(clips, event),
    ensures
        ({
            let (next, call) = s.after(clips, event);
            filling(next.phase) ==> {
                &&& (next.clip, next.offset, next.count, next.total) == (
                    s.clip,
                    s.offset,
                    s.count,
                    s.total,
                )
                &&& s.samples <= next.samples <= s.count
                &&& !(call is Mix) ==> next.samples == s.samples
                &&& call is Mix ==> call == (AudioCall::Mix {
                    clip: s.clip,
                    position: (s.offset + s.samples) as usize,
                    count: (next.samples - s.samples) as usize,
                })
            }
        }),
{
}

/// What comes out of the resampler is mixed whole while the window has room for it, and as
/// far as it has room otherwise; nothing is mixed of nothing.
pub proof fn law_resampled_sound_is_mixed(s: AudioState, clips: Seq<AudioClip>, converted: i32)
    requires
        s.inv(clips),
        s.answers(clips, AudioEvent::Resampled { converted }),
    ensures
        ({
            let (next, call) = s.after(clips, AudioEvent::Resampled { converted });
            let room = s.count - s.samples;
            &&& call is Mix <==> converted > 0
            &&& converted > 0 ==> {
                &&& call->Mix_count == if converted <= room { converted as int } else { room }
                &&& call->position == s.offset + s.samples
                &&& call->Mix_clip == s.clip
                &&& next.samples == s.samples + call->Mix_count
            }
            &&& converted < 0 && s.phase is Resampling ==> call == (AudioCall::Failed {
                failure: AudioFailure::Resample(converted),
            })
            &&& converted == 0 && s.phase is Resampling ==> call is ReceiveFrame
        }),
{
}

/// A clip is left only when its window is full or the resampler has nothing more of it; until
/// then its packets are read, decoded and resampled.  It is not left for being cancelled.
pub proof fn law_a_clip_is_left_full_or_exhausted(
    s: AudioState,
    clips: Seq<AudioClip>,
    event: AudioEvent,
)
    requires
        s.inv(clips),
        clips.len() < usize::MAX,
        filling(s.phase),
        s.answers(clips, event),
        s.after(clips, event).0.clip != s.clip,
    ensures
        s.after(clips, event).0.clip == s.clip + 1,
        s.samples == s.count || s.phase is QueryingDelay && event->Delay_samples <= 0
            || s.phase is Flushing && event->converted <= 0,
{
}

/// While the window has room and the worker is not cancelled, a clip is fed: the packet read
/// ahead is taken first, then packets are read; at the end of the source the decoder is
/// drained, and the resampler is emptied after it.
pub proof fn law_a_clip_is_fed_until_its_end(s: AudioState, clips: Seq<AudioClip>, event: AudioEvent)
    requires
        s.inv(clips),
        clips.len() < usize::MAX,
        s.answers(clips, event),
        s.samples < s.count,
    ensures
        ({
            let (next, call) = s.after(clips, event);
            &&& event == (AudioEvent::Control { cancelled: false }) && s.phase is FeedControl ==> {
                &&& s.ahead is None ==> call is ReadPacket && next.phase is Reading
                &&& s.ahead is Some && (s.ahead->0 == NO_PTS || s.ahead->0 <= s.stream_end) ==> call
                    is SendPacket && next.ahead is None
            }
            &&& event == (AudioEvent::Control { cancelled: false }) && s.phase is DrainControl
                ==> call is SendDrain
            &&& event is EndOfSource && s.phase is Reading ==> next.phase is DrainControl
            &&& event is EndOfSource && s.phase is Skipping ==> next.phase is FeedControl
            &&& event == (AudioEvent::Control { cancelled: true }) && filling(s.phase) ==> next.phase
                is DrainControl || next.phase is QueryingDelay
            &&& event is Mixed && s.phase is MixingFlushed ==> call is QueryDelay
            &&& event matches AudioEvent::Delay { samples } ==> if samples > 0 {
                &&& call is FlushResampler
                &&& samples + 16 <= usize::MAX ==> call->FlushResampler_out_max == samples + 16
            } else {
                next.clip == s.clip + 1
            }
        }),
{
}

/// Talking to the decoder.  A packet it has no room for is kept, frames are taken out, and
/// the same packet is sent again; any other refusal is an error.  Frames are taken until it
/// has no more, each is resampled with room for all of it, and an empty one is passed over.
pub proof fn law_decoder_is_fed_and_emptied(s: AudioState, clips: Seq<AudioClip>, event: AudioEvent)
    requires
        s.inv(clips),
        clips.len() < usize::MAX,
        s.answers(clips, event),
    ensures
        ({
            let (next, call) = s.after(clips, event);
            &&& event matches AudioEvent::Sent { status } ==> {
                &&& s.phase is Sending && status == AVERROR_EAGAIN ==> call is ReceiveFrame
                    && next.phase == (AudioPhase::Receive { part: Receiving::Resend })
                &&& s.phase is Sending && status < 0 && status != AVERROR_EAGAIN ==> call == (
                    AudioCall::Failed { failure: AudioFailure::Submit(status) })
                &&& s.phase is Sending && status >= 0 ==> call is ReceiveFrame && next.phase == (
                    AudioPhase::Receive { part: Receiving::NextPacket })
                &&& s.phase is SendingDrain && status < 0 && status != AVERROR_EOF ==> call == (
                    AudioCall::Failed { failure: AudioFailure::Drain(status) })
                &&& s.phase is SendingDrain && (status >= 0 || status == AVERROR_EOF) ==> call
                    is ReceiveFrame && next.phase == (AudioPhase::Receive {
                    part: Receiving::Drained,
                })
            }
            &&& event matches AudioEvent::Received { status, samples } ==> {
                let none = status == AVERROR_EAGAIN || status == AVERROR_EOF;
                &&& !none && status < 0 ==> call == (AudioCall::Failed {
                    failure: AudioFailure::Decode(status),
                })
                &&& status >= 0 && samples == 0 ==> call is ReceiveFrame && next == s
                &&& status >= 0 && samples > 0 && samples * 48_000 + 32 <= usize::MAX ==> {
                    &&& call is Resample
                    &&& call->Resample_samples == samples
                    &&& (call->Resample_out_max - 32) * s.in_rate <= samples * 48_000
                        < (call->Resample_out_max - 31) * s.in_rate
                    &&& next.phase == (AudioPhase::Resampling {
                        part: s.phase->Receive_part,
                        out_max: call->Resample_out_max,
                    })
                }
                &&& none && s.phase->Receive_part is Resend ==> call is SendPacket
                &&& none && s.phase->Receive_part is NextPacket && s.samples < s.count ==> next.phase
                    is FeedControl
                &&& none && s.phase->Receive_part is Drained && s.samples < s.count ==> call
                    is QueryDelay
            }
        }),
{
    if let AudioEvent::Received { status, samples } = event {
        if status >= 0 && samples > 0 {
            let (n, d) = (samples * 48_000, s.in_rate as int);
            let q = n / d;
            vstd::arithmetic::div_mod::lemma_fundamental_div_mod(n, d);
            vstd::arithmetic::div_mod::lemma_mod_bound(n, d);
            assert(0 <= q <= n) by (nonlinear_arith)
                requires
                    n == d * q + n % d,
                    0 <= n % d < d,
                    n >= 0,
                    d >= 1,
            ;
            assert(q * d <= n < (q + 1) * d) by (nonlinear_arith)
                requires
                    n == d * q + n % d,
                    0 <= n % d < d,
            ;
        }
    }
}

/// Getting a clip ready.  A muted clip is passed over, any other is opened; its file, decoder,
/// resampler and frame are got one after the other, and the first that fails ends the worker
/// with its own failure.
pub proof fn law_a_clip_is_got_ready_in_order(s: AudioState, clips: Seq<AudioClip>, event: AudioEvent)
    requires
        s.inv(clips),
        clips.len() < usize::MAX,
        s.answers(clips, event),
    ensures
        ({
            let (next, call) = s.after(clips, event);
            let fails = |failure: AudioFailure|
                call == (AudioCall::Failed { failure }) && next.phase is Over;
            match event {
                AudioEvent::Control { cancelled: false } => {
                    &&& s.phase is ClipStart && clips[s.clip as int].muted ==> next.clip == s.clip + 1
                    &&& s.phase is ClipStart && !clips[s.clip as int].muted ==> call == (
                        AudioCall::OpenSource { clip: s.clip }) && next.clip == s.clip
                },
                AudioEvent::NoPath => fails(AudioFailure::NoPath),
                AudioEvent::OpenFailed => fails(AudioFailure::Open),
                AudioEvent::SourceOpened { has_audio } => if has_audio {
                    call is OpenDecoder
                } else {
                    fails(AudioFailure::NoStream)
                },
                AudioEvent::DecoderFailed => fails(AudioFailure::DecoderOpen),
                AudioEvent::DecoderOpened { layout, channels } => {
                    &&& call is AllocateResampler
                    &&& call->AllocateResampler_clip == s.clip
                    &&& layout != 0 ==> call->layout == layout
                    &&& layout == 0 && channels == 1 ==> call->layout == 4
                    &&& layout == 0 && channels != 1 ==> call->layout == 3
                },
                AudioEvent::ResamplerAllocated { in_rate, ok } => if ok {
                    call is InitResampler && next.in_rate == in_rate
                } else {
                    fails(AudioFailure::ResamplerAlloc)
                },
                AudioEvent::ResamplerReady { ok } => if ok {
                    call is AllocateFrame && next.in_rate == s.in_rate
                } else {
                    fails(AudioFailure::ResamplerInit)
                },
                AudioEvent::FrameAllocated { ok: false } => fails(AudioFailure::FrameAlloc),
                AudioEvent::Sought { ok: false } => fails(AudioFailure::Seek),
                AudioEvent::DemuxFailed => fails(AudioFailure::Demux),
                AudioEvent::Encoded { ok: false } => fails(AudioFailure::Encode),
                AudioEvent::EncoderFlushed { ok: false, .. } => fails(AudioFailure::EncoderFlush),
                AudioEvent::EncoderFlushed { ok: true, mux_failed: true } => fails(
                    AudioFailure::Mux,
                ),
                AudioEvent::EncoderFlushed { ok: true, mux_failed: false } => call is Finished,
                _ => true,
            }
        }),
{
}

/// The part of the source that is heard: as far behind its start as the range or the clip
/// starts behind the clip's start, and up to as far as the earlier of the two ends, both
/// scaled by the clip's speed.  The source is sought to where that part starts.
pub proof fn law_the_heard_part_is_sought(s: AudioState, clips: Seq<AudioClip>, event: AudioEvent)
    requires
        s.inv(clips),
        clips.len() < usize::MAX,
        s.answers(clips, event),
    ensures
        ({
            let (next, call) = s.after(clips, event);
            let c = clips[s.clip as int];
            let from = if c.t_in > s.pts_in { c.t_in } else { s.pts_in };
            let to = if c.t_out < s.pts_out { c.t_out } else { s.pts_out };
            &&& event == (AudioEvent::FrameAllocated { ok: true }) ==> if from < to {
                call == (AudioCall::ScaleTimes {
                    clip: s.clip,
                    from: (from - c.t_in) as i64,
                    to: (to - c.t_in) as i64,
                })
            } else {
                next.clip == s.clip + 1
            }
            &&& event matches AudioEvent::TimesScaled { from, to } ==> {
                &&& call is Seek
                &&& call->Seek_pts == c.source_in + from == next.seek_pts
                &&& next.end_pts == c.source_in + to
            }
            &&& event == (AudioEvent::Sought { ok: true }) ==> call == (AudioCall::Rescale {
                seek: s.seek_pts,
                end: s.end_pts,
            })
        }),
{
}

/// The text of each failure names what failed and what it failed on.
pub proof fn law_failures_say_what_failed(path: Seq<char>, detail: Seq<char>, status: i32)
    ensures
        AudioFailure::NoPath.text(path, detail) == "audio source "@ + detail + " has no path"@,
        AudioFailure::NoStream.text(path, detail) == "audio source "@ + path
            + " has no audio stream"@,
        AudioFailure::Open.text(path, detail) == "failed to open audio source "@ + path + ": "@
            + detail,
        AudioFailure::DecoderOpen.text(path, detail) == "failed to open audio decoder for "@ + path
            + ": "@ + detail,
        AudioFailure::ResamplerAlloc.text(path, detail)
            == "failed to allocate audio resampler for "@ + path,
        AudioFailure::ResamplerInit.text(path, detail)
            == "failed to initialize audio resampler for "@ + path,
        AudioFailure::FrameAlloc.text(path, detail) == "failed to allocate audio decode frame"@,
        AudioFailure::Seek.text(path, detail) == "audio seek failed for "@ + path + ": "@ + detail,
        AudioFailure::Demux.text(path, detail) == "audio demux failed for "@ + path + ": "@ + detail,
        AudioFailure::Submit(status).text(path, detail) == "audio packet submit failed for "@ + path
            + ": FFmpeg error "@ + signed_decimal(status as int),
        AudioFailure::Decode(status).text(path, detail) == "audio decode failed for "@ + path
            + ": FFmpeg error "@ + signed_decimal(status as int),
        AudioFailure::Resample(status).text(path, detail) == "audio resample failed for "@ + path
            + ": FFmpeg error "@ + signed_decimal(status as int),
        AudioFailure::Drain(status).text(path, detail) == "audio decoder drain failed for "@ + path
            + ": FFmpeg error "@ + signed_decimal(status as int),
        AudioFailure::Encode.text(path, detail) == "audio encode failed: "@ + detail,
        AudioFailure::EncoderFlush.text(path, detail) == "audio encoder flush failed: "@ + detail,
        AudioFailure::Mux.text(path, detail) == "audio mux write failed: "@ + detail,
{
}

/// A program is as long as the range it is for, a started sample counting whole at 48000 a
/// second, and the clips are gone through from the first; without one the silence is finished
/// at once.
pub proof fn law_a_program_is_as_long_as_its_range(
    pts_in: i64,
    pts_out: i64,
    tb_den: i64,
    frame_size: usize,
    clips: Seq<AudioClip>,
)
    requires
        pts_in < pts_out,
        tb_den > 0,
        samples_ceil(pts_out - pts_in, tb_den as int) <= usize::MAX,
    ensures
        ({
            let start = AudioState::beginning(pts_in, pts_out, tb_den, frame_size);
            let (first, call) = start.turn_to(clips, 0);
            &&& (first.pts_in, first.pts_out, first.tb_den) == (pts_in, pts_out, tb_den)
            &&& first.frame_size == frame_size
            &&& (first.total - 1) * tb_den < (pts_out - pts_in) * 48_000 <= first.total * tb_den
            &&& first.clip == 0 && first.frame_start == 0
            &&& (first.offset, first.count, first.samples) == (0usize, 0usize, 0usize)
            &&& first.ahead is None && !first.reached_end
            &&& clips.len() > 0 ==> call is CheckControl && first.phase is ClipStart
            &&& clips.len() == 0 ==> call is Limit && first.phase is Limiting
        }),
{
    law_windows_stay_in_the_program(0, 0, pts_out - pts_in, tb_den as int);
    law_samples_are_rounded_apart(pts_out - pts_in, tb_den as int);
    let total = samples_ceil(pts_out - pts_in, tb_den as int);
    assert(total >= 1) by (nonlinear_arith)
        requires
            (pts_out - pts_in) * 48_000 <= total * tb_den,
            pts_out - pts_in >= 1,
            tb_den > 0,
    ;
}

/// What is exported never changes, and the clips are gone through one by one.
pub proof fn law_the_program_stays_what_it_is(
    s: AudioState,
    clips: Seq<AudioClip>,
    event: AudioEvent,
)
    requires
        s.inv(clips),
        clips.len() < usize::MAX,
        s.answers(clips, event),
    ensures
        ({
            let next = s.after(clips, event).0;
            &&& (next.pts_in, next.pts_out, next.tb_den) == (s.pts_in, s.pts_out, s.tb_den)
            &&& (next.total, next.frame_size) == (s.total, s.frame_size)
            &&& next.clip == s.clip || next.clip == s.clip + 1
        }),
{
}

/// What is heard of a clip is found in its own steps and kept in all others: the window and
/// the part of the stream, the part of the source, and the rate with the resampler.
pub proof fn law_what_is_heard_of_a_clip_is_kept(
    s: AudioState,
    clips: Seq<AudioClip>,
    event: AudioEvent,
)
    requires
        s.inv(clips),
        clips.len() < usize::MAX,
        s.answers(clips, event),
    ensures
        ({
            let next = s.after(clips, event).0;
            &&& !(event is Rescaled) ==> {
                &&& (next.offset, next.count) == (s.offset, s.count)
                &&& (next.stream_seek, next.stream_end) == (s.stream_seek, s.stream_end)
            }
            &&& !(event is TimesScaled) ==> (next.seek_pts, next.end_pts) == (
                s.seek_pts,
                s.end_pts,
            )
            &&& !(event is ResamplerAllocated) ==> next.in_rate == s.in_rate
        }),
{
}

/// How far a run has come changes with what was done: the samples of a clip with a resampling
/// and the samples encoded with an encoding.  The end of a source, once reached, stays reached
/// until the next clip.
pub proof fn law_a_run_goes_on_by_what_was_done(
    s: AudioState,
    clips: Seq<AudioClip>,
    event: AudioEvent,
)
    requires
        s.inv(clips),
        clips.len() < usize::MAX,
        s.answers(clips, event),
    ensures
        ({
            let next = s.after(clips, event).0;
            &&& !(event is Rescaled) && !(event is Resampled) ==> next.samples == s.samples
            &&& !(event is Limited) && !(event is Encoded) ==> next.frame_start == s.frame_start
            &&& event is Limited ==> next.frame_start == 0
            &&& s.reached_end && !(event is Rescaled) ==> next.reached_end
        }),
{
}

/// A window that is full needs nothing more of its clip, but for the packet that had no room
/// and is given up with the frames still held; one that is not full goes on being filled from
/// where the frames come.
pub proof fn law_a_full_window_ends_its_clip(
    s: AudioState,
    clips: Seq<AudioClip>,
    event: AudioEvent,
)
    requires
        s.inv(clips),
        clips.len() < usize::MAX,
        s.answers(clips, event),
    ensures
        ({
            let (next, call) = s.after(clips, event);
            &&& event is Mixed && s.phase is Mixing && s.samples < s.count ==> call
                is ReceiveFrame && next.phase == (AudioPhase::Receive {
                part: s.phase->Mixing_part,
            })
            &&& event is Mixed && s.phase is Mixing && s.samples == s.count ==> {
                &&& s.phase->Mixing_part is Resend ==> call is ReceiveFrame && next.phase == (
                AudioPhase::Receive { part: Receiving::NextPacket })
                &&& !(s.phase->Mixing_part is Resend) ==> next.clip == s.clip + 1
            }
            &&& event is Mixed && s.phase is MixingFlushed && s.samples == s.count ==> next.clip
                == s.clip + 1
            &&& event matches AudioEvent::Received { status, .. } ==> {
                let none = status == -11 || status == -541478725;
                none && s.samples == s.count && !(s.phase->Receive_part is Resend) ==> next.clip
                    == s.clip + 1
            }
            &&& s.phase is Reading && s.samples < s.count ==> (event matches AudioEvent::Packet {
                pts,
            } ==> pts != NO_PTS && pts > s.stream_end ==> {
                &&& call is CheckControl
                &&& next.phase is DrainControl
                &&& next.reached_end
            })
            &&& next.clip == s.clip + 1 ==> {
                &&& next.clip < clips.len() ==> call is CheckControl && next.phase is ClipStart
                &&& next.clip == clips.len() ==> call is Limit && next.phase is Limiting
            }
        }),
{
}

} // verus!
