//! The audio encoder of an export.
use crate::export::job::ExportJob;
use crate::export::video_encoder::EncodeError;
use crate::io::ffi::avutil::AVRational;
use crate::text::{signed_decimal, signed_str};
use vstd::prelude::*;
use vstd::string::*;

verus! {

/// Samples per second of every export.
pub const EXPORT_SAMPLE_RATE: i32 = 48000;

/// FFmpeg's mask of the two stereo channels.
pub const AV_CH_LAYOUT_STEREO: u64 = 3;

/// Planar 32-bit floating-point samples.
pub const AV_SAMPLE_FMT_FLTP: i32 = 8;

/// Samples per frame of an encoder that does not say.
pub const DEFAULT_FRAME_SIZE: i64 = 1024;

/// How the audio context is configured before it is opened.
#[derive(Debug, Clone, Copy, PartialEq, Eq, Structural)]
pub struct AudioPlan {
    pub bit_rate: i64,
    pub sample_rate: i32,
    pub channel_layout: u64,
    pub sample_fmt: i32,
    pub time_base: AVRational,
    pub global_header: bool,
}

/// What opening the encoder has to do next.
#[derive(Debug, Clone, Copy, PartialEq, Eq, Structural)]
pub enum AudioOpenCall {
    FindEncoder { id: u32 },
    AllocContext,
    /// Configure and open the context, and ask it for its frame size.
    OpenContext { plan: AudioPlan },
    /// Allocate a frame of that many samples.
    Ready { frame_size: usize },
    Failed,
}

/// What came of it.
#[derive(Debug, Clone, Copy, PartialEq, Eq, Structural)]
pub enum AudioOpenReply {
    Found { found: bool },
    Allocated { ok: bool },
    Opened { status: i32, frame_size: i64 },
}

#[derive(Debug, Clone, Copy, PartialEq, Eq, Structural)]
pub enum AudioOpenStage {
    Finding,
    Allocating,
    Opening,
    Ready { frame_size: usize },
    Over,
}

/// The encoder being opened.
#[derive(Debug, Clone, Copy, PartialEq, Eq, Structural)]
pub struct AudioOpening {
    pub plan: AudioPlan,
    pub stage: AudioOpenStage,
}

/// The open encoder.
#[derive(Debug, Clone, Copy, PartialEq, Eq, Structural)]
pub struct AudioMuxEncoder {
    /// The application's handle of the encoder context.
    pub ctx: u64,
    /// Samples per frame.
    pub frame_size: usize,
}

/// What encoding has to do next.
#[derive(Debug, Clone, Copy, PartialEq, Eq, Structural)]
pub enum AudioEncodeCall {
    /// Copy that many samples of each channel into the frame, give it its time, and send it.
    CopyAndSend { samples: usize, pts: i64 },
    /// Send the end of the stream; how that ends does not matter.
    SendEnd,
    /// Hand every packet that is ready to the muxer.
    Drain,
}

/// The configuration of the job's audio context.
pub open spec fn audio_plan(job: ExportJob) -> AudioPlan {
    AudioPlan {
        bit_rate: job.audio_bitrate as i64,
        sample_rate: EXPORT_SAMPLE_RATE,
        channel_layout: AV_CH_LAYOUT_STEREO,
        sample_fmt: AV_SAMPLE_FMT_FLTP,
        time_base: AVRational { num: 1, den: EXPORT_SAMPLE_RATE },
        global_header: job.container.wants_global_header(),
    }
}

impl AudioOpening {
    pub open spec fn answers(self, reply: AudioOpenReply) -> bool {
        match reply {
            AudioOpenReply::Found { .. } => self.stage is Finding,
            AudioOpenReply::Allocated { .. } => self.stage is Allocating,
            AudioOpenReply::Opened { .. } => self.stage is Opening,
        }
    }

    pub open spec fn at(self, stage: AudioOpenStage) -> AudioOpening {
        AudioOpening { stage, ..self }
    }

    /// What follows `reply`.
    pub open spec fn after(self, reply: AudioOpenReply) -> (AudioOpening, AudioOpenCall) {
        let over = self.at(AudioOpenStage::Over);
        match reply {
            AudioOpenReply::Found { found } => if found {
                (self.at(AudioOpenStage::Allocating), AudioOpenCall::AllocContext)
            } else {
                (over, AudioOpenCall::Failed)
            },
            AudioOpenReply::Allocated { ok } => if ok {
                (
                    self.at(AudioOpenStage::Opening),
                    AudioOpenCall::OpenContext { plan: self.plan },
                )
            } else {
                (over, AudioOpenCall::Failed)
            },
            AudioOpenReply::Opened { status, frame_size } => if status < 0 {
                (over, AudioOpenCall::Failed)
            } else {
                let frame_size = if frame_size == 0 {
                    DEFAULT_FRAME_SIZE as usize
                } else {
                    frame_size as usize
                };
                (
                    self.at(AudioOpenStage::Ready { frame_size }),
                    AudioOpenCall::Ready { frame_size },
                )
            },
        }
    }

    /// The error that a failure with `reply` is reported as.
    pub open spec fn reports(reply: AudioOpenReply, error: EncodeError) -> bool {
        match reply {
            AudioOpenReply::Found { .. } => error is CodecNotFound,
            AudioOpenReply::Allocated { .. } => error is Alloc,
            AudioOpenReply::Opened { .. } => error matches EncodeError::Open(text) && text@
                == "Failed to open audio codec"@,
        }
    }

    /// Take what came of the last call and say what to do next; with a failure comes its
    /// error.
    pub fn resume(&mut self, reply: AudioOpenReply) -> (r: (AudioOpenCall, Option<EncodeError>))
        requires
            old(self).answers(reply),
        ensures
            (*final(self), r.0) == old(self).after(reply),
            r.1 is Some <==> r.0 is Failed,
            r.1 matches Some(error) ==> Self::reports(reply, error),
    {
        match reply {
            AudioOpenReply::Found { found } => {
                if !found {
                    self.stage = AudioOpenStage::Over;
                    return (AudioOpenCall::Failed, Some(EncodeError::CodecNotFound));
                }
                self.stage = AudioOpenStage::Allocating;
                (AudioOpenCall::AllocContext, None)
            },
            AudioOpenReply::Allocated { ok } => {
                if !ok {
                    self.stage = AudioOpenStage::Over;
                    return (AudioOpenCall::Failed, Some(EncodeError::Alloc));
                }
                self.stage = AudioOpenStage::Opening;
                (AudioOpenCall::OpenContext { plan: self.plan }, None)
            },
            AudioOpenReply::Opened { status, frame_size } => {
                if status < 0 {
                    self.stage = AudioOpenStage::Over;
                    let text = String::from_str("Failed to open audio codec");
                    return (AudioOpenCall::Failed, Some(EncodeError::Open(text)));
                }
                let frame_size: usize = if frame_size == 0 {
                    DEFAULT_FRAME_SIZE as usize
                } else {
                    frame_size as usize
                };
                self.stage = AudioOpenStage::Ready { frame_size };
                (AudioOpenCall::Ready { frame_size }, None)
            },
        }
    }

    /// The encoder, once it is open; `ctx` is the application's handle of its context.
    pub fn encoder(self, ctx: u64) -> (r: AudioMuxEncoder)
        requires
            self.stage is Ready,
        ensures
            r == (AudioMuxEncoder { ctx, frame_size: self.stage->Ready_frame_size }),
    {
        let frame_size: usize = match self.stage {
            AudioOpenStage::Ready { frame_size } => frame_size,
            _ => 0,
        };
        AudioMuxEncoder { ctx, frame_size }
    }
}

impl AudioMuxEncoder {
    /// Start opening the job's audio encoder.
    pub fn open(job: &ExportJob) -> (r: (AudioOpening, AudioOpenCall))
        ensures
            r.0 == (AudioOpening { plan: audio_plan(*job), stage: AudioOpenStage::Finding }),
            r.1 == (AudioOpenCall::FindEncoder { id: job.audio_codec.codec_id() }),
    {
        let plan = AudioPlan {
            bit_rate: job.audio_bitrate as i64,
            sample_rate: EXPORT_SAMPLE_RATE,
            channel_layout: AV_CH_LAYOUT_STEREO,
            sample_fmt: AV_SAMPLE_FMT_FLTP,
            time_base: AVRational { num: 1, den: EXPORT_SAMPLE_RATE },
            global_header: job.container.global_header(),
        };
        (
            AudioOpening { plan, stage: AudioOpenStage::Finding },
            AudioOpenCall::FindEncoder { id: job.audio_codec.ffmpeg_id() },
        )
    }

    /// The handle of the encoder context.
    pub fn codec_ctx(&self) -> (r: u64)
        ensures
            r == self.ctx,
    {
        self.ctx
    }

    /// Samples per frame.
    pub fn frame_size(&self) -> (r: usize)
        ensures
            r == self.frame_size,
    {
        self.frame_size
    }

    /// Start encoding one frame; both channels hold a frame's samples.
    pub fn encode_pcm_chunk(&self, left_len: usize, right_len: usize, pts: i64) -> (r:
        AudioEncodeCall)
        requires
            left_len == self.frame_size,
            right_len == self.frame_size,
        ensures
            r == (AudioEncodeCall::CopyAndSend { samples: self.frame_size, pts }),
    {
        AudioEncodeCall::CopyAndSend { samples: self.frame_size, pts }
    }

    /// `r` is what follows a frame that was sent with that status.
    pub open spec fn comes_of_sending(
        status: i32,
        r: Result<AudioEncodeCall, EncodeError>,
    ) -> bool {
        match r {
            Ok(call) => status >= 0 && call is Drain,
            Err(error) => {
                &&& status < 0
                &&& error matches EncodeError::Open(text)
                &&& text@ == "avcodec_send_frame audio: "@ + signed_decimal(status as int)
            },
        }
    }

    /// Go on once the frame has been sent.
    pub fn chunk_sent(status: i32) -> (r: Result<AudioEncodeCall, EncodeError>)
        ensures
            Self::comes_of_sending(status, r),
    {
        if status < 0 {
            let mut text = String::from_str("avcodec_send_frame audio: ");
            text.append(signed_str(status as i64).as_str());
            return Err(EncodeError::Open(text));
        }
        Ok(AudioEncodeCall::Drain)
    }

    /// Take out what the encoder still holds: end the stream, then drain.
    pub fn encode_all(&self) -> (r: (AudioEncodeCall, AudioEncodeCall))
        ensures
            r == (AudioEncodeCall::SendEnd, AudioEncodeCall::Drain),
    {
        (AudioEncodeCall::SendEnd, AudioEncodeCall::Drain)
    }
}

/// Sound is encoded as the job asks and as every export has it: at the job's bit rate, in
/// stereo of planar floating-point samples, 48000 of them a second, which is also its clock,
/// and with headers where the container wants them.
pub proof fn law_sound_is_encoded_as_asked(job: ExportJob)
    ensures
        ({
            let plan = audio_plan(job);
            &&& plan.bit_rate == job.audio_bitrate as i64
            &&& plan.sample_rate == 48_000
            &&& plan.channel_layout == 3
            &&& plan.sample_fmt == 8
            &&& plan.time_base.num == 1 && plan.time_base.den == 48_000
            &&& plan.global_header <==> job.container is Mp4 || job.container is Mov
        }),
{
}

/// An encoder is found, allocated and opened by its plan, in that order; its frames have as
/// many samples as it says, or 1024 where it says nothing.  A failure is told as what failed.
pub proof fn law_an_audio_encoder_is_opened_in_order(
    opening: AudioOpening,
    reply: AudioOpenReply,
    error: EncodeError,
)
    requires
        opening.answers(reply),
    ensures
        ({
            let (after, call) = opening.after(reply);
            let failed = call is Failed && AudioOpening::reports(reply, error);
            &&& after.plan == opening.plan
            &&& match reply {
                AudioOpenReply::Found { found } => {
                    &&& call is AllocContext <==> found
                    &&& call is Failed <==> !found
                    &&& found ==> after.stage is Allocating
                    &&& failed ==> error is CodecNotFound
                },
                AudioOpenReply::Allocated { ok } => {
                    &&& call is OpenContext <==> ok
                    &&& call is Failed <==> !ok
                    &&& ok ==> call->plan == opening.plan && after.stage is Opening
                    &&& failed ==> error is Alloc
                },
                AudioOpenReply::Opened { status, frame_size } => {
                    &&& call is Ready <==> status >= 0
                    &&& call is Failed <==> status < 0
                    &&& call is Ready && frame_size == 0 ==> call->Ready_frame_size == 1024
                    &&& call is Ready && 0 < frame_size <= i32::MAX ==> call->Ready_frame_size
                        == frame_size
                    &&& call is Ready ==> after.stage == (AudioOpenStage::Ready {
                        frame_size: call->Ready_frame_size,
                    })
                    &&& failed ==> error is Open && error->Open_0@
                        == "Failed to open audio codec"@
                },
            }
        }),
{
}

/// A frame that was sent is followed by taking packets out; a refusal is told with its number.
pub proof fn law_sent_sound_is_drained(status: i32, r: Result<AudioEncodeCall, EncodeError>)
    requires
        AudioMuxEncoder::comes_of_sending(status, r),
    ensures
        r is Ok <==> status >= 0,
        r is Ok ==> r->Ok_0 is Drain,
        r is Err ==> r->Err_0 is Open && r->Err_0->Open_0@ == "avcodec_send_frame audio: "@
            + signed_decimal(status as int),
{
}

} // verus!
