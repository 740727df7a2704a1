//! Encoding through libavcodec, and the choice between it and the direct NVENC session.
use crate::export::job::{ExportJob, Hdr10Metadata, VideoCodec, VideoQuality};
use crate::export::renderer::RawFrame;
use crate::interop::capability::InteropCapability;
use crate::interop::encode_interop::{EncodeInterop, EncodedPacket, NvencCall, PacketView};
use crate::io::ffi::avutil::{AVERROR_EOF, AV_PKT_FLAG_KEY};
use crate::text::{
    decimal, decimal_str, law_decimals_read_back, occurs, occurs_at, signed_decimal, signed_str,
    str_contains,
};
use crate::timeline::ColorInfo;
use vstd::prelude::*;
use vstd::string::*;

verus! {

/// Packed 8-bit RGBA.
pub const AV_PIX_FMT_RGBA: i32 = 26;

/// Packed 16-bit RGBA, little-endian: the input of encoders of more than 8 bits.
pub const AV_PIX_FMT_RGBA64: i32 = 105;

pub const SWS_POINT: i32 = 0x10;

/// The identity of swscale's 16.16 contrast and saturation.
pub const SWS_ONE_16_16: i32 = 65536;

/// Why encoding failed.
#[derive(Debug)]
pub enum EncodeError {
    CodecNotFound,
    Alloc,
    Open(String),
    Send(String),
    Receive(String),
    SwsConvert,
    Interop(String),
}

/// Hardware encoders worth trying for the job, best first.  None takes 10-bit H.264.
pub open spec fn hw_encoders(job: ExportJob) -> Seq<Seq<char>> {
    if job.video_codec is H264 && !job.hdr() {
        seq!["h264_nvenc"@, "h264_amf"@, "h264_qsv"@]
    } else if job.video_codec is H265 {
        seq!["hevc_nvenc"@, "hevc_amf"@, "hevc_qsv"@]
    } else {
        seq![]
    }
}

/// The views of a list of names.
pub open spec fn names(v: Seq<&'static str>) -> Seq<Seq<char>> {
    v.map_values(|s: &'static str| s@)
}

/// Hardware encoders worth trying for the job, best first.
pub fn hw_candidates(job: &ExportJob) -> (r: Vec<&'static str>)
    ensures
        names(r@) == hw_encoders(*job),
{
    let mut r: Vec<&'static str> = Vec::new();
    match (job.video_codec, job.encode_bit_depth() >= 10) {
        (VideoCodec::H264, false) => {
            r.push("h264_nvenc");
            r.push("h264_amf");
            r.push("h264_qsv");
        },
        (VideoCodec::H265, _) => {
            r.push("hevc_nvenc");
            r.push("hevc_amf");
            r.push("hevc_qsv");
        },
        _ => {},
    }
    assert(names(r@) =~= hw_encoders(*job));
    r
}

/// A private option of an encoder.
pub struct EncoderOption {
    pub key: &'static str,
    pub value: String,
}

/// An option as a value.
pub struct OptionView {
    pub key: Seq<char>,
    pub value: Seq<char>,
}

impl View for EncoderOption {
    type V = OptionView;

    open spec fn view(&self) -> OptionView {
        OptionView { key: self.key@, value: self.value@ }
    }
}

/// How an encoder context is configured before it is opened.
pub struct EncoderPlan {
    pub width: i32,
    pub height: i32,
    pub pix_fmt: i32,
    pub time_base_num: i32,
    pub time_base_den: i32,
    pub gop_size: i32,
    /// Zero leaves the number of threads to the encoder.
    pub thread_count: i32,
    pub options: Vec<EncoderOption>,
    pub bit_rate: Option<i64>,
    pub global_header: bool,
    pub color: ColorInfo,
    /// Left: the siting of 4:2:0 video.
    pub chroma_location: i32,
    pub hdr10: Option<Hdr10Metadata>,
}

pub open spec fn option(key: Seq<char>, value: Seq<char>) -> OptionView {
    OptionView { key, value }
}

/// The options an encoder of that name is opened with.
pub open spec fn encoder_options(job: ExportJob, hw_name: Option<Seq<char>>) -> Seq<OptionView> {
    match hw_name {
        Some(name) => {
            let speed = if occurs(name, "nvenc"@) {
                seq![option("preset"@, "p4"@)]
            } else if occurs(name, "amf"@) {
                seq![option("quality"@, "speed"@)]
            } else if occurs(name, "qsv"@) {
                seq![option("preset"@, "veryfast"@)]
            } else {
                seq![]
            };
            let level = if occurs(name, "nvenc"@) {
                "cq"@
            } else if occurs(name, "amf"@) {
                "qvbr_quality_level"@
            } else {
                "global_quality"@
            };
            match job.quality {
                VideoQuality::Crf(crf) => if speed.len() > 0 {
                    speed.push(option(level, decimal(crf as int)))
                } else {
                    speed
                },
                VideoQuality::TargetBitrate(_) => speed,
            }
        },
        None => match job.quality {
            VideoQuality::Crf(crf) => seq![
                option("preset"@, job.cpu_preset.name()),
                option("crf"@, decimal(crf as int)),
            ],
            VideoQuality::TargetBitrate(_) => seq![],
        },
    }
}

/// A bit rate is set where the job asks for one and the encoder is a known one.
pub open spec fn encoder_bit_rate(job: ExportJob, hw_name: Option<Seq<char>>) -> Option<i64> {
    match job.quality {
        VideoQuality::TargetBitrate(bps) => match hw_name {
            Some(name) => if occurs(name, "nvenc"@) || occurs(name, "amf"@) || occurs(
                name,
                "qsv"@,
            ) {
                Some(bps as i64)
            } else {
                None
            },
            None => Some(bps as i64),
        },
        VideoQuality::Crf(_) => None,
    }
}

impl EncoderPlan {
    pub open spec fn option_views(&self) -> Seq<OptionView> {
        self.options@.map_values(|o: EncoderOption| o@)
    }

    /// The plan is the job's, for a hardware encoder of that name or for a software one.
    pub open spec fn is_for(&self, job: ExportJob, hw_name: Option<Seq<char>>) -> bool {
        &&& self.width == job.width as i32
        &&& self.height == job.height as i32
        &&& self.pix_fmt == job.pix_fmt(hw_name is Some)
        &&& self.time_base_num == job.frame_rate.den as i32
        &&& self.time_base_den == job.frame_rate.num as i32
        &&& self.gop_size == 12
        &&& self.thread_count == 0
        &&& self.option_views() == encoder_options(job, hw_name)
        &&& self.bit_rate == encoder_bit_rate(job, hw_name)
        &&& self.global_header == job.container.wants_global_header()
        &&& self.color == job.output_color
        &&& self.chroma_location == 1
        &&& self.hdr10 == job.hdr10
    }
}

fn add_option(options: &mut Vec<EncoderOption>, key: &'static str, value: String)
    ensures
        final(options)@.map_values(|o: EncoderOption| o@) == old(options)@.map_values(
            |o: EncoderOption| o@,
        ).push(option(key@, value@)),
{
    options.push(EncoderOption { key, value });
    assert(options@.map_values(|o: EncoderOption| o@) =~= old(options)@.map_values(
        |o: EncoderOption| o@,
    ).push(option(key@, value@)));
}

/// The configuration of the job's encoder context; `hw_name` is the name of the hardware
/// encoder, if it is one.
pub fn open_codec_context(job: &ExportJob, hw_name: Option<&str>) -> (plan: EncoderPlan)
    ensures
        plan.is_for(
            *job,
            match hw_name {
                Some(name) => Some(name@),
                None => None,
            },
        ),
{
    let mut options: Vec<EncoderOption> = Vec::new();
    let mut bit_rate: Option<i64> = None;
    assert(options@.map_values(|o: EncoderOption| o@) =~= seq![]);
    match hw_name {
        Some(name) => {
            let (speed_key, speed, level) = if str_contains(name, "nvenc") {
                ("preset", "p4", "cq")
            } else if str_contains(name, "amf") {
                ("quality", "speed", "qvbr_quality_level")
            } else if str_contains(name, "qsv") {
                ("preset", "veryfast", "global_quality")
            } else {
                ("", "", "")
            };
            let known: bool = str_contains(name, "nvenc") || str_contains(name, "amf")
                || str_contains(name, "qsv");
            if known {
                add_option(&mut options, speed_key, String::from_str(speed));
                match job.quality {
                    VideoQuality::Crf(crf) => {
                        add_option(&mut options, level, decimal_str(crf as u64));
                    },
                    VideoQuality::TargetBitrate(bps) => {
                        bit_rate = Some(bps as i64);
                    },
                }
            }
            assert(options@.map_values(|o: EncoderOption| o@) =~= encoder_options(
                *job,
                Some(name@),
            ));
        },
        None => {
            match job.quality {
                VideoQuality::Crf(crf) => {
                    add_option(&mut options, "preset", String::from_str(job.cpu_preset.as_str()));
                    add_option(&mut options, "crf", decimal_str(crf as u64));
                },
                VideoQuality::TargetBitrate(bps) => {
                    bit_rate = Some(bps as i64);
                },
            }
            assert(options@.map_values(|o: EncoderOption| o@) =~= encoder_options(*job, None));
        },
    }
    EncoderPlan {
        width: job.width as i32,
        height: job.height as i32,
        pix_fmt: job.encoder_pix_fmt(hw_name.is_some()),
        time_base_num: job.frame_rate.den as i32,
        time_base_den: job.frame_rate.num as i32,
        gop_size: 12,
        thread_count: 0,
        options,
        bit_rate,
        global_header: job.container.global_header(),
        color: job.output_color,
        chroma_location: 1,
        hdr10: job.hdr10,
    }
}

/// Whether a format of that many bits per component stores more than 8.
pub fn pix_fmt_is_high_depth(depth: i32) -> (r: bool)
    ensures
        r == (depth > 8),
{
    depth > 8
}

/// What the caller has to do next to open an encoder.
pub enum EncoderOpenCall {
    /// Look for a hardware encoder.
    FindByName { name: &'static str },
    /// Look for the codec's software encoder.
    FindById { id: u32 },
    /// Configure and open a context of the encoder just found.
    OpenContext { plan: EncoderPlan },
    /// Allocate the frame the encoder is fed with.
    AllocFrame { pix_fmt: i32, width: i32, height: i32 },
    /// Set up the conversion into the encoder's format, without scaling, from full-range
    /// RGB to the output's matrix and range.
    SetUpConversion {
        src_pix_fmt: i32,
        dst_pix_fmt: i32,
        width: i32,
        height: i32,
        flags: i32,
        dst_colorspace: i32,
        dst_range: i32,
    },
    Ready { high_depth: bool },
    /// Free what has been opened and give up.
    Failed { error: EncodeError },
}

/// What came of it.
#[derive(Debug, Clone, Copy, PartialEq, Eq, Structural)]
pub enum EncoderOpenReply {
    Found { found: bool },
    /// Zero or more for success, else the error code.
    Context { status: i32 },
    /// Whether the frame could be allocated, and how many bits per component the encoder's
    /// format stores.
    Frame { ok: bool, depth: i32 },
    Conversion { ok: bool },
}

/// How far the opening has come.
#[derive(Debug, Clone, Copy, PartialEq, Eq, Structural)]
pub enum EncoderStage {
    FindingHw { candidate: usize },
    OpeningHw { candidate: usize },
    FindingSw,
    OpeningSw,
    AllocatingFrame { hw: bool },
    Converting { high_depth: bool },
    /// The encoder is open and can be fed.
    Ready { high_depth: bool },
    Over,
}

/// The text of a failed open.
pub open spec fn open_failed_text(status: int) -> Seq<char> {
    "Failed to open video codec context: error "@ + signed_decimal(status)
}

/// A libavcodec encoder being opened: hardware first, software last.
pub struct VideoEncoderOpening {
    pub job: ExportJob,
    pub candidates: Vec<&'static str>,
    pub stage: EncoderStage,
}

impl VideoEncoderOpening {
    pub open spec fn inv(&self) -> bool {
        &&& names(self.candidates@) == hw_encoders(self.job)
        &&& match self.stage {
            EncoderStage::FindingHw { candidate } => candidate < self.candidates@.len(),
            EncoderStage::OpeningHw { candidate } => candidate < self.candidates@.len(),
            _ => true,
        }
    }

    pub open spec fn answers(&self, reply: EncoderOpenReply) -> bool {
        match reply {
            EncoderOpenReply::Found { .. } => self.stage is FindingHw || self.stage is FindingSw,
            EncoderOpenReply::Context { .. } => self.stage is OpeningHw || self.stage is OpeningSw,
            EncoderOpenReply::Frame { .. } => self.stage is AllocatingFrame,
            EncoderOpenReply::Conversion { .. } => self.stage is Converting,
        }
    }

    /// Try hardware candidate `candidate`, or software when there is no such candidate.
    pub open spec fn tries(&self, candidate: int, call: EncoderOpenCall) -> bool {
        if candidate < hw_encoders(self.job).len() {
            &&& self.stage == (EncoderStage::FindingHw { candidate: candidate as usize })
            &&& call matches EncoderOpenCall::FindByName { name } && name@ == hw_encoders(
                self.job,
            )[candidate]
        } else {
            &&& self.stage is FindingSw
            &&& call == (EncoderOpenCall::FindById { id: self.job.video_codec.codec_id() })
        }
    }

    /// What follows `reply` in the opening `after` of `self`.
    pub open spec fn follows(&self, reply: EncoderOpenReply, after: Self, call: EncoderOpenCall) -> bool {
        let allocates = |hw: bool|
            {
                &&& after.stage == (EncoderStage::AllocatingFrame { hw })
                &&& call == (EncoderOpenCall::AllocFrame {
                    pix_fmt: self.job.pix_fmt(hw),
                    width: self.job.width as i32,
                    height: self.job.height as i32,
                })
            };
        match (self.stage, reply) {
            (EncoderStage::FindingHw { candidate }, EncoderOpenReply::Found { found }) => if found {
                &&& after.stage == (EncoderStage::OpeningHw { candidate })
                &&& call matches EncoderOpenCall::OpenContext { plan } && plan.is_for(
                    self.job,
                    Some(hw_encoders(self.job)[candidate as int]),
                )
            } else {
                after.tries(candidate + 1, call)
            },
            (EncoderStage::OpeningHw { candidate }, EncoderOpenReply::Context { status }) =>
                if status < 0 {
                    after.tries(candidate + 1, call)
                } else {
                    allocates(true)
                },
            (EncoderStage::FindingSw, EncoderOpenReply::Found { found }) => if found {
                &&& after.stage is OpeningSw
                &&& call matches EncoderOpenCall::OpenContext { plan } && plan.is_for(
                    self.job,
                    None,
                )
            } else {
                &&& after.stage is Over
                &&& call == (EncoderOpenCall::Failed { error: EncodeError::CodecNotFound })
            },
            (EncoderStage::OpeningSw, EncoderOpenReply::Context { status }) => if status < 0 {
                &&& after.stage is Over
                &&& call matches EncoderOpenCall::Failed { error: EncodeError::Open(text) }
                    && text@ == open_failed_text(status as int)
            } else {
                allocates(false)
            },
            (
                EncoderStage::AllocatingFrame { hw },
                EncoderOpenReply::Frame { ok, depth },
            ) => if ok {
                &&& after.stage == (EncoderStage::Converting { high_depth: depth > 8 })
                &&& call == (EncoderOpenCall::SetUpConversion {
                    src_pix_fmt: if depth > 8 { AV_PIX_FMT_RGBA64 } else { AV_PIX_FMT_RGBA },
                    dst_pix_fmt: self.job.pix_fmt(hw),
                    width: self.job.width as i32,
                    height: self.job.height as i32,
                    flags: SWS_POINT,
                    dst_colorspace: self.job.sws_matrix(),
                    dst_range: self.job.sws_full_range(),
                })
            } else {
                &&& after.stage is Over
                &&& call == (EncoderOpenCall::Failed { error: EncodeError::Alloc })
            },
            (EncoderStage::Converting { high_depth }, EncoderOpenReply::Conversion { ok }) => if ok {
                &&& after.stage == (EncoderStage::Ready { high_depth })
                &&& call == (EncoderOpenCall::Ready { high_depth })
            } else {
                &&& after.stage is Over
                &&& call == (EncoderOpenCall::Failed { error: EncodeError::SwsConvert })
            },
            _ => true,
        }
    }

    /// Replies still to come, at most.
    pub open spec fn steps_left(&self) -> int {
        let n = hw_encoders(self.job).len();
        match self.stage {
            EncoderStage::FindingHw { candidate } => 2 * (n - candidate) + 4,
            EncoderStage::OpeningHw { candidate } => 2 * (n - candidate) + 3,
            EncoderStage::FindingSw => 4,
            EncoderStage::OpeningSw => 3,
            EncoderStage::AllocatingFrame { .. } => 2,
            EncoderStage::Converting { .. } => 1,
            EncoderStage::Ready { .. } | EncoderStage::Over => 0,
        }
    }

    fn try_candidate(&mut self, candidate: usize) -> (r: EncoderOpenCall)
        requires
            names(old(self).candidates@) == hw_encoders(old(self).job),
        ensures
            final(self).inv(),
            final(self).job == old(self).job,
            final(self).candidates == old(self).candidates,
            final(self).tries(candidate as int, r),
    {
        assert(names(self.candidates@).len() == self.candidates@.len());
        if candidate < self.candidates.len() {
            self.stage = EncoderStage::FindingHw { candidate };
            assert(names(self.candidates@)[candidate as int] == self.candidates@[candidate as int]@);
            EncoderOpenCall::FindByName { name: self.candidates[candidate] }
        } else {
            self.stage = EncoderStage::FindingSw;
            EncoderOpenCall::FindById { id: self.job.video_codec.ffmpeg_id() }
        }
    }

    fn alloc_frame(&mut self, hw: bool) -> (r: EncoderOpenCall)
        ensures
            *final(self) == (VideoEncoderOpening {
                stage: EncoderStage::AllocatingFrame { hw },
                ..*old(self)
            }),
            r == (EncoderOpenCall::AllocFrame {
                pix_fmt: old(self).job.pix_fmt(hw),
                width: old(self).job.width as i32,
                height: old(self).job.height as i32,
            }),
    {
        self.stage = EncoderStage::AllocatingFrame { hw };
        EncoderOpenCall::AllocFrame {
            pix_fmt: self.job.encoder_pix_fmt(hw),
            width: self.job.width as i32,
            height: self.job.height as i32,
        }
    }

    fn fail(&mut self, error: EncodeError) -> (r: EncoderOpenCall)
        ensures
            *final(self) == (VideoEncoderOpening { stage: EncoderStage::Over, ..*old(self) }),
            r == (EncoderOpenCall::Failed { error }),
    {
        self.stage = EncoderStage::Over;
        EncoderOpenCall::Failed { error }
    }

    /// Take what came of the last call and say what to do next.
    pub fn resume(&mut self, reply: EncoderOpenReply) -> (r: EncoderOpenCall)
        requires
            old(self).inv(),
            old(self).answers(reply),
        ensures
            final(self).inv(),
            final(self).job == old(self).job,
            final(self).candidates == old(self).candidates,
            old(self).follows(reply, *final(self), r),
    {
        assert(names(self.candidates@).len() == self.candidates@.len());
        assert(self.candidates.len() == self.candidates@.len());
        match (self.stage, reply) {
            (EncoderStage::FindingHw { candidate }, EncoderOpenReply::Found { found }) => {
                if found {
                    self.stage = EncoderStage::OpeningHw { candidate };
                    assert(names(self.candidates@)[candidate as int]
                        == self.candidates@[candidate as int]@);
                    let plan = open_codec_context(&self.job, Some(self.candidates[candidate]));
                    EncoderOpenCall::OpenContext { plan }
                } else {
                    self.try_candidate(candidate + 1)
                }
            },
            (EncoderStage::OpeningHw { candidate }, EncoderOpenReply::Context { status }) => {
                if status < 0 {
                    self.try_candidate(candidate + 1)
                } else {
                    self.alloc_frame(true)
                }
            },
            (EncoderStage::FindingSw, EncoderOpenReply::Found { found }) => {
                if found {
                    self.stage = EncoderStage::OpeningSw;
                    let plan = open_codec_context(&self.job, None);
                    EncoderOpenCall::OpenContext { plan }
                } else {
                    self.fail(EncodeError::CodecNotFound)
                }
            },
            (EncoderStage::OpeningSw, EncoderOpenReply::Context { status }) => {
                if status < 0 {
                    let mut text = String::from_str("Failed to open video codec context: error ");
                    text.append(signed_str(status as i64).as_str());
                    self.fail(EncodeError::Open(text))
                } else {
                    self.alloc_frame(false)
                }
            },
            (EncoderStage::AllocatingFrame { hw }, EncoderOpenReply::Frame { ok, depth }) => {
                if ok {
                    let high_depth: bool = pix_fmt_is_high_depth(depth);
                    self.stage = EncoderStage::Converting { high_depth };
                    EncoderOpenCall::SetUpConversion {
                        src_pix_fmt: if high_depth { AV_PIX_FMT_RGBA64 } else { AV_PIX_FMT_RGBA },
                        dst_pix_fmt: self.job.encoder_pix_fmt(hw),
                        width: self.job.width as i32,
                        height: self.job.height as i32,
                        flags: SWS_POINT,
                        dst_colorspace: self.job.sws_colorspace(),
                        dst_range: self.job.sws_dst_range(),
                    }
                } else {
                    self.fail(EncodeError::Alloc)
                }
            },
            (EncoderStage::Converting { high_depth }, EncoderOpenReply::Conversion { ok }) => {
                if ok {
                    self.stage = EncoderStage::Ready { high_depth };
                    EncoderOpenCall::Ready { high_depth }
                } else {
                    self.fail(EncodeError::SwsConvert)
                }
            },
            _ => self.fail(EncodeError::Alloc),
        }
    }

    /// The encoder, once it is open; `ctx` is the application's handle of its context.
    pub fn encoder(self, ctx: u64) -> (r: VideoEncoder)
        requires
            self.stage is Ready,
        ensures
            r == (VideoEncoder {
                ctx,
                width: self.job.width,
                height: self.job.height,
                high_depth: self.stage->Ready_high_depth,
                frame_count: 0,
                rgb_buf: r.rgb_buf,
                phase: EncodePhase::Idle,
            }),
            r.rgb_buf@.len() == 0,
    {
        let high_depth: bool = match self.stage {
            EncoderStage::Ready { high_depth } => high_depth,
            _ => false,
        };
        VideoEncoder {
            ctx,
            width: self.job.width,
            height: self.job.height,
            high_depth,
            frame_count: 0,
            rgb_buf: Vec::new(),
            phase: EncodePhase::Idle,
        }
    }
}

/// What the caller has to do next to encode a frame.
pub enum EncodeCall {
    /// Convert the packed pixels, `bytes_per_row` to a row, into the encoder's frame, give
    /// the frame its time and duration, and send it.
    ConvertAndSend { bytes_per_row: u32, rows: u32, pts: i64, duration: i64 },
    /// Send the frame once more.
    Resend,
    /// Send the end of the stream; how that ends does not matter.
    SendEnd,
    /// Take every packet the encoder has ready.
    Drain,
    Done,
    Failed { error: EncodeError },
}

/// What came of it.
#[derive(Debug, Clone, Copy, PartialEq, Eq, Structural)]
pub enum EncodeReply {
    Sent { status: i32 },
    Drained,
}

/// What the encoder is waiting for.
#[derive(Debug, Clone, Copy, PartialEq, Eq, Structural)]
pub enum EncodePhase {
    Idle,
    Sending,
    /// Making room before the frame is sent again.
    MakingRoom,
    Resending,
    Draining,
    SendingEnd,
}

/// The text of a refused frame.
pub open spec fn send_failed_text(status: int) -> Seq<char> {
    "avcodec_send_frame failed: "@ + signed_decimal(status)
}

/// The bits of the half-precision sample `i` of `data`.
pub open spec fn half_bits(data: Seq<u8>, i: int) -> u16 {
    (data[2 * i] + 0x100 * data[2 * i + 1]) as u16
}

/// An open libavcodec encoder.
pub struct VideoEncoder {
    /// The application's handle of the encoder context.
    pub ctx: u64,
    pub width: u32,
    pub height: u32,
    /// The encoder is fed with more than 8 bits per component.
    pub high_depth: bool,
    pub frame_count: i64,
    /// The packed pixels of the current frame.
    pub rgb_buf: Vec<u8>,
    pub phase: EncodePhase,
}

impl VideoEncoder {
    /// Start opening an encoder for `job`.
    pub fn open(job: ExportJob) -> (r: (VideoEncoderOpening, EncoderOpenCall))
        ensures
            r.0.inv(),
            r.0.job == job,
            r.0.tries(0, r.1),
    {
        let candidates: Vec<&'static str> = hw_candidates(&job);
        let mut opening = VideoEncoderOpening { job, candidates, stage: EncoderStage::Over };
        let call = opening.try_candidate(0);
        (opening, call)
    }

    /// Bytes of a packed pixel.
    pub open spec fn bytes_per_px(&self) -> int {
        if self.high_depth { 8 } else { 4 }
    }

    /// A frame of eight bytes per pixel fits the machine's integers.
    pub open spec fn frame_fits(&self) -> bool {
        &&& self.width * self.height <= u32::MAX
        &&& self.width * self.height * 8 <= usize::MAX
        &&& self.width * 8 <= u32::MAX
    }

    /// Pack half-precision RGBA into 8-bit RGBA, sample by sample.
    fn rgba16f_to_rgba8<F: Fn(u16) -> u8>(&mut self, data: &Vec<u8>, quantise: F)
        requires
            old(self).frame_fits(),
            data@.len() >= old(self).width * old(self).height * 8,
            forall|bits: u16| #[trigger] call_requires(quantise, (bits,)),
        ensures
            *final(self) == (VideoEncoder { rgb_buf: final(self).rgb_buf, ..*old(self) }),
            final(self).rgb_buf@.len() == old(self).width * old(self).height * 4,
            forall|i: int|
                0 <= i < final(self).rgb_buf@.len() ==> call_ensures(
                    quantise,
                    (half_bits(data@, i),),
                    #[trigger] final(self).rgb_buf@[i],
                ),
    {
        let samples: usize = (self.width * self.height) as usize * 4;
        let mut out: Vec<u8> = Vec::with_capacity(samples);
        let mut i: usize = 0;
        while i < samples
            invariant
                i <= samples,
                samples * 2 <= data@.len(),
                out@.len() == i,
                forall|bits: u16| #[trigger] call_requires(quantise, (bits,)),
                forall|k: int|
                    0 <= k < i ==> call_ensures(
                        quantise,
                        (half_bits(data@, k),),
                        #[trigger] out@[k],
                    ),
            decreases samples - i,
        {
            assert(data.len() == data@.len());
            let bits: u16 = data[2 * i] as u16 + 0x100 * data[2 * i + 1] as u16;
            assert(bits == half_bits(data@, i as int));
            let level: u8 = quantise(bits);
            out.push(level);
            i += 1;
        }
        self.rgb_buf = out;
    }

    /// Pack half-precision RGBA into 16-bit little-endian RGBA, sample by sample.
    fn rgba16f_to_rgba64<G: Fn(u16) -> u16>(&mut self, data: &Vec<u8>, quantise: G)
        requires
            old(self).frame_fits(),
            data@.len() >= old(self).width * old(self).height * 8,
            forall|bits: u16| #[trigger] call_requires(quantise, (bits,)),
        ensures
            *final(self) == (VideoEncoder { rgb_buf: final(self).rgb_buf, ..*old(self) }),
            final(self).rgb_buf@.len() == old(self).width * old(self).height * 8,
            forall|i: int|
                0 <= i < old(self).width * old(self).height * 4 ==> call_ensures(
                    quantise,
                    (half_bits(data@, i),),
                    #[trigger] half_bits(final(self).rgb_buf@, i),
                ),
    {
        let samples: usize = (self.width * self.height) as usize * 4;
        let mut out: Vec<u8> = Vec::with_capacity(samples * 2);
        let mut i: usize = 0;
        while i < samples
            invariant
                i <= samples,
                samples * 2 <= data@.len(),
                out@.len() == 2 * i,
                forall|bits: u16| #[trigger] call_requires(quantise, (bits,)),
                forall|k: int|
                    0 <= k < i ==> call_ensures(
                        quantise,
                        (half_bits(data@, k),),
                        #[trigger] half_bits(out@, k),
                    ),
            decreases samples - i,
        {
            assert(data.len() == data@.len());
            let ghost before = out@;
            let bits: u16 = data[2 * i] as u16 + 0x100 * data[2 * i + 1] as u16;
            assert(bits == half_bits(data@, i as int));
            let level: u16 = quantise(bits);
            out.push((level % 0x100) as u8);
            out.push((level / 0x100) as u8);
            proof {
                assert(half_bits(out@, i as int) == level);
                assert forall|k: int| 0 <= k < i implies call_ensures(
                    quantise,
                    (half_bits(data@, k),),
                    #[trigger] half_bits(out@, k),
                ) by {
                    assert(out@[2 * k] == before[2 * k]);
                    assert(out@[2 * k + 1] == before[2 * k + 1]);
                    assert(half_bits(out@, k) == half_bits(before, k));
                }
            }
            i += 1;
        }
        self.rgb_buf = out;
    }

    /// `after` is the encoder with the samples in `data` packed, and `call` sends them.
    pub open spec fn packs<F: Fn(u16) -> u8, G: Fn(u16) -> u16>(
        &self,
        data: Seq<u8>,
        to8: F,
        to16: G,
        after: VideoEncoder,
        call: EncodeCall,
    ) -> bool {
        &&& after == (VideoEncoder {
            frame_count: (self.frame_count + 1) as i64,
            phase: EncodePhase::Sending,
            rgb_buf: after.rgb_buf,
            ..*self
        })
        &&& after.rgb_buf@.len() == self.width * self.height * self.bytes_per_px()
        &&& !self.high_depth ==> forall|i: int|
            0 <= i < self.width * self.height * 4 ==> call_ensures(
                to8,
                (half_bits(data, i),),
                #[trigger] after.rgb_buf@[i],
            )
        &&& self.high_depth ==> forall|i: int|
            0 <= i < self.width * self.height * 4 ==> call_ensures(
                to16,
                (half_bits(data, i),),
                #[trigger] half_bits(after.rgb_buf@, i),
            )
        &&& call == (EncodeCall::ConvertAndSend {
            bytes_per_row: (self.width * self.bytes_per_px()) as u32,
            rows: self.height,
            pts: self.frame_count,
            duration: 1,
        })
    }

    /// Start encoding a rendered frame.
    ///
    /// `to8` and `to16` turn the bits of a half-precision sample into a level of the packed
    /// format; the first is used for 8-bit encoders, the second for the others.  The frame's
    /// time is its place in the order of encoding.
    pub fn encode_frame<F: Fn(u16) -> u8, G: Fn(u16) -> u16>(
        &mut self,
        frame: &RawFrame,
        to8: F,
        to16: G,
    ) -> (r: EncodeCall)
        requires
            old(self).phase is Idle,
            old(self).frame_count < i64::MAX,
            old(self).frame_fits(),
            frame.data@.len() >= old(self).width * old(self).height * 8,
            forall|bits: u16| #[trigger] call_requires(to8, (bits,)),
            forall|bits: u16| #[trigger] call_requires(to16, (bits,)),
        ensures
            old(self).packs(frame.data@, to8, to16, *final(self), r),
    {
        let bytes_per_row: u32 = if self.high_depth {
            self.rgba16f_to_rgba64(&frame.data, to16);
            self.width * 8
        } else {
            self.rgba16f_to_rgba8(&frame.data, to8);
            self.width * 4
        };
        let pts: i64 = self.frame_count;
        self.frame_count = pts + 1;
        self.phase = EncodePhase::Sending;
        EncodeCall::ConvertAndSend { bytes_per_row, rows: self.height, pts, duration: 1 }
    }

    /// Start taking out what the encoder still holds.
    pub fn flush(&mut self) -> (r: EncodeCall)
        requires
            old(self).phase is Idle,
        ensures
            *final(self) == (VideoEncoder { phase: EncodePhase::SendingEnd, ..*old(self) }),
            r is SendEnd,
    {
        self.phase = EncodePhase::SendingEnd;
        EncodeCall::SendEnd
    }

    pub open spec fn answers(&self, reply: EncodeReply) -> bool {
        match reply {
            EncodeReply::Sent { .. } => self.phase is Sending || self.phase is Resending
                || self.phase is SendingEnd,
            EncodeReply::Drained => self.phase is MakingRoom || self.phase is Draining,
        }
    }

    /// What follows `reply` in the encoder `after` of `self`.
    pub open spec fn follows(&self, reply: EncodeReply, after: Self, call: EncodeCall) -> bool {
        &&& after == (VideoEncoder { phase: after.phase, ..*self })
        &&& match (self.phase, reply) {
            (EncodePhase::Sending, EncodeReply::Sent { status }) => if status < 0 && status
                != AVERROR_EOF {
                after.phase is MakingRoom && call is Drain
            } else if status < 0 {
                &&& after.phase is Idle
                &&& call matches EncodeCall::Failed { error: EncodeError::Send(text) } && text@
                    == send_failed_text(status as int)
            } else {
                after.phase is Draining && call is Drain
            },
            (EncodePhase::MakingRoom, _) => after.phase is Resending && call is Resend,
            (EncodePhase::Resending, EncodeReply::Sent { status }) => if status < 0 {
                &&& after.phase is Idle
                &&& call matches EncodeCall::Failed { error: EncodeError::Send(text) } && text@
                    == send_failed_text(status as int)
            } else {
                after.phase is Draining && call is Drain
            },
            (EncodePhase::SendingEnd, _) => after.phase is Draining && call is Drain,
            _ => after.phase is Idle && call is Done,
        }
    }

    /// Take what came of the last call and say what to do next.
    ///
    /// A refused frame is sent once more after a drain, unless the encoder is at its end.
    pub fn resume(&mut self, reply: EncodeReply) -> (r: EncodeCall)
        requires
            old(self).answers(reply),
        ensures
            old(self).follows(reply, *final(self), r),
    {
        match reply {
            EncodeReply::Sent { status } => {
                if self.phase == EncodePhase::SendingEnd {
                    self.phase = EncodePhase::Draining;
                    return EncodeCall::Drain;
                }
                if self.phase == EncodePhase::Sending && status < 0 && status != AVERROR_EOF {
                    self.phase = EncodePhase::MakingRoom;
                    return EncodeCall::Drain;
                }
                if status < 0 {
                    self.phase = EncodePhase::Idle;
                    let mut text = String::from_str("avcodec_send_frame failed: ");
                    text.append(signed_str(status as i64).as_str());
                    return EncodeCall::Failed { error: EncodeError::Send(text) };
                }
                self.phase = EncodePhase::Draining;
                EncodeCall::Drain
            },
            EncodeReply::Drained => {
                if self.phase == EncodePhase::MakingRoom {
                    self.phase = EncodePhase::Resending;
                    EncodeCall::Resend
                } else {
                    self.phase = EncodePhase::Idle;
                    EncodeCall::Done
                }
            },
        }
    }

    /// The handle of the encoder context.
    pub fn codec_ctx(&self) -> (r: u64)
        ensures
            r == self.ctx,
    {
        self.ctx
    }
}

/// The duration a packet is muxed with.
pub open spec fn muxed_duration(duration: i64) -> i64 {
    if duration == 0 { 1 } else { duration }
}

/// The duration a packet is muxed with: a packet that has none gets one tick, so that the
/// last frame of the file is not cut off.
pub fn packet_duration(duration: i64) -> (r: i64)
    ensures
        r == muxed_duration(duration),
        r != 0,
{
    if duration == 0 {
        1
    } else {
        duration
    }
}

/// Fields of a container packet.
#[derive(Debug, Clone, Copy, PartialEq, Eq, Structural)]
pub struct PacketFields {
    pub size: i32,
    pub pts: i64,
    pub dts: i64,
    pub duration: i64,
    pub flags: i32,
}

/// The fields of an encoded picture's packet.
pub open spec fn fields_of(packet: EncodedPacket) -> PacketFields {
    PacketFields {
        size: packet.bytes@.len() as i32,
        pts: packet.pts,
        dts: packet.dts,
        duration: 1,
        flags: if packet.is_keyframe { AV_PKT_FLAG_KEY } else { 0 },
    }
}

/// The container packet of an encoded picture.
pub fn write_nvenc_packet(packet: &EncodedPacket) -> (r: PacketFields)
    ensures
        r == fields_of(*packet),
{
    PacketFields {
        size: packet.bytes.len() as i32,
        pts: packet.pts,
        dts: packet.dts,
        duration: 1,
        flags: if packet.is_keyframe { AV_PKT_FLAG_KEY } else { 0 },
    }
}

/// The packets that carry anything, in order.
pub open spec fn carrying(packets: Seq<PacketView>) -> Seq<PacketView> {
    packets.filter(|p: PacketView| p.bytes.len() > 0)
}

/// The packets to write, in decode order: those that are not empty.
pub fn packets_to_mux(packets: Vec<EncodedPacket>) -> (r: Vec<EncodedPacket>)
    ensures
        r@.map_values(|p: EncodedPacket| p@) == carrying(
            packets@.map_values(|p: EncodedPacket| p@),
        ),
{
    let ghost all = packets@.map_values(|p: EncodedPacket| p@);
    let mut rest: Vec<EncodedPacket> = packets;
    let mut kept: Vec<EncodedPacket> = Vec::new();
    let n: usize = rest.len();
    let mut i: usize = 0;
    assert(all.take(0).filter(|p: PacketView| p.bytes.len() > 0) =~= Seq::empty()) by {
        reveal(Seq::filter);
    }
    assert(kept@.map_values(|p: EncodedPacket| p@) =~= carrying(all.take(0)));
    while i < n
        invariant
            i <= n == all.len(),
            rest@.len() == n - i,
            rest@.map_values(|p: EncodedPacket| p@) == all.subrange(i as int, n as int),
            kept@.map_values(|p: EncodedPacket| p@) == carrying(all.take(i as int)),
        decreases n - i,
    {
        let ghost before = rest@;
        let packet = rest.remove(0);
        proof {
            assert(packet@ == all[i as int]) by {
                assert(before.map_values(|p: EncodedPacket| p@)[0] == all.subrange(
                    i as int,
                    n as int,
                )[0]);
            }
            assert(rest@.map_values(|p: EncodedPacket| p@) =~= all.subrange(i + 1, n as int)) by {
                assert forall|k: int| 0 <= k < rest@.len() implies rest@[k]@ == all[i + 1 + k] by {
                    assert(before.map_values(|p: EncodedPacket| p@)[k + 1] == all.subrange(
                        i as int,
                        n as int,
                    )[k + 1]);
                }
            }
            assert(all.take(i + 1).drop_last() =~= all.take(i as int));
            reveal(Seq::filter);
        }
        let ghost prior = kept@.map_values(|p: EncodedPacket| p@);
        if packet.bytes.len() > 0 {
            kept.push(packet);
            assert(kept@.map_values(|p: EncodedPacket| p@) =~= prior.push(packet@));
        }
        i += 1;
    }
    assert(all.take(i as int) =~= all);
    kept
}

/// What an encode through either backend has to do next.
pub enum BackendCall {
    Ffmpeg { call: EncodeCall },
    Nvenc { call: NvencCall },
}

/// What has to be opened for a job.
#[derive(Debug, Clone, Copy, PartialEq, Eq, Structural)]
pub enum SelectCall {
    /// An encoder of libavcodec.
    OpenFfmpeg,
    /// A direct NVENC session.
    OpenInterop,
}

/// What has to be opened once a direct session has been tried.
pub enum InteropOutcome {
    /// A libavcodec encoder, for the parameters of the stream alone.
    OpenParams { enc: EncodeInterop },
    /// An encoder of libavcodec, to encode with.
    OpenFfmpeg,
}

/// The encoder of an export.
pub enum VideoEncoderBackend {
    /// Frames are read back and encoded by libavcodec, on the GPU where it can.
    FfmpegEncoder(VideoEncoder),
    /// Frames stay on the GPU; `param_enc` describes the stream to the muxer and encodes
    /// nothing.
    CudaNvenc { enc: EncodeInterop, param_enc: VideoEncoder },
}

/// The job can be encoded without its frames leaving the GPU.
pub open spec fn zero_copy(
    job: ExportJob,
    capability: InteropCapability,
    colour_safe: bool,
    cuda: bool,
) -> bool {
    &&& !job.hdr()
    &&& !(capability.transport is Unavailable)
    &&& job.video_codec is H264 || job.video_codec is H265
    &&& colour_safe
    &&& cuda
}

/// What to open for a job.
pub open spec fn selected(
    job: ExportJob,
    capability: InteropCapability,
    colour_safe: bool,
    cuda: bool,
) -> SelectCall {
    if zero_copy(job, capability, colour_safe, cuda) {
        SelectCall::OpenInterop
    } else {
        SelectCall::OpenFfmpeg
    }
}

/// What to open once a direct session has been tried.
pub open spec fn tried(session: Option<EncodeInterop>) -> InteropOutcome {
    match session {
        Some(enc) => InteropOutcome::OpenParams { enc },
        None => InteropOutcome::OpenFfmpeg,
    }
}

/// The direct backend, if the encoder for the parameters could be opened.
pub open spec fn direct_backend(enc: EncodeInterop, params: Result<VideoEncoder, EncodeError>) -> Result<
    VideoEncoderBackend,
    EncodeError,
> {
    match params {
        Ok(param_enc) => Ok(VideoEncoderBackend::CudaNvenc { enc, param_enc }),
        Err(e) => Err(e),
    }
}

/// The libavcodec backend, if its encoder could be opened.
pub open spec fn ffmpeg_backend(enc: Result<VideoEncoder, EncodeError>) -> Result<
    VideoEncoderBackend,
    EncodeError,
> {
    match enc {
        Ok(enc) => Ok(VideoEncoderBackend::FfmpegEncoder(enc)),
        Err(e) => Err(e),
    }
}

/// The backend of a job: `session` is the direct session, if it is tried and opens, and
/// `libav` what came of opening the libavcodec encoder.
pub open spec fn backend_of(
    job: ExportJob,
    capability: InteropCapability,
    colour_safe: bool,
    cuda: bool,
    session: Option<EncodeInterop>,
    libav: Result<VideoEncoder, EncodeError>,
) -> Result<VideoEncoderBackend, EncodeError> {
    match selected(job, capability, colour_safe, cuda) {
        SelectCall::OpenInterop => match tried(session) {
            InteropOutcome::OpenParams { enc } => direct_backend(enc, libav),
            InteropOutcome::OpenFfmpeg => ffmpeg_backend(libav),
        },
        SelectCall::OpenFfmpeg => ffmpeg_backend(libav),
    }
}

impl VideoEncoderBackend {
    /// What to open for the job.
    ///
    /// `colour_safe` says whether the direct session can signal the depth and range of the
    /// output, `cuda` whether there is a CUDA context.  An HDR job never takes the direct
    /// session, which cannot be configured for 10 bits.
    pub fn select(
        job: &ExportJob,
        capability: &InteropCapability,
        colour_safe: bool,
        cuda: bool,
    ) -> (r: SelectCall)
        ensures
            r == selected(*job, *capability, colour_safe, cuda),
    {
        let nvenc_eligible: bool = matches!(job.video_codec, VideoCodec::H264 | VideoCodec::H265);
        if job.is_hdr() {
            return SelectCall::OpenFfmpeg;
        }
        if capability.is_available() && nvenc_eligible {
            if !colour_safe {
                return SelectCall::OpenFfmpeg;
            }
            if cuda {
                return SelectCall::OpenInterop;
            }
        }
        SelectCall::OpenFfmpeg
    }

    /// Go on with the direct session, if there is one.
    pub fn interop_tried(session: Option<EncodeInterop>) -> (r: InteropOutcome)
        ensures
            r == tried(session),
    {
        match session {
            Some(enc) => InteropOutcome::OpenParams { enc },
            None => InteropOutcome::OpenFfmpeg,
        }
    }

    /// The direct backend, once the encoder for the parameters has been opened.
    pub fn with_session(enc: EncodeInterop, params: Result<VideoEncoder, EncodeError>) -> (r: Result<
        Self,
        EncodeError,
    >)
        ensures
            r == direct_backend(enc, params),
    {
        match params {
            Ok(param_enc) => Ok(VideoEncoderBackend::CudaNvenc { enc, param_enc }),
            Err(e) => Err(e),
        }
    }

    /// The libavcodec backend, once its encoder has been opened.
    pub fn with_ffmpeg(enc: Result<VideoEncoder, EncodeError>) -> (r: Result<Self, EncodeError>)
        ensures
            r == ffmpeg_backend(enc),
    {
        match enc {
            Ok(enc) => Ok(VideoEncoderBackend::FfmpegEncoder(enc)),
            Err(e) => Err(e),
        }
    }

    /// The error of an operation in which the direct session failed; `detail` is what it
    /// said.
    pub fn interop_failed(flushing: bool, detail: &str) -> (r: EncodeError)
        ensures
            r matches EncodeError::Interop(text) && text@ == if flushing {
                "NVENC flush failed: "@ + detail@
            } else {
                detail@
            },
    {
        if flushing {
            let mut text = String::from_str("NVENC flush failed: ");
            text.append(detail);
            EncodeError::Interop(text)
        } else {
            EncodeError::Interop(String::from_str(detail))
        }
    }

    /// No operation is under way.
    pub open spec fn ready(&self) -> bool {
        match self {
            VideoEncoderBackend::FfmpegEncoder(enc) => enc.phase is Idle,
            VideoEncoderBackend::CudaNvenc { enc, .. } => enc@.inv() && enc@.task is Idle,
        }
    }

    /// Start encoding a frame.  The direct session takes the picture from its first slot,
    /// and reads nothing of the frame but its time.
    pub fn encode_frame<F: Fn(u16) -> u8, G: Fn(u16) -> u16>(
        &mut self,
        frame: &RawFrame,
        to8: F,
        to16: G,
    ) -> (r: BackendCall)
        requires
            old(self).ready(),
            *old(self) matches VideoEncoderBackend::FfmpegEncoder(enc) ==> {
                &&& enc.frame_count < i64::MAX
                &&& enc.frame_fits()
                &&& frame.data@.len() >= enc.width * enc.height * 8
            },
            forall|bits: u16| #[trigger] call_requires(to8, (bits,)),
            forall|bits: u16| #[trigger] call_requires(to16, (bits,)),
        ensures
            match (*old(self), *final(self)) {
                (
                    VideoEncoderBackend::FfmpegEncoder(before),
                    VideoEncoderBackend::FfmpegEncoder(after),
                ) => {
                    &&& r is Ffmpeg
                    &&& before.packs(frame.data@, to8, to16, after, r->Ffmpeg_call)
                },
                (
                    VideoEncoderBackend::CudaNvenc { enc: before, param_enc: params_before },
                    VideoEncoderBackend::CudaNvenc { enc: after, param_enc: params_after },
                ) => {
                    &&& after@ == before@.after_encode_frame(frame.pts, 0).0
                    &&& after@.inv()
                    &&& r == (BackendCall::Nvenc {
                        call: before@.after_encode_frame(frame.pts, 0).1,
                    })
                    &&& params_after == params_before
                },
                _ => false,
            },
    {
        match self {
            VideoEncoderBackend::FfmpegEncoder(enc) => BackendCall::Ffmpeg {
                call: enc.encode_frame(frame, to8, to16),
            },
            VideoEncoderBackend::CudaNvenc { enc, .. } => BackendCall::Nvenc {
                call: enc.encode_frame(frame.pts, 0),
            },
        }
    }

    /// Start taking out what the encoder still holds.
    pub fn flush(&mut self) -> (r: BackendCall)
        requires
            old(self).ready(),
        ensures
            match (*old(self), *final(self)) {
                (
                    VideoEncoderBackend::FfmpegEncoder(before),
                    VideoEncoderBackend::FfmpegEncoder(after),
                ) => {
                    &&& after == (VideoEncoder { phase: EncodePhase::SendingEnd, ..before })
                    &&& r == (BackendCall::Ffmpeg { call: EncodeCall::SendEnd })
                },
                (
                    VideoEncoderBackend::CudaNvenc { enc: before, param_enc: params_before },
                    VideoEncoderBackend::CudaNvenc { enc: after, param_enc: params_after },
                ) => {
                    &&& after@ == before@.after_flush().0
                    &&& after@.inv()
                    &&& r == (BackendCall::Nvenc { call: before@.after_flush().1 })
                    &&& params_after == params_before
                },
                _ => false,
            },
    {
        match self {
            VideoEncoderBackend::FfmpegEncoder(enc) => BackendCall::Ffmpeg { call: enc.flush() },
            VideoEncoderBackend::CudaNvenc { enc, .. } => BackendCall::Nvenc { call: enc.flush() },
        }
    }

    /// The handle of the context that describes the stream.
    pub fn codec_ctx(&self) -> (r: u64)
        ensures
            r == match self {
                VideoEncoderBackend::FfmpegEncoder(enc) => enc.ctx,
                VideoEncoderBackend::CudaNvenc { param_enc, .. } => param_enc.ctx,
            },
    {
        match self {
            VideoEncoderBackend::FfmpegEncoder(enc) => enc.codec_ctx(),
            VideoEncoderBackend::CudaNvenc { param_enc, .. } => param_enc.codec_ctx(),
        }
    }

    /// The direct session, if that is the backend.
    pub fn nvenc_interop(&self) -> (r: Option<&EncodeInterop>)
        ensures
            match self {
                VideoEncoderBackend::FfmpegEncoder(_) => r is None,
                VideoEncoderBackend::CudaNvenc { enc, .. } => r == Some(enc),
            },
    {
        match self {
            VideoEncoderBackend::CudaNvenc { enc, .. } => Some(enc),
            _ => None,
        }
    }

    /// The direct session, if that is the backend, to be driven.
    pub fn nvenc_interop_mut(&mut self) -> (r: Option<&mut EncodeInterop>)
        ensures
            match *old(self) {
                VideoEncoderBackend::FfmpegEncoder(_) => r is None && *final(self) == *old(self),
                VideoEncoderBackend::CudaNvenc { enc, param_enc } => match r {
                    Some(session) => {
                        &&& *session == enc
                        &&& *final(self) == (VideoEncoderBackend::CudaNvenc {
                            enc: *final(session),
                            param_enc,
                        })
                    },
                    None => false,
                },
            },
    {
        match self {
            VideoEncoderBackend::CudaNvenc { enc, .. } => Some(enc),
            _ => None,
        }
    }
}

/// The direct session is used exactly when the job may take it and the session opens.  A
/// session that does not open is no error, libavcodec encodes instead: only the libavcodec
/// encoder, which describes the stream in either case, can make the choice fail.
pub proof fn law_direct_session_when_eligible_and_open(
    job: ExportJob,
    capability: InteropCapability,
    colour_safe: bool,
    cuda: bool,
    session: Option<EncodeInterop>,
    libav: Result<VideoEncoder, EncodeError>,
)
    ensures
        ({
            let direct = zero_copy(job, capability, colour_safe, cuda) && session is Some;
            match backend_of(job, capability, colour_safe, cuda, session, libav) {
                Ok(VideoEncoderBackend::CudaNvenc { enc, param_enc }) => {
                    &&& direct
                    &&& session == Some(enc)
                    &&& libav == Ok::<VideoEncoder, EncodeError>(param_enc)
                },
                Ok(VideoEncoderBackend::FfmpegEncoder(enc)) => {
                    &&& !direct
                    &&& libav == Ok::<VideoEncoder, EncodeError>(enc)
                },
                Err(e) => libav == Err::<VideoEncoder, EncodeError>(e),
            }
        }),
{
}

/// A 10-bit job is never encoded by the direct session, whatever the machine offers.
pub proof fn law_hdr_never_takes_the_direct_session(
    job: ExportJob,
    capability: InteropCapability,
    colour_safe: bool,
    cuda: bool,
)
    requires
        job.bit_depth() > 8,
    ensures
        !zero_copy(job, capability, colour_safe, cuda),
{
}

/// Opening an encoder ends: every reply moves it on, past one candidate after the other, to
/// the software encoder, and from there to its end.
pub proof fn law_opening_moves_on(
    before: VideoEncoderOpening,
    reply: EncoderOpenReply,
    after: VideoEncoderOpening,
    call: EncoderOpenCall,
)
    requires
        before.inv(),
        before.answers(reply),
        after.job == before.job,
        before.follows(reply, after, call),
        hw_encoders(before.job).len() <= usize::MAX,
    ensures
        before.steps_left() > after.steps_left() >= 0,
        after.stage is Ready <==> call is Ready,
        after.stage is Over <==> call is Failed,
        after.steps_left() == 0 <==> call is Ready || call is Failed,
{
    assert(names(before.candidates@).len() == before.candidates@.len());
}

/// The software encoder is the last resort: an opening that fails to open a context has
/// tried every hardware candidate first.
pub proof fn law_software_comes_last(
    before: VideoEncoderOpening,
    reply: EncoderOpenReply,
    after: VideoEncoderOpening,
    call: EncoderOpenCall,
)
    requires
        before.inv(),
        before.answers(reply),
        after.job == before.job,
        before.follows(reply, after, call),
        after.stage is FindingSw,
    ensures
        match before.stage {
            EncoderStage::FindingHw { candidate } => candidate == hw_encoders(before.job).len() - 1
                && reply == (EncoderOpenReply::Found { found: false }),
            EncoderStage::OpeningHw { candidate } => candidate == hw_encoders(before.job).len() - 1
                && (reply matches EncoderOpenReply::Context { status } && status < 0),
            _ => false,
        },
{
    assert(names(before.candidates@).len() == before.candidates@.len());
}

/// The encoder is one that this knows how to set up.
pub open spec fn known_encoder(hw_name: Option<Seq<char>>) -> bool {
    hw_name matches Some(name) ==> occurs(name, "nvenc"@) || occurs(name, "amf"@) || occurs(
        name,
        "qsv"@,
    )
}

/// Every quality a job asks for reaches the encoder, in software and on the hardware that is
/// known: a bit rate as the encoder's bit rate, with no option that says otherwise; a constant
/// quality as the value of exactly one option, named as the encoder names it, with no bit
/// rate.
pub proof fn law_the_quality_asked_for_is_set(
    plan: EncoderPlan,
    job: ExportJob,
    hw_name: Option<Seq<char>>,
)
    requires
        plan.is_for(job, hw_name),
        known_encoder(hw_name),
    ensures
        ({
            let options = plan.option_views();
            match job.quality {
                VideoQuality::TargetBitrate(bps) => {
                    &&& plan.bit_rate == Some(bps as i64)
                    &&& forall|i: int|
                        0 <= i < options.len() ==> (#[trigger] options[i]).key == "preset"@
                            || options[i].key == "quality"@
                    &&& hw_name is None ==> options.len() == 0
                },
                VideoQuality::Crf(q) => {
                    &&& plan.bit_rate is None
                    &&& options.len() == 2
                    &&& options[1].value == decimal(q as int)
                    &&& options[0].value != decimal(q as int)
                    &&& hw_name is None ==> options[1].key == "crf"@
                    &&& hw_name matches Some(name) ==> {
                        &&& occurs(name, "nvenc"@) ==> options[1].key == "cq"@
                        &&& !occurs(name, "nvenc"@) && occurs(name, "amf"@) ==> options[1].key
                            == "qvbr_quality_level"@
                        &&& !occurs(name, "nvenc"@) && !occurs(name, "amf"@) ==> options[1].key
                            == "global_quality"@
                    }
                },
            }
        }),
{
    if let VideoQuality::Crf(q) = job.quality {
        law_decimals_read_back(q as int);
        let text = decimal(q as int);
        reveal_strlit("p4");
        reveal_strlit("speed");
        reveal_strlit("veryfast");
        reveal_strlit("ultrafast");
        reveal_strlit("superfast");
        reveal_strlit("faster");
        reveal_strlit("fast");
        reveal_strlit("medium");
        reveal_strlit("slow");
        reveal_strlit("slower");
        reveal_strlit("veryslow");
        assert('0' <= text[0] <= '9');
        assert(plan.option_views()[0].value[0] != text[0]);
    }
}

/// How fast an encoder is told to be: the job's own preset in software, where a quality is
/// asked for; the fourth of NVENC's presets, the speed of AMF, and the fastest but two of
/// Quick Sync otherwise.  An encoder that is not known gets no option at all.
pub proof fn law_the_speed_is_set(plan: EncoderPlan, job: ExportJob, hw_name: Option<Seq<char>>)
    requires
        plan.is_for(job, hw_name),
    ensures
        ({
            let options = plan.option_views();
            match hw_name {
                None => job.quality is Crf ==> options[0].key == "preset"@ && options[0].value
                    == job.cpu_preset.name(),
                Some(name) => {
                    let (nvenc, amf, qsv) = (
                        occurs(name, "nvenc"@),
                        occurs(name, "amf"@),
                        occurs(name, "qsv"@),
                    );
                    &&& nvenc ==> options[0].key == "preset"@ && options[0].value == "p4"@
                    &&& !nvenc && amf ==> options[0].key == "quality"@ && options[0].value
                        == "speed"@
                    &&& !nvenc && !amf && qsv ==> options[0].key == "preset"@ && options[0].value
                        == "veryfast"@
                    &&& !nvenc && !amf && !qsv ==> options.len() == 0 && plan.bit_rate is None
                },
            }
        }),
{
}

/// An encoder works in the job's own terms: its extent and colour, the metadata of its
/// mastering, one tick of its clock to a frame at the job's rate, headers where the container
/// wants them, and a pixel format that carries the depth.
pub proof fn law_the_encoder_is_set_up_for_the_job(
    plan: EncoderPlan,
    job: ExportJob,
    hw_name: Option<Seq<char>>,
)
    requires
        plan.is_for(job, hw_name),
        0 < job.frame_rate.num <= i32::MAX,
        0 < job.frame_rate.den <= i32::MAX,
        job.width <= i32::MAX,
        job.height <= i32::MAX,
    ensures
        ({
            let hdr = job.output_color.transfer_fn is Pq || job.output_color.transfer_fn is Hlg;
            &&& (plan.width, plan.height) == (job.width as i32, job.height as i32)
            &&& plan.time_base_num * job.frame_rate.num == plan.time_base_den * job.frame_rate.den
            &&& plan.time_base_num == job.frame_rate.den
            &&& plan.color == job.output_color
            &&& plan.hdr10 == job.hdr10
            &&& plan.global_header <==> job.container is Mp4 || job.container is Mov
            &&& (plan.gop_size, plan.thread_count, plan.chroma_location) == (12i32, 0i32, 1i32)
            &&& job.video_codec is ProRes ==> plan.pix_fmt == 64
            &&& !(job.video_codec is ProRes) ==> plan.pix_fmt == if hdr {
                if hw_name is Some { 158i32 } else { 62 }
            } else {
                if hw_name is Some { 23i32 } else { 0 }
            }
        }),
{
    let (n, d) = (job.frame_rate.num as int, job.frame_rate.den as int);
    assert(d * n == n * d) by (nonlinear_arith);
}

/// The hardware encoders that are tried are of the job's codec, NVENC before AMF before Quick
/// Sync; there is none for ProRes and VP9, nor for a PQ or HLG output in H.264.
pub proof fn law_hardware_is_of_the_codec(job: ExportJob)
    ensures
        ({
            let hdr = job.output_color.transfer_fn is Pq || job.output_color.transfer_fn is Hlg;
            let tried = hw_encoders(job);
            &&& job.video_codec is H264 && !hdr ==> tried == seq![
                "h264_nvenc"@,
                "h264_amf"@,
                "h264_qsv"@,
            ]
            &&& job.video_codec is H264 && hdr ==> tried.len() == 0
            &&& job.video_codec is H265 ==> tried == seq!["hevc_nvenc"@, "hevc_amf"@, "hevc_qsv"@]
            &&& job.video_codec is ProRes || job.video_codec is Vp9 ==> tried.len() == 0
            &&& forall|i: int| 0 <= i < tried.len() ==> known_encoder(Some(#[trigger] tried[i]))
        }),
{
    reveal_strlit("h264_nvenc");
    reveal_strlit("h264_amf");
    reveal_strlit("h264_qsv");
    reveal_strlit("hevc_nvenc");
    reveal_strlit("hevc_amf");
    reveal_strlit("hevc_qsv");
    reveal_strlit("nvenc");
    reveal_strlit("amf");
    reveal_strlit("qsv");
    assert(occurs_at("h264_nvenc"@, "nvenc"@, 5));
    assert(occurs_at("h264_amf"@, "amf"@, 5));
    assert(occurs_at("h264_qsv"@, "qsv"@, 5));
    assert(occurs_at("hevc_nvenc"@, "nvenc"@, 5));
    assert(occurs_at("hevc_amf"@, "amf"@, 5));
    assert(occurs_at("hevc_qsv"@, "qsv"@, 5));
}

/// An opening goes on with what has opened: an encoder that is found is configured for the
/// job, one that opens is given a frame of its pixel format, and the conversion into it is set
/// up without scaling from packed pixels of the encoder's depth, to the output's matrix and
/// range.  Only a failure of the software encoder, of the frame or of the conversion ends it,
/// each with its own error.
pub proof fn law_opening_goes_on_with_what_opened(
    before: VideoEncoderOpening,
    reply: EncoderOpenReply,
    after: VideoEncoderOpening,
    call: EncoderOpenCall,
)
    requires
        before.inv(),
        before.answers(reply),
        after.job == before.job,
        before.follows(reply, after, call),
    ensures
        ({
            let job = before.job;
            match reply {
                EncoderOpenReply::Found { found } => {
                    &&& found ==> {
                        &&& call is OpenContext
                        &&& before.stage matches EncoderStage::FindingHw { candidate }
                            ==> call->plan.is_for(job, Some(hw_encoders(job)[candidate as int]))
                        &&& before.stage is FindingSw ==> call->plan.is_for(job, None)
                    }
                    &&& !found && before.stage is FindingSw ==> call == (EncoderOpenCall::Failed {
                        error: EncodeError::CodecNotFound,
                    })
                    &&& !found && before.stage is FindingHw ==> call is FindByName || call is FindById
                },
                EncoderOpenReply::Context { status } => {
                    let hw = before.stage is OpeningHw;
                    &&& status >= 0 ==> call == (EncoderOpenCall::AllocFrame {
                        pix_fmt: job.pix_fmt(hw),
                        width: job.width as i32,
                        height: job.height as i32,
                    })
                    &&& status < 0 && hw ==> call is FindByName || call is FindById
                    &&& status < 0 && !hw ==> call is Failed && call->error is Open
                },
                EncoderOpenReply::Frame { ok, depth } => {
                    &&& ok ==> {
                        &&& call is SetUpConversion
                        &&& call->src_pix_fmt == if depth > 8 { 105i32 } else { 26 }
                        &&& call->dst_pix_fmt == job.pix_fmt(
                            before.stage == (EncoderStage::AllocatingFrame { hw: true }),
                        )
                        &&& call->SetUpConversion_width == job.width as i32
                        &&& call->SetUpConversion_height == job.height as i32
                        &&& call->flags == 0x10
                        &&& call->dst_colorspace == job.sws_matrix()
                        &&& call->dst_range == job.sws_full_range()
                    }
                    &&& !ok ==> call == (EncoderOpenCall::Failed { error: EncodeError::Alloc })
                },
                EncoderOpenReply::Conversion { ok } => {
                    &&& ok ==> call is Ready && before.stage == (EncoderStage::Converting {
                        high_depth: call->Ready_high_depth,
                    })
                    &&& !ok ==> call == (EncoderOpenCall::Failed { error: EncodeError::SwsConvert })
                },
            }
        }),
{
}

/// What is tried next is the next hardware encoder by its name, and behind the last of them
/// the software encoder by the codec's number.
pub proof fn law_the_next_encoder_is_tried(
    opening: VideoEncoderOpening,
    candidate: int,
    call: EncoderOpenCall,
)
    requires
        0 <= candidate,
        opening.tries(candidate, call),
    ensures
        ({
            let tried = hw_encoders(opening.job);
            &&& candidate < tried.len() ==> call is FindByName && call->name@ == tried[candidate]
            &&& candidate >= tried.len() ==> call is FindById && call->id
                == opening.job.video_codec.codec_id()
        }),
{
}

/// A frame that the encoder has no room for is sent once more after packets were taken out,
/// and a second refusal is an error, as is any refusal of an encoder that is at its end.  A
/// frame that was taken, and the end of the stream, are followed by taking packets out, and
/// then the encoder is ready for the next.
pub proof fn law_a_refused_frame_is_sent_once_more(
    before: VideoEncoder,
    reply: EncodeReply,
    after: VideoEncoder,
    call: EncodeCall,
)
    requires
        before.answers(reply),
        before.follows(reply, after, call),
    ensures
        after == (VideoEncoder { phase: after.phase, ..before }),
        match reply {
            EncodeReply::Sent { status } => {
                let first = before.phase is Sending;
                let ending = before.phase is SendingEnd;
                &&& ending ==> call is Drain && after.phase is Draining
                &&& !ending && status >= 0 ==> call is Drain && after.phase is Draining
                &&& first && status < 0 && status != -541478725 ==> call is Drain && after.phase
                    is MakingRoom
                &&& first && status == -541478725 || before.phase is Resending && status < 0 ==> {
                    &&& after.phase is Idle
                    &&& call matches EncodeCall::Failed { error: EncodeError::Send(text) }
                    &&& text@ == "avcodec_send_frame failed: "@ + signed_decimal(status as int)
                }
            },
            EncodeReply::Drained => if before.phase is MakingRoom {
                call is Resend && after.phase is Resending
            } else {
                call is Done && after.phase is Idle
            },
        },
{
}

/// A sample is stored low byte first: the two bytes of a value give the value back, and no
/// other value has the same two bytes.
pub proof fn law_samples_are_little_endian(data: Seq<u8>, i: int, value: u16)
    requires
        0 <= i,
        2 * i + 1 < data.len(),
    ensures
        half_bits(data, i) == value <==> data[2 * i] == value % 256 && data[2 * i + 1] == value
            / 256,
{
}

/// The frames stay on the GPU exactly for an H.264 or H.265 job that is neither PQ nor HLG,
/// whose depth and range the direct session can signal, on a machine with a transport and a
/// CUDA context.
pub proof fn law_zero_copy_needs_all_of_it(
    job: ExportJob,
    capability: InteropCapability,
    colour_safe: bool,
    cuda: bool,
)
    ensures
        selected(job, capability, colour_safe, cuda) is OpenInterop <==> {
            &&& !(job.output_color.transfer_fn is Pq)
            &&& !(job.output_color.transfer_fn is Hlg)
            &&& job.video_codec is H264 || job.video_codec is H265
            &&& !(capability.transport is Unavailable)
            &&& colour_safe
            &&& cuda
        },
        !(selected(job, capability, colour_safe, cuda) is OpenInterop) ==> selected(
            job,
            capability,
            colour_safe,
            cuda,
        ) is OpenFfmpeg,
{
}

/// Only packets that carry something are written, every one of them, in their order.
pub proof fn law_packets_that_carry_something_are_written(packets: Seq<PacketView>)
    ensures
        ({
            let kept = carrying(packets);
            &&& kept.len() <= packets.len()
            &&& forall|i: int| 0 <= i < kept.len() ==> (#[trigger] kept[i]).bytes.len() > 0
            &&& forall|i: int| 0 <= i < kept.len() ==> packets.contains(#[trigger] kept[i])
            &&& forall|p: PacketView|
                packets.contains(p) && p.bytes.len() > 0 ==> #[trigger] kept.contains(p)
            &&& (forall|i: int| 0 <= i < packets.len() ==> (#[trigger] packets[i]).bytes.len() > 0)
                ==> kept == packets
        }),
    decreases packets.len(),
{
    reveal(Seq::filter);
    let kept = carrying(packets);
    if packets.len() > 0 {
        let (rest, last) = (packets.drop_last(), packets.last());
        law_packets_that_carry_something_are_written(rest);
        let prior = carrying(rest);
        assert(kept == if last.bytes.len() > 0 { prior.push(last) } else { prior });
        assert(packets[packets.len() - 1] == last);
        assert forall|i: int| 0 <= i < kept.len() implies packets.contains(#[trigger] kept[i]) by {
            if i < prior.len() {
                assert(rest.contains(prior[i]));
                let k = choose|k: int| 0 <= k < rest.len() && rest[k] == prior[i];
                assert(packets[k] == prior[i]);
            }
        }
        assert forall|p: PacketView| packets.contains(p) && p.bytes.len() > 0 implies
            #[trigger] kept.contains(p) by {
            let k = choose|k: int| 0 <= k < packets.len() && packets[k] == p;
            if k < rest.len() {
                assert(rest[k] == p);
                assert(rest.contains(p));
                assert(prior.contains(p));
                let j = choose|j: int| 0 <= j < prior.len() && prior[j] == p;
                assert(kept[j] == p);
            } else {
                assert(kept[prior.len() as int] == p);
            }
        }
        if forall|i: int| 0 <= i < packets.len() ==> (#[trigger] packets[i]).bytes.len() > 0 {
            assert forall|i: int| 0 <= i < rest.len() implies (#[trigger] rest[i]).bytes.len()
                > 0 by {
                assert(packets[i].bytes.len() > 0);
            }
            assert(kept =~= packets);
        }
    } else {
        assert(kept =~= Seq::empty());
    }
}

/// Every sample of a frame is packed in its place, four to a pixel: each is read low byte
/// first, turned into a level of eight bits, or of sixteen for an encoder of more than eight,
/// and stored low byte first.  The frame is sent under the number of frames before it, one tick
/// long, and counted.
pub proof fn law_every_sample_is_packed<F: Fn(u16) -> u8, G: Fn(u16) -> u16>(
    before: VideoEncoder,
    data: Seq<u8>,
    to8: F,
    to16: G,
    after: VideoEncoder,
    call: EncodeCall,
    i: int,
)
    requires
        before.packs(data, to8, to16, after, call),
        before.frame_count < i64::MAX,
        before.width * before.height <= u32::MAX,
        before.width * 8 <= u32::MAX,
        data.len() >= before.width * before.height * 8,
        0 <= i < before.width * before.height * 4,
    ensures
        ({
            let sample = (data[2 * i] + 256 * data[2 * i + 1]) as u16;
            let packed = after.rgb_buf@;
            &&& !before.high_depth ==> {
                &&& packed.len() == before.width * before.height * 4
                &&& call_ensures(to8, (sample,), packed[i])
                &&& call->bytes_per_row == 4 * before.width
            }
            &&& before.high_depth ==> {
                &&& packed.len() == before.width * before.height * 8
                &&& call_ensures(
                    to16,
                    (sample,),
                    (packed[2 * i] + 256 * packed[2 * i + 1]) as u16,
                )
                &&& call->bytes_per_row == 8 * before.width
            }
            &&& call is ConvertAndSend
            &&& call->rows == before.height
            &&& call->pts == before.frame_count
            &&& call->duration == 1
            &&& after.frame_count == before.frame_count + 1
            &&& after.phase is Sending
        }),
{
    let pixels = before.width * before.height;
    let packed = after.rgb_buf@;
    let sample = half_bits(data, i);
    if before.high_depth {
        assert(before.bytes_per_px() == 8);
        assert(packed.len() == pixels * 8);
        let level = half_bits(packed, i);
        assert(call_ensures(to16, (sample,), level));
    } else {
        assert(before.bytes_per_px() == 4);
        assert(packed.len() == pixels * 4);
        assert(call_ensures(to8, (sample,), packed[i]));
    }
}

/// A packet keeps its times and its length, lasts one tick where nothing else is said, and is
/// marked as a key frame exactly when it is one.
pub proof fn law_packets_keep_their_times(packet: EncodedPacket, duration: i64)
    ensures
        fields_of(packet).pts == packet.pts,
        fields_of(packet).dts == packet.dts,
        packet.bytes@.len() <= i32::MAX ==> fields_of(packet).size == packet.bytes@.len(),
        fields_of(packet).duration == 1,
        fields_of(packet).flags == 1 <==> packet.is_keyframe,
        fields_of(packet).flags == 0 <==> !packet.is_keyframe,
        duration != 0 ==> muxed_duration(duration) == duration,
        muxed_duration(0) == 1,
{
}

} // verus!
