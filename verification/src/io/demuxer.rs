//! Media files taken apart into packets.
use crate::io::ffi::avutil::{AVRational, AVERROR_EOF};
use crate::text::{occurs, occurs_at, str_contains};
use crate::timeline::{ColorInfo, Rational};
use vstd::prelude::*;

verus! {

/// Seek to the key frame at or before the target.
pub const AVSEEK_FLAG_BACKWARD: i32 = 1;

/// A packet of one stream.
#[derive(Debug, Clone, Copy, PartialEq, Eq, Structural)]
pub struct Packet {
    /// The application's handle of the compressed data.
    pub handle: u64,
    pub stream_index: i32,
    /// Presentation time in ticks of the stream; the smallest integer if it is not known.
    pub pts: i64,
    /// Duration in ticks of the stream.
    pub duration: i64,
}

/// What is known of a stream once the file is open.
#[derive(Clone, Copy, Debug, PartialEq, Eq, Structural)]
pub struct StreamInfo {
    pub index: usize,
    pub time_base: Rational,
    pub duration: i64,
    pub codec_id: u32,
    pub frame_rate: Option<Rational>,
    pub width: Option<u32>,
    pub height: Option<u32>,
    pub is_vfr: bool,
    pub color_info: ColorInfo,
    /// The application's handle of the codec parameters.
    pub codecpar: u64,
}

/// Why a file could not be read.
#[derive(Debug)]
pub enum DemuxError {
    InvalidPath,
    Open(String),
    StreamInfo(String),
    NoVideoStream,
    Read(String),
    Seek(String),
    Alloc,
}

/// What the container says of a stream.
pub struct StreamFacts {
    pub time_base: AVRational,
    pub avg_frame_rate: AVRational,
    pub r_frame_rate: AVRational,
    /// Duration of the file in microseconds; not positive if it is not known.
    pub duration_us: i64,
    /// That duration in ticks of the stream.
    pub duration_ticks: i64,
    pub codecpar: u64,
    pub codec_id: u32,
    pub width: i32,
    pub height: i32,
    pub color: ColorInfo,
}

pub open spec fn given(r: AVRational) -> bool {
    r.num != 0 && r.den != 0
}

pub open spec fn ratio(r: AVRational) -> Rational {
    Rational { num: r.num as i64, den: r.den as i64 }
}

/// The extent of a picture, if there is one.
pub open spec fn extent(v: i32) -> Option<u32> {
    if v > 0 { Some(v as u32) } else { None }
}

impl StreamFacts {
    /// The rate the frames are timed with; the measured average where there is no other.
    pub open spec fn rate(&self) -> Option<Rational> {
        if given(self.r_frame_rate) {
            Some(ratio(self.r_frame_rate))
        } else if given(self.avg_frame_rate) {
            Some(ratio(self.avg_frame_rate))
        } else {
            None
        }
    }

    /// Both rates are known, and they are not the same number.
    pub open spec fn rates_differ(&self) -> bool {
        &&& given(self.r_frame_rate)
        &&& given(self.avg_frame_rate)
        &&& self.r_frame_rate.num * self.avg_frame_rate.den != self.avg_frame_rate.num
            * self.r_frame_rate.den
    }

    /// The description of the stream, which is the one at `index`.
    pub open spec fn info(&self, index: usize) -> StreamInfo {
        StreamInfo {
            index,
            time_base: ratio(self.time_base),
            duration: if self.duration_us > 0 { self.duration_ticks } else { 0 },
            codec_id: self.codec_id,
            frame_rate: self.rate(),
            width: extent(self.width),
            height: extent(self.height),
            is_vfr: self.rates_differ(),
            color_info: self.color,
            codecpar: self.codecpar,
        }
    }
}

fn cross(a: i32, b: i32) -> (r: i64)
    ensures
        r == a * b,
{
    assert(-0x4000_0000_0000_0000 <= a * b <= 0x4000_0000_0000_0000) by (nonlinear_arith)
        requires
            -0x8000_0000 <= a <= 0x7fff_ffff,
            -0x8000_0000 <= b <= 0x7fff_ffff,
    ;
    a as i64 * b as i64
}

fn positive(v: i32) -> (r: Option<u32>)
    ensures
        r == extent(v),
{
    if v > 0 {
        Some(v as u32)
    } else {
        None
    }
}

/// The description of the stream at `index`.
pub fn read_stream_info(index: usize, facts: &StreamFacts) -> (r: StreamInfo)
    ensures
        r == facts.info(index),
{
    let r_fr: AVRational = facts.r_frame_rate;
    let avg_fr: AVRational = facts.avg_frame_rate;
    let mut is_vfr: bool = false;
    let frame_rate: Option<Rational> = if r_fr.is_valid() && avg_fr.is_valid() {
        if cross(r_fr.num, avg_fr.den) != cross(avg_fr.num, r_fr.den) {
            is_vfr = true;
        }
        Some(r_fr.to_rational())
    } else if r_fr.is_valid() {
        Some(r_fr.to_rational())
    } else if avg_fr.is_valid() {
        Some(avg_fr.to_rational())
    } else {
        None
    };
    StreamInfo {
        index,
        time_base: facts.time_base.to_rational(),
        duration: if facts.duration_us > 0 { facts.duration_ticks } else { 0 },
        codec_id: facts.codec_id,
        frame_rate,
        width: positive(facts.width),
        height: positive(facts.height),
        is_vfr,
        color_info: facts.color,
        codecpar: facts.codecpar,
    }
}

/// What opening a file has to do next.
pub enum DemuxOpenCall {
    /// Open the file and read its header.
    OpenInput,
    /// Look into the streams.
    FindStreamInfo,
    /// Find the best stream of that kind.
    FindBest { video: bool },
    /// Read what the container says of that stream.
    ReadStream { index: usize },
    /// Allocate the packet that is read into.
    AllocPacket,
    Ready { demuxer: Demuxer },
    /// Close the file if it is open, and give up.
    Failed { error: DemuxError, close: bool },
}

/// What came of it.
pub enum DemuxOpenReply {
    /// A negative status is an error, `text` says which.
    Status { status: i32, text: String },
    /// The index of the stream, negative if there is none.
    Best { index: i32 },
    Stream { facts: StreamFacts },
    Allocated { ok: bool },
}

#[derive(Clone, Copy, Debug, PartialEq, Eq, Structural)]
pub enum DemuxOpenStage {
    Input,
    Info,
    Best { video: bool },
    Stream { video: bool, index: usize },
    Packet,
    Over,
}

/// A file being opened.
pub struct DemuxerOpening {
    pub stage: DemuxOpenStage,
    pub video_stream: Option<StreamInfo>,
    pub audio_stream: Option<StreamInfo>,
}

/// An open file: its best video stream and its best audio stream, where there are any.
#[derive(Clone, Copy, Debug, PartialEq, Eq, Structural)]
pub struct Demuxer {
    pub video_stream: Option<StreamInfo>,
    pub audio_stream: Option<StreamInfo>,
}

/// What reading a packet has to do next.
pub enum ReadCall {
    /// Read the next packet of the file.
    Read,
    /// Drop the packet just read, and read the next one.
    Skip,
    /// Take a reference to the packet just read.
    Keep,
    /// There are no more packets.
    End,
    Packet { packet: Packet },
    Failed { error: DemuxError },
}

impl DemuxerOpening {
    pub open spec fn answers(&self, reply: DemuxOpenReply) -> bool {
        match reply {
            DemuxOpenReply::Status { .. } => self.stage is Input || self.stage is Info,
            DemuxOpenReply::Best { .. } => self.stage is Best,
            DemuxOpenReply::Stream { .. } => self.stage is Stream,
            DemuxOpenReply::Allocated { .. } => self.stage is Packet,
        }
    }

    /// What comes after the streams of that kind.
    pub open spec fn past(self, video: bool) -> (DemuxerOpening, DemuxOpenCall) {
        if video {
            (
                DemuxerOpening { stage: DemuxOpenStage::Best { video: false }, ..self },
                DemuxOpenCall::FindBest { video: false },
            )
        } else {
            (
                DemuxerOpening { stage: DemuxOpenStage::Packet, ..self },
                DemuxOpenCall::AllocPacket,
            )
        }
    }

    pub open spec fn over(self) -> DemuxerOpening {
        DemuxerOpening { stage: DemuxOpenStage::Over, ..self }
    }

    /// What follows `reply`.
    pub open spec fn after(self, reply: DemuxOpenReply) -> (DemuxerOpening, DemuxOpenCall) {
        match (self.stage, reply) {
            (DemuxOpenStage::Input, DemuxOpenReply::Status { status, text }) => if status < 0 {
                (
                    self.over(),
                    DemuxOpenCall::Failed { error: DemuxError::Open(text), close: false },
                )
            } else {
                (
                    DemuxerOpening { stage: DemuxOpenStage::Info, ..self },
                    DemuxOpenCall::FindStreamInfo,
                )
            },
            (DemuxOpenStage::Info, DemuxOpenReply::Status { status, text }) => if status < 0 {
                (
                    self.over(),
                    DemuxOpenCall::Failed { error: DemuxError::StreamInfo(text), close: true },
                )
            } else {
                (
                    DemuxerOpening { stage: DemuxOpenStage::Best { video: true }, ..self },
                    DemuxOpenCall::FindBest { video: true },
                )
            },
            (DemuxOpenStage::Best { video }, DemuxOpenReply::Best { index }) => if index >= 0 {
                (
                    DemuxerOpening {
                        stage: DemuxOpenStage::Stream { video, index: index as usize },
                        ..self
                    },
                    DemuxOpenCall::ReadStream { index: index as usize },
                )
            } else {
                self.past(video)
            },
            (DemuxOpenStage::Stream { video, index }, DemuxOpenReply::Stream { facts }) => if video {
                DemuxerOpening { video_stream: Some(facts.info(index)), ..self }.past(true)
            } else {
                DemuxerOpening { audio_stream: Some(facts.info(index)), ..self }.past(false)
            },
            (DemuxOpenStage::Packet, DemuxOpenReply::Allocated { ok }) => if ok {
                (
                    self.over(),
                    DemuxOpenCall::Ready {
                        demuxer: Demuxer {
                            video_stream: self.video_stream,
                            audio_stream: self.audio_stream,
                        },
                    },
                )
            } else {
                (self.over(), DemuxOpenCall::Failed { error: DemuxError::Alloc, close: true })
            },
            _ => (
                self.over(),
                DemuxOpenCall::Failed { error: DemuxError::Alloc, close: true },
            ),
        }
    }

    /// Streams have indices that FFmpeg can count to.
    pub open spec fn wf(&self) -> bool {
        &&& self.video_stream matches Some(s) ==> s.index <= i32::MAX
        &&& self.audio_stream matches Some(s) ==> s.index <= i32::MAX
        &&& self.stage matches DemuxOpenStage::Stream { index, .. } ==> index <= i32::MAX
    }

    fn go_past(&mut self, video: bool) -> (r: DemuxOpenCall)
        ensures
            (*final(self), r) == old(self).past(video),
    {
        if video {
            self.stage = DemuxOpenStage::Best { video: false };
            DemuxOpenCall::FindBest { video: false }
        } else {
            self.stage = DemuxOpenStage::Packet;
            DemuxOpenCall::AllocPacket
        }
    }

    /// Take what came of the last call and say what to do next.
    pub fn resume(&mut self, reply: DemuxOpenReply) -> (r: DemuxOpenCall)
        requires
            old(self).wf(),
            old(self).answers(reply),
        ensures
            (*final(self), r) == old(self).after(reply),
            final(self).wf(),
            r matches DemuxOpenCall::Ready { demuxer } ==> demuxer.wf(),
    {
        match reply {
            DemuxOpenReply::Status { status, text } => {
                if self.stage == DemuxOpenStage::Input {
                    if status < 0 {
                        self.stage = DemuxOpenStage::Over;
                        return DemuxOpenCall::Failed {
                            error: DemuxError::Open(text),
                            close: false,
                        };
                    }
                    self.stage = DemuxOpenStage::Info;
                    DemuxOpenCall::FindStreamInfo
                } else {
                    if status < 0 {
                        self.stage = DemuxOpenStage::Over;
                        return DemuxOpenCall::Failed {
                            error: DemuxError::StreamInfo(text),
                            close: true,
                        };
                    }
                    self.stage = DemuxOpenStage::Best { video: true };
                    DemuxOpenCall::FindBest { video: true }
                }
            },
            DemuxOpenReply::Best { index } => {
                let video: bool = match self.stage {
                    DemuxOpenStage::Best { video } => video,
                    _ => false,
                };
                if index >= 0 {
                    let index: usize = index as usize;
                    self.stage = DemuxOpenStage::Stream { video, index };
                    DemuxOpenCall::ReadStream { index }
                } else {
                    self.go_past(video)
                }
            },
            DemuxOpenReply::Stream { facts } => {
                let (video, index): (bool, usize) = match self.stage {
                    DemuxOpenStage::Stream { video, index } => (video, index),
                    _ => (false, 0),
                };
                let info = read_stream_info(index, &facts);
                if video {
                    self.video_stream = Some(info);
                } else {
                    self.audio_stream = Some(info);
                }
                self.go_past(video)
            },
            DemuxOpenReply::Allocated { ok } => {
                self.stage = DemuxOpenStage::Over;
                if ok {
                    DemuxOpenCall::Ready {
                        demuxer: Demuxer {
                            video_stream: self.video_stream,
                            audio_stream: self.audio_stream,
                        },
                    }
                } else {
                    DemuxOpenCall::Failed { error: DemuxError::Alloc, close: true }
                }
            },
        }
    }
}

/// A path can be handed to FFmpeg: it is text, and no character of it ends a C string.
pub open spec fn usable_path(path: Option<&str>) -> bool {
    path matches Some(p) && !occurs(p@, "\0"@)
}

impl Demuxer {
    pub open spec fn wf(&self) -> bool {
        &&& self.video_stream matches Some(s) ==> s.index <= i32::MAX
        &&& self.audio_stream matches Some(s) ==> s.index <= i32::MAX
    }

    /// Start opening a file; `path` is nothing if the path is not text.
    pub fn open(path: Option<&str>) -> (r: Result<(DemuxerOpening, DemuxOpenCall), DemuxError>)
        ensures
            usable_path(path) ==> r == Ok::<(DemuxerOpening, DemuxOpenCall), DemuxError>(
                (
                    DemuxerOpening {
                        stage: DemuxOpenStage::Input,
                        video_stream: None,
                        audio_stream: None,
                    },
                    DemuxOpenCall::OpenInput,
                ),
            ),
            !usable_path(path) ==> r == Err::<(DemuxerOpening, DemuxOpenCall), DemuxError>(
                DemuxError::InvalidPath,
            ),
    {
        match path {
            None => Err(DemuxError::InvalidPath),
            Some(p) => {
                if str_contains(p, "\0") {
                    return Err(DemuxError::InvalidPath);
                }
                Ok(
                    (
                        DemuxerOpening {
                            stage: DemuxOpenStage::Input,
                            video_stream: None,
                            audio_stream: None,
                        },
                        DemuxOpenCall::OpenInput,
                    ),
                )
            },
        }
    }

    /// The audio stream, if there is one.
    pub fn audio_stream(&self) -> (r: Option<StreamInfo>)
        ensures
            r == self.audio_stream,
    {
        self.audio_stream
    }

    /// The stream packets are taken from.
    pub open spec fn source(&self, video: bool) -> Option<StreamInfo> {
        if video { self.video_stream } else { self.audio_stream }
    }

    /// Start reading the next packet of the video stream.
    pub fn next_video_packet(&self) -> (r: ReadCall)
        ensures
            r == if self.video_stream is Some { ReadCall::Read } else { ReadCall::End },
    {
        if self.video_stream.is_some() {
            ReadCall::Read
        } else {
            ReadCall::End
        }
    }

    /// Start reading the next packet of the audio stream.
    pub fn next_audio_packet(&self) -> (r: ReadCall)
        ensures
            r == if self.audio_stream is Some { ReadCall::Read } else { ReadCall::End },
    {
        if self.audio_stream.is_some() {
            ReadCall::Read
        } else {
            ReadCall::End
        }
    }

    /// What follows when a packet of `stream_index` was read, or none with that status.
    pub open spec fn after_read(
        &self,
        video: bool,
        status: i32,
        text: String,
        stream_index: i32,
    ) -> ReadCall {
        if status == AVERROR_EOF {
            ReadCall::End
        } else if status < 0 {
            ReadCall::Failed { error: DemuxError::Read(text) }
        } else if stream_index == self.source(video)->0.index {
            ReadCall::Keep
        } else {
            ReadCall::Skip
        }
    }

    /// A packet of the file was read, or not: `status` is FFmpeg's, `text` says what a
    /// negative one means, `stream_index` is the packet's.
    pub fn packet_read(&self, video: bool, status: i32, text: String, stream_index: i32) -> (r:
        ReadCall)
        requires
            self.wf(),
            self.source(video) is Some,
        ensures
            r == self.after_read(video, status, text, stream_index),
    {
        if status == AVERROR_EOF {
            return ReadCall::End;
        }
        if status < 0 {
            return ReadCall::Failed { error: DemuxError::Read(text) };
        }
        let source: Option<StreamInfo> = if video { self.video_stream } else { self.audio_stream };
        match source {
            Some(info) => {
                if stream_index == info.index as i32 {
                    ReadCall::Keep
                } else {
                    ReadCall::Skip
                }
            },
            None => ReadCall::End,
        }
    }

    /// What follows when a reference to `packet` was taken, or not.
    pub open spec fn after_keep(
        packet: Packet,
        allocated: bool,
        status: i32,
        text: String,
    ) -> ReadCall {
        if !allocated {
            ReadCall::Failed { error: DemuxError::Alloc }
        } else if status < 0 {
            ReadCall::Failed { error: DemuxError::Read(text) }
        } else {
            ReadCall::Packet { packet }
        }
    }

    /// A reference to `packet` was taken, or not.
    pub fn packet_kept(&self, packet: Packet, allocated: bool, status: i32, text: String) -> (r:
        ReadCall)
        ensures
            r == Self::after_keep(packet, allocated, status, text),
    {
        if !allocated {
            return ReadCall::Failed { error: DemuxError::Alloc };
        }
        if status < 0 {
            return ReadCall::Failed { error: DemuxError::Read(text) };
        }
        ReadCall::Packet { packet }
    }

    /// The stream a seek goes by: video, or audio where there is no video.
    pub open spec fn seek_source(&self) -> Option<StreamInfo> {
        if self.video_stream is Some { self.video_stream } else { self.audio_stream }
    }

    /// The stream a seek goes by, its clock, and how it is made.
    pub open spec fn seeks_by(&self) -> Result<(i32, Rational, i32), DemuxError> {
        match self.seek_source() {
            Some(info) => Ok::<(i32, Rational, i32), DemuxError>(
                (info.index as i32, info.time_base, AVSEEK_FLAG_BACKWARD),
            ),
            None => Err(DemuxError::NoVideoStream),
        }
    }

    /// The index and the clock of the stream to seek by, and how to seek: to the key frame
    /// at or before the target.
    pub fn seek(&self) -> (r: Result<(i32, Rational, i32), DemuxError>)
        requires
            self.wf(),
        ensures
            r == self.seeks_by(),
    {
        match self.video_stream {
            Some(info) => Ok((info.index as i32, info.time_base, AVSEEK_FLAG_BACKWARD)),
            None => match self.audio_stream {
                Some(info) => Ok((info.index as i32, info.time_base, AVSEEK_FLAG_BACKWARD)),
                None => Err(DemuxError::NoVideoStream),
            },
        }
    }

    /// What comes of a seek to `stream_pts`.
    pub open spec fn after_seek(stream_pts: i64, status: i32, text: String) -> Result<
        i64,
        DemuxError,
    > {
        if status < 0 {
            Err::<i64, DemuxError>(DemuxError::Seek(text))
        } else {
            Ok(stream_pts)
        }
    }

    /// The seek to `stream_pts` has been made, or not.
    pub fn sought(stream_pts: i64, status: i32, text: String) -> (r: Result<i64, DemuxError>)
        ensures
            r == Self::after_seek(stream_pts, status, text),
    {
        if status < 0 {
            Err(DemuxError::Seek(text))
        } else {
            Ok(stream_pts)
        }
    }
}

/// The rate of a stream is constant exactly when the container's two rates, where it gives
/// both, are the same number; multiplying both parts of a rate by the same number changes
/// nothing.
pub proof fn law_equal_rates_are_constant(facts: StreamFacts, k: int)
    requires
        given(facts.r_frame_rate),
        given(facts.avg_frame_rate),
        facts.avg_frame_rate.num == k * facts.r_frame_rate.num,
        facts.avg_frame_rate.den == k * facts.r_frame_rate.den,
    ensures
        !facts.rates_differ(),
{
    let n = facts.r_frame_rate.num as int;
    let d = facts.r_frame_rate.den as int;
    assert(n * (k * d) == (k * n) * d) by (nonlinear_arith);
}

/// A stream is described by what the container says of it.  Its rate is the one the frames
/// are timed with, or the measured average where there is no other; it varies exactly when
/// both are known and are different numbers; an extent is known when it is positive, and the
/// duration when the file's is.
pub proof fn law_streams_are_what_the_container_says(facts: StreamFacts, index: usize)
    ensures
        ({
            let info = facts.info(index);
            let (r, avg) = (facts.r_frame_rate, facts.avg_frame_rate);
            let r_known = r.num != 0 && r.den != 0;
            let avg_known = avg.num != 0 && avg.den != 0;
            &&& info.index == index
            &&& info.codec_id == facts.codec_id
            &&& info.codecpar == facts.codecpar
            &&& info.color_info == facts.color
            &&& info.time_base.num == facts.time_base.num
            &&& info.time_base.den == facts.time_base.den
            &&& facts.duration_us > 0 ==> info.duration == facts.duration_ticks
            &&& facts.duration_us <= 0 ==> info.duration == 0
            &&& facts.width > 0 ==> info.width is Some && info.width->0 == facts.width
            &&& facts.height > 0 ==> info.height is Some && info.height->0 == facts.height
            &&& facts.width <= 0 ==> info.width is None
            &&& facts.height <= 0 ==> info.height is None
            &&& info.frame_rate is Some <==> r_known || avg_known
            &&& r_known ==> info.frame_rate->0.num == r.num && info.frame_rate->0.den == r.den
            &&& !r_known && avg_known ==> info.frame_rate->0.num == avg.num
                && info.frame_rate->0.den == avg.den
            &&& info.is_vfr <==> r_known && avg_known && r.num * avg.den != avg.num * r.den
        }),
{
}

/// A file is opened step by step: its header, its streams, the best video stream and then the
/// best audio stream, and the packet it is read into.  A stream that is found is described; one
/// that is missing is no failure.  A failure says which step it was, and closes the file once
/// it is open.
pub proof fn law_files_are_opened_in_order(before: DemuxerOpening, reply: DemuxOpenReply)
    requires
        before.answers(reply),
    ensures
        ({
            let (after, call) = before.after(reply);
            match (before.stage, reply) {
                (DemuxOpenStage::Input, DemuxOpenReply::Status { status, text }) => {
                    &&& status >= 0 ==> call is FindStreamInfo && after.stage is Info
                    &&& status < 0 ==> call == (DemuxOpenCall::Failed {
                        error: DemuxError::Open(text),
                        close: false,
                    })
                },
                (DemuxOpenStage::Info, DemuxOpenReply::Status { status, text }) => {
                    &&& status >= 0 ==> call == (DemuxOpenCall::FindBest { video: true })
                        && after.stage == (DemuxOpenStage::Best { video: true })
                    &&& status < 0 ==> call == (DemuxOpenCall::Failed {
                        error: DemuxError::StreamInfo(text),
                        close: true,
                    })
                },
                (DemuxOpenStage::Best { video }, DemuxOpenReply::Best { index }) => {
                    &&& index >= 0 ==> {
                        &&& call is ReadStream
                        &&& call->index == index
                        &&& after.stage is Stream
                        &&& after.stage->Stream_video == video
                        &&& after.stage->index == index
                    }
                    &&& index < 0 && video ==> call == (DemuxOpenCall::FindBest { video: false })
                        && after.stage == (DemuxOpenStage::Best { video: false })
                    &&& index < 0 && !video ==> call is AllocPacket && after.stage is Packet
                    &&& after.video_stream == before.video_stream
                    &&& after.audio_stream == before.audio_stream
                },
                (DemuxOpenStage::Stream { video, index }, DemuxOpenReply::Stream { facts }) => {
                    &&& video ==> {
                        &&& after.video_stream == Some(facts.info(index))
                        &&& after.audio_stream == before.audio_stream
                        &&& call == (DemuxOpenCall::FindBest { video: false })
                        &&& after.stage == (DemuxOpenStage::Best { video: false })
                    }
                    &&& !video ==> {
                        &&& after.audio_stream == Some(facts.info(index))
                        &&& after.video_stream == before.video_stream
                        &&& call is AllocPacket
                        &&& after.stage is Packet
                    }
                },
                (DemuxOpenStage::Packet, DemuxOpenReply::Allocated { ok }) => {
                    &&& ok ==> {
                        &&& call is Ready
                        &&& call->demuxer.video_stream == before.video_stream
                        &&& call->demuxer.audio_stream == before.audio_stream
                    }
                    &&& !ok ==> call == (DemuxOpenCall::Failed {
                        error: DemuxError::Alloc,
                        close: true,
                    })
                },
                _ => true,
            }
        }),
{
}

/// Reading hands out the packets of the stream that was asked for and no others, until the
/// end of the file, and an error is said in FFmpeg's words.
pub proof fn law_only_the_streams_packets_are_kept(
    demuxer: Demuxer,
    video: bool,
    status: i32,
    text: String,
    stream_index: i32,
)
    requires
        demuxer.source(video) is Some,
    ensures
        ({
            let call = demuxer.after_read(video, status, text, stream_index);
            let wanted = if video {
                demuxer.video_stream->0.index
            } else {
                demuxer.audio_stream->0.index
            };
            &&& call is End <==> status == -541478725
            &&& call is Failed <==> status < 0 && status != -541478725
            &&& call is Failed ==> call->error == DemuxError::Read(text)
            &&& call is Keep <==> status >= 0 && stream_index == wanted
            &&& call is Skip <==> status >= 0 && stream_index != wanted
        }),
{
}

/// A packet that was kept is handed out as it is; what stands in the way is said.
pub proof fn law_kept_packets_are_handed_out(
    packet: Packet,
    allocated: bool,
    status: i32,
    text: String,
)
    ensures
        ({
            let call = Demuxer::after_keep(packet, allocated, status, text);
            &&& allocated && status >= 0 ==> call == (ReadCall::Packet { packet })
            &&& !allocated ==> call == (ReadCall::Failed { error: DemuxError::Alloc })
            &&& allocated && status < 0 ==> call == (ReadCall::Failed {
                error: DemuxError::Read(text),
            })
        }),
{
}

/// A seek goes by the video stream, or by the audio stream where there is none, in its own
/// clock and back to a key frame; it fails where there is nothing to go by, and when FFmpeg
/// refuses it, in its words.
pub proof fn law_seeks_go_back_by_the_video(
    demuxer: Demuxer,
    stream_pts: i64,
    status: i32,
    text: String,
)
    requires
        demuxer.wf(),
    ensures
        demuxer.video_stream matches Some(info) ==> {
            &&& demuxer.seeks_by() is Ok
            &&& (demuxer.seeks_by()->Ok_0).0 == info.index
            &&& (demuxer.seeks_by()->Ok_0).1 == info.time_base
            &&& (demuxer.seeks_by()->Ok_0).2 == 1
        },
        demuxer.video_stream is None && demuxer.audio_stream is Some ==> {
            &&& demuxer.seeks_by() is Ok
            &&& (demuxer.seeks_by()->Ok_0).0 == demuxer.audio_stream->0.index
            &&& (demuxer.seeks_by()->Ok_0).1 == demuxer.audio_stream->0.time_base
            &&& (demuxer.seeks_by()->Ok_0).2 == 1
        },
        demuxer.video_stream is None && demuxer.audio_stream is None ==> demuxer.seeks_by() is Err
            && demuxer.seeks_by()->Err_0 is NoVideoStream,
        status >= 0 ==> Demuxer::after_seek(stream_pts, status, text) == Ok::<i64, DemuxError>(
            stream_pts,
        ),
        status < 0 ==> Demuxer::after_seek(stream_pts, status, text) == Err::<i64, DemuxError>(
            DemuxError::Seek(text),
        ),
{
}

/// A path is usable exactly when it is text without a zero character in it.
pub proof fn law_paths_are_text_without_zeros(path: &str)
    ensures
        !usable_path(None),
        usable_path(Some(path)) <==> forall|i: int| 0 <= i < path@.len() ==> path@[i] != '\0',
{
    reveal_strlit("\0");
    let zero = "\0"@;
    if occurs(path@, zero) {
        let k = choose|k: int| occurs_at(path@, zero, k);
        assert(path@[k] == '\0') by {
            assert(path@.subrange(k, k + 1)[0] == zero[0]);
        }
    }
    assert forall|i: int| 0 <= i < path@.len() && path@[i] == '\0' implies occurs(
        path@,
        zero,
    ) by {
        assert(path@.subrange(i, i + 1) =~= zero);
        assert(occurs_at(path@, zero, i));
    }
}

} // verus!
