//! Packets into a file: the streams of the file, and which clock a packet comes from.
use crate::export::job::{Container, ExportJob};
use crate::io::ffi::avutil::AVRational;
use crate::text::{signed_decimal, signed_str};
use vstd::prelude::*;
use vstd::string::*;

verus! {

/// Why muxing failed.
#[derive(Debug)]
pub enum MuxError {
    AllocContext,
    AddStream,
    OpenFile(String),
    WriteHeader(String),
    Write(String),
    Trailer(String),
}

/// The file is written.
pub const AVIO_FLAG_WRITE: i32 = 2;

/// Options of the format in use are found too.
pub const AV_OPT_SEARCH_CHILDREN: i32 = 1;

/// What opening the file has to do next.
#[derive(Debug, Clone, Copy)]
pub enum MuxOpenCall {
    /// Allocate a context of that format for the job's output path.
    AllocContext { format_name: &'static str },
    /// Add a stream with the parameters of that encoder context, ticking with that clock.
    AddStream { codec_ctx: u64, time_base: AVRational },
    /// Open the output path.
    OpenFile { flags: i32 },
    WriteHeader,
    /// Set an option of the muxer, searching with `flags`.
    SetOption { key: &'static str, value: &'static str, flags: i32 },
    Ready { muxer: Muxer },
    Failed,
}

/// What came of it.
#[derive(Debug, Clone, Copy, PartialEq, Eq, Structural)]
pub enum MuxOpenReply {
    Status { status: i32 },
    /// The index of the new stream, or nothing if it could not be added.
    Stream { index: Option<i32> },
    OptionSet,
}

#[derive(Debug, Clone, Copy, PartialEq, Eq, Structural)]
pub enum MuxOpenStage {
    Context,
    Video,
    Audio { video: i32 },
    File { video: i32, audio: i32 },
    Header { video: i32, audio: i32 },
    FastStart { video: i32, audio: i32 },
    Over,
}

/// The file being opened.
#[derive(Debug, Clone, Copy, PartialEq, Eq, Structural)]
pub struct MuxerOpening {
    pub container: Container,
    pub video_ctx: u64,
    pub audio_ctx: u64,
    pub video_tb: AVRational,
    pub audio_tb: AVRational,
    pub stage: MuxOpenStage,
}

/// An open file: its streams, and the clocks their packets come with.
#[derive(Debug, Clone, Copy, PartialEq, Eq, Structural)]
pub struct Muxer {
    pub video_stream_idx: i32,
    pub audio_stream_idx: i32,
    pub video_tb: AVRational,
    pub audio_tb: AVRational,
}

/// Where a packet goes, and the clock its times are in.
#[derive(Debug, Clone, Copy, PartialEq, Eq, Structural)]
pub struct PacketRoute {
    pub stream_index: i32,
    pub time_base: AVRational,
}

impl MuxerOpening {
    pub open spec fn answers(self, reply: MuxOpenReply) -> bool {
        match reply {
            MuxOpenReply::Status { .. } => self.stage is Context || self.stage is File || self.stage
                is Header,
            MuxOpenReply::Stream { .. } => self.stage is Video || self.stage is Audio,
            MuxOpenReply::OptionSet => self.stage is FastStart,
        }
    }

    pub open spec fn at(self, stage: MuxOpenStage) -> MuxerOpening {
        MuxerOpening { stage, ..self }
    }

    pub open spec fn ready(self, video: i32, audio: i32) -> (MuxerOpening, MuxOpenCall) {
        (
            self.at(MuxOpenStage::Over),
            MuxOpenCall::Ready {
                muxer: Muxer {
                    video_stream_idx: video,
                    audio_stream_idx: audio,
                    video_tb: self.video_tb,
                    audio_tb: self.audio_tb,
                },
            },
        )
    }

    pub open spec fn fail(self) -> (MuxerOpening, MuxOpenCall) {
        (self.at(MuxOpenStage::Over), MuxOpenCall::Failed)
    }

    /// What follows `reply`.
    pub open spec fn after(self, reply: MuxOpenReply) -> (MuxerOpening, MuxOpenCall) {
        match (self.stage, reply) {
            (MuxOpenStage::Context, MuxOpenReply::Status { status }) => if status < 0 {
                self.fail()
            } else {
                (
                    self.at(MuxOpenStage::Video),
                    MuxOpenCall::AddStream { codec_ctx: self.video_ctx, time_base: self.video_tb },
                )
            },
            (MuxOpenStage::Video, MuxOpenReply::Stream { index }) => match index {
                Some(video) => (
                    self.at(MuxOpenStage::Audio { video }),
                    MuxOpenCall::AddStream { codec_ctx: self.audio_ctx, time_base: self.audio_tb },
                ),
                None => self.fail(),
            },
            (MuxOpenStage::Audio { video }, MuxOpenReply::Stream { index }) => match index {
                Some(audio) => (
                    self.at(MuxOpenStage::File { video, audio }),
                    MuxOpenCall::OpenFile { flags: AVIO_FLAG_WRITE },
                ),
                None => self.fail(),
            },
            (MuxOpenStage::File { video, audio }, MuxOpenReply::Status { status }) => if status
                < 0 {
                self.fail()
            } else {
                (self.at(MuxOpenStage::Header { video, audio }), MuxOpenCall::WriteHeader)
            },
            (MuxOpenStage::Header { video, audio }, MuxOpenReply::Status { status }) => if status
                < 0 {
                self.fail()
            } else if self.container is Mp4 {
                (
                    self.at(MuxOpenStage::FastStart { video, audio }),
                    MuxOpenCall::SetOption {
                        key: "movflags",
                        value: "faststart",
                        flags: AV_OPT_SEARCH_CHILDREN,
                    },
                )
            } else {
                self.ready(video, audio)
            },
            (MuxOpenStage::FastStart { video, audio }, MuxOpenReply::OptionSet) => self.ready(
                video,
                audio,
            ),
            _ => self.fail(),
        }
    }

    /// The error that a failure with `reply` is reported as.
    pub open spec fn reports(self, reply: MuxOpenReply, error: MuxError) -> bool {
        match (self.stage, reply) {
            (MuxOpenStage::Context, _) => error is AllocContext,
            (MuxOpenStage::Video, _) => error is AddStream,
            (MuxOpenStage::Audio { .. }, _) => error is AddStream,
            (MuxOpenStage::File { .. }, _) => error matches MuxError::OpenFile(text) && text@
                == "Failed to open avio"@,
            (MuxOpenStage::Header { .. }, MuxOpenReply::Status { status }) => error
                matches MuxError::WriteHeader(text) && text@ == "Failed to write header: error "@
                + signed_decimal(status as int),
            _ => true,
        }
    }

    fn finish(&mut self, video: i32, audio: i32) -> (r: MuxOpenCall)
        ensures
            (*final(self), r) == old(self).ready(video, audio),
    {
        self.stage = MuxOpenStage::Over;
        MuxOpenCall::Ready {
            muxer: Muxer {
                video_stream_idx: video,
                audio_stream_idx: audio,
                video_tb: self.video_tb,
                audio_tb: self.audio_tb,
            },
        }
    }

    /// Take what came of the last call and say what to do next; with a failure comes its
    /// error.
    pub fn resume(&mut self, reply: MuxOpenReply) -> (r: (MuxOpenCall, Option<MuxError>))
        requires
            old(self).answers(reply),
        ensures
            (*final(self), r.0) == old(self).after(reply),
            r.1 is Some <==> r.0 is Failed,
            r.1 matches Some(error) ==> old(self).reports(reply, error),
    {
        match (self.stage, reply) {
            (MuxOpenStage::Context, MuxOpenReply::Status { status }) => {
                if status < 0 {
                    self.stage = MuxOpenStage::Over;
                    return (MuxOpenCall::Failed, Some(MuxError::AllocContext));
                }
                self.stage = MuxOpenStage::Video;
                (
                    MuxOpenCall::AddStream { codec_ctx: self.video_ctx, time_base: self.video_tb },
                    None,
                )
            },
            (MuxOpenStage::Video, MuxOpenReply::Stream { index }) => {
                match index {
                    Some(video) => {
                        self.stage = MuxOpenStage::Audio { video };
                        (
                            MuxOpenCall::AddStream {
                                codec_ctx: self.audio_ctx,
                                time_base: self.audio_tb,
                            },
                            None,
                        )
                    },
                    None => {
                        self.stage = MuxOpenStage::Over;
                        (MuxOpenCall::Failed, Some(MuxError::AddStream))
                    },
                }
            },
            (MuxOpenStage::Audio { video }, MuxOpenReply::Stream { index }) => {
                match index {
                    Some(audio) => {
                        self.stage = MuxOpenStage::File { video, audio };
                        (MuxOpenCall::OpenFile { flags: AVIO_FLAG_WRITE }, None)
                    },
                    None => {
                        self.stage = MuxOpenStage::Over;
                        (MuxOpenCall::Failed, Some(MuxError::AddStream))
                    },
                }
            },
            (MuxOpenStage::File { video, audio }, MuxOpenReply::Status { status }) => {
                if status < 0 {
                    self.stage = MuxOpenStage::Over;
                    let text = String::from_str("Failed to open avio");
                    return (MuxOpenCall::Failed, Some(MuxError::OpenFile(text)));
                }
                self.stage = MuxOpenStage::Header { video, audio };
                (MuxOpenCall::WriteHeader, None)
            },
            (MuxOpenStage::Header { video, audio }, MuxOpenReply::Status { status }) => {
                if status < 0 {
                    self.stage = MuxOpenStage::Over;
                    let mut text = String::from_str("Failed to write header: error ");
                    text.append(signed_str(status as i64).as_str());
                    return (MuxOpenCall::Failed, Some(MuxError::WriteHeader(text)));
                }
                if self.container == Container::Mp4 {
                    self.stage = MuxOpenStage::FastStart { video, audio };
                    let call = MuxOpenCall::SetOption {
                        key: "movflags",
                        value: "faststart",
                        flags: AV_OPT_SEARCH_CHILDREN,
                    };
                    return (call, None);
                }
                (self.finish(video, audio), None)
            },
            (MuxOpenStage::FastStart { video, audio }, MuxOpenReply::OptionSet) => (
                self.finish(video, audio),
                None,
            ),
            _ => {
                self.stage = MuxOpenStage::Over;
                (MuxOpenCall::Failed, Some(MuxError::AllocContext))
            },
        }
    }
}

impl Muxer {
    /// Start opening the job's output; the handles are those of the encoder contexts that
    /// describe the streams.
    pub fn open(
        job: &ExportJob,
        video_ctx: u64,
        audio_ctx: u64,
        video_tb: AVRational,
        audio_tb: AVRational,
    ) -> (r: (MuxerOpening, MuxOpenCall))
        ensures
            r.0 == (MuxerOpening {
                container: job.container,
                video_ctx,
                audio_ctx,
                video_tb,
                audio_tb,
                stage: MuxOpenStage::Context,
            }),
            r.1 matches MuxOpenCall::AllocContext { format_name } && format_name@
                == job.container.muxer(),
    {
        (
            MuxerOpening {
                container: job.container,
                video_ctx,
                audio_ctx,
                video_tb,
                audio_tb,
                stage: MuxOpenStage::Context,
            },
            MuxOpenCall::AllocContext { format_name: job.container.format_name() },
        )
    }

    /// Where a packet goes.
    pub open spec fn route(&self, is_video: bool) -> PacketRoute {
        if is_video {
            PacketRoute { stream_index: self.video_stream_idx, time_base: self.video_tb }
        } else {
            PacketRoute { stream_index: self.audio_stream_idx, time_base: self.audio_tb }
        }
    }

    /// Where a packet goes.
    pub fn write_packet(&self, is_video: bool) -> (r: PacketRoute)
        ensures
            r == self.route(is_video),
    {
        if is_video {
            PacketRoute { stream_index: self.video_stream_idx, time_base: self.video_tb }
        } else {
            PacketRoute { stream_index: self.audio_stream_idx, time_base: self.audio_tb }
        }
    }

    /// `r` is what writing a packet came to.
    pub open spec fn comes_of_writing(status: i32, r: Result<(), MuxError>) -> bool {
        match r {
            Ok(_) => status >= 0,
            Err(error) => {
                &&& status < 0
                &&& error matches MuxError::Write(text)
                &&& text@ == "Write frame failed: "@ + signed_decimal(status as int)
            },
        }
    }

    /// `r` is what writing the trailer came to.
    pub open spec fn comes_of_the_trailer(status: i32, r: Result<(), MuxError>) -> bool {
        match r {
            Ok(_) => status >= 0,
            Err(error) => {
                &&& status < 0
                &&& error matches MuxError::Trailer(text)
                &&& text@ == "Write trailer failed: "@ + signed_decimal(status as int)
            },
        }
    }

    /// What writing a packet came to.
    pub fn packet_written(status: i32) -> (r: Result<(), MuxError>)
        ensures
            Self::comes_of_writing(status, r),
    {
        if status < 0 {
            let mut text = String::from_str("Write frame failed: ");
            text.append(signed_str(status as i64).as_str());
            return Err(MuxError::Write(text));
        }
        Ok(())
    }

    /// What writing the trailer came to; the context is freed either way.
    pub fn finalise(self, status: i32) -> (r: Result<(), MuxError>)
        ensures
            Self::comes_of_the_trailer(status, r),
    {
        if status < 0 {
            let mut text = String::from_str("Write trailer failed: ");
            text.append(signed_str(status as i64).as_str());
            return Err(MuxError::Trailer(text));
        }
        Ok(())
    }
}

/// The video stream is added first, and a file that opens has both streams, with the clocks
/// it was opened with.
pub proof fn law_opened_files_have_both_streams(
    opening: MuxerOpening,
    video: i32,
    audio: i32,
    status: i32,
)
    requires
        opening.stage == (MuxOpenStage::Header { video, audio }),
        status >= 0,
    ensures
        ({
            let (next, call) = opening.after(MuxOpenReply::Status { status });
            let last = if call is SetOption { next.after(MuxOpenReply::OptionSet).1 } else { call };
            last == (MuxOpenCall::Ready {
                muxer: Muxer {
                    video_stream_idx: video,
                    audio_stream_idx: audio,
                    video_tb: opening.video_tb,
                    audio_tb: opening.audio_tb,
                },
            })
        }),
{
}

/// A file is opened in order: its context, the video stream and then the audio stream, each of
/// its own encoder and in its own clock, the file for writing, and the header.  Only an MP4 is
/// asked for a fast start.  A failure ends it with the error of its step.
pub proof fn law_an_output_is_opened_in_order(
    opening: MuxerOpening,
    reply: MuxOpenReply,
    error: MuxError,
)
    requires
        opening.answers(reply),
    ensures
        ({
            let (after, call) = opening.after(reply);
            let failed = call is Failed && opening.reports(reply, error);
            &&& after.container == opening.container
            &&& after.video_ctx == opening.video_ctx && after.audio_ctx == opening.audio_ctx
            &&& after.video_tb == opening.video_tb && after.audio_tb == opening.audio_tb
            &&& match (opening.stage, reply) {
                (MuxOpenStage::Context, MuxOpenReply::Status { status }) => {
                    &&& call is Failed <==> status < 0
                    &&& failed ==> error is AllocContext
                    &&& status >= 0 ==> {
                        &&& call is AddStream
                        &&& call->codec_ctx == opening.video_ctx
                        &&& call->time_base == opening.video_tb
                        &&& after.stage is Video
                    }
                },
                (MuxOpenStage::Video, MuxOpenReply::Stream { index }) => {
                    &&& call is Failed <==> index is None
                    &&& failed ==> error is AddStream
                    &&& index matches Some(video) ==> {
                        &&& call is AddStream
                        &&& call->codec_ctx == opening.audio_ctx
                        &&& call->time_base == opening.audio_tb
                        &&& after.stage == (MuxOpenStage::Audio { video })
                    }
                },
                (MuxOpenStage::Audio { video }, MuxOpenReply::Stream { index }) => {
                    &&& call is Failed <==> index is None
                    &&& failed ==> error is AddStream
                    &&& index matches Some(audio) ==> {
                        &&& call is OpenFile
                        &&& call->OpenFile_flags == 2
                        &&& after.stage == (MuxOpenStage::File { video, audio })
                    }
                },
                (MuxOpenStage::File { video, audio }, MuxOpenReply::Status { status }) => {
                    &&& call is Failed <==> status < 0
                    &&& failed ==> error is OpenFile && error->OpenFile_0@
                        == "Failed to open avio"@
                    &&& status >= 0 ==> call is WriteHeader && after.stage == (
                    MuxOpenStage::Header { video, audio })
                },
                (MuxOpenStage::Header { video, audio }, MuxOpenReply::Status { status }) => {
                    &&& call is Failed <==> status < 0
                    &&& failed ==> error is WriteHeader && error->WriteHeader_0@
                        == "Failed to write header: error "@ + signed_decimal(status as int)
                    &&& call is SetOption <==> status >= 0 && opening.container is Mp4
                    &&& call is SetOption ==> {
                        &&& call->key@ == "movflags"@
                        &&& call->value@ == "faststart"@
                        &&& call->SetOption_flags == 1
                        &&& after.stage == (MuxOpenStage::FastStart { video, audio })
                    }
                    &&& status >= 0 && !(opening.container is Mp4) ==> call is Ready
                },
                _ => true,
            }
        }),
{
}

/// A packet goes to the stream of its own kind, timed in the clock of that stream's encoder.
pub proof fn law_packets_go_to_their_stream(muxer: Muxer)
    ensures
        muxer.route(true).stream_index == muxer.video_stream_idx,
        muxer.route(true).time_base == muxer.video_tb,
        muxer.route(false).stream_index == muxer.audio_stream_idx,
        muxer.route(false).time_base == muxer.audio_tb,
{
}

/// Writing fails exactly for a negative status, which is told.
pub proof fn law_writing_fails_for_errors_only(
    status: i32,
    written: Result<(), MuxError>,
    closed: Result<(), MuxError>,
)
    requires
        Muxer::comes_of_writing(status, written),
        Muxer::comes_of_the_trailer(status, closed),
    ensures
        written is Ok <==> status >= 0,
        closed is Ok <==> status >= 0,
        written is Err ==> written->Err_0 is Write && written->Err_0->Write_0@
            == "Write frame failed: "@ + signed_decimal(status as int),
        closed is Err ==> closed->Err_0 is Trailer && closed->Err_0->Trailer_0@
            == "Write trailer failed: "@ + signed_decimal(status as int),
{
}

} // verus!
