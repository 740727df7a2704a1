//! Packets into frames: what is offered to the codec and when, and how a decoded frame is
//! brought into a layout that can be uploaded.
use crate::interop::capability::HostOs;
use crate::io::demuxer::Packet;
use crate::io::ffi::avutil::{
    frame_layout_for_pix_fmt, layout_of, AVERROR_EAGAIN, AVERROR_EOF, AV_NOPTS_VALUE,
    AV_PIX_FMT_YUV420P, AV_PIX_FMT_YUV420P10LE,
};
use crate::io::ffi::hw_accel::{preferred, probe_hardware_device, HwDeviceType, HwProbe, HwProbeStep};
use crate::text::{signed_decimal, signed_str};
use crate::timeline::{ColorInfo, DecodedFrameMeta, FrameLayout};
use std::collections::VecDeque;
use vstd::prelude::*;
use vstd::string::*;

verus! {

/// A frame that has been decoded: its time, what its bytes mean, and its extent.
#[derive(Debug, Clone, Copy, PartialEq, Eq, Structural)]
pub struct DecodedFrame {
    pub pts: i64,
    pub meta: DecodedFrameMeta,
    pub width: u32,
    pub height: u32,
}

impl DecodedFrame {
    /// Whether the chroma samples are interleaved in one plane.
    pub fn is_semi_planar(&self) -> (r: bool)
        ensures
            r == self.meta.layout.semi_planar,
    {
        self.meta.layout.semi_planar
    }
}

/// Why decoding failed.
#[derive(Debug)]
pub enum DecodeError {
    CodecNotFound(u32),
    Alloc,
    Open(String),
    Send(String),
    Receive(String),
    HwTransfer(String),
    Convert(String),
    NoFrame,
}

/// A failure where it happens; texts are FFmpeg's.
pub enum DecodeFault {
    Send(String),
    Receive(String),
    HwTransfer(String),
    /// A pixel format that libavutil does not describe; swscale would not survive it.
    UnknownFormat(i32),
    NoScaler,
    Scale(i32),
    NoFrame,
}

/// The text of an unknown pixel format.
pub open spec fn unknown_format_text(fmt: int) -> Seq<char> {
    "the decoder emitted pixel format "@ + signed_decimal(fmt)
        + ", which this build of libavutil does not describe \u{2014} it cannot be converted, and passing it to swscale would abort the process"@
}

impl DecodeFault {
    /// `error` is what callers get for the fault.
    pub open spec fn shows_as(self, error: DecodeError) -> bool {
        match self {
            DecodeFault::Send(text) => error == DecodeError::Send(text),
            DecodeFault::Receive(text) => error == DecodeError::Receive(text),
            DecodeFault::HwTransfer(text) => error == DecodeError::HwTransfer(text),
            DecodeFault::UnknownFormat(fmt) => error matches DecodeError::Convert(text) && text@
                == unknown_format_text(fmt as int),
            DecodeFault::NoScaler => error matches DecodeError::Convert(text) && text@
                == "sws_getContext failed"@,
            DecodeFault::Scale(rows) => error matches DecodeError::Convert(text) && text@
                == "sws_scale returned "@ + signed_decimal(rows as int),
            DecodeFault::NoFrame => error == DecodeError::NoFrame,
        }
    }

    /// The error that callers get.
    pub fn error(self) -> (r: DecodeError)
        ensures
            self.shows_as(r),
    {
        match self {
            DecodeFault::Send(text) => DecodeError::Send(text),
            DecodeFault::Receive(text) => DecodeError::Receive(text),
            DecodeFault::HwTransfer(text) => DecodeError::HwTransfer(text),
            DecodeFault::UnknownFormat(fmt) => {
                let mut text = String::from_str("the decoder emitted pixel format ");
                text.append(signed_str(fmt as i64).as_str());
                text.append(
                    ", which this build of libavutil does not describe \u{2014} it cannot be converted, and passing it to swscale would abort the process",
                );
                DecodeError::Convert(text)
            },
            DecodeFault::NoScaler => DecodeError::Convert(
                String::from_str("sws_getContext failed"),
            ),
            DecodeFault::Scale(rows) => {
                let mut text = String::from_str("sws_scale returned ");
                text.append(signed_str(rows as i64).as_str());
                DecodeError::Convert(text)
            },
            DecodeFault::NoFrame => DecodeError::NoFrame,
        }
    }
}

/// How samples are filtered where a conversion changes their number.
pub const SWS_BILINEAR: i32 = 2;

/// Rows that follow one another without padding.
pub const PACKED_ROWS: i32 = 1;

/// What the caller has to do next.
pub enum DecodeCall {
    /// Offer the packet to the codec.
    SendPacket { packet: Packet },
    /// Tell the codec that no more packets come.
    SendEnd,
    /// Take one frame out of the codec.
    ReceiveFrame,
    /// Read extent, time and depth of the surface just received.
    ReadSurface,
    /// Read the colour of the frame just received, for samples of that depth.
    ReadColor { bit_depth: u8 },
    /// Copy the surface into the interop textures.
    CopyToTarget { width: u32, height: u32 },
    /// Copy the surface to host memory, and its colour properties with it.
    Transfer,
    /// Read the pixel format of the frame.
    Describe,
    /// Copy the frame, as it is, into the destination.
    CopyOut { fmt: i32, align: i32 },
    /// Set up a conversion, without scaling.
    MakeScaler { fmt: i32, dst_fmt: i32, flags: i32 },
    /// Lay the planes of the converted frame out over the destination.
    FillPlanes { dst_fmt: i32, align: i32 },
    /// Convert, then free the scaler.
    Scale,
    /// Read the time of the received frame, and extent and colour of the copied one.
    ReadMeta { bit_depth: u8 },
    /// Read the next packet of the video stream, after flushing the codec if `flush` is set.
    NextPacket { flush: bool },
    /// Read the time of the frame just received, and drop the frame.
    ReadTime,
    /// The packet has been taken.
    Fed,
    /// There is no frame.
    NoFrame,
    /// A frame; drop the received one, and the one in host memory if `drop_transfer` is set.
    Frame { frame: DecodedFrame, drop_transfer: bool },
    /// The first frame at or past the target has this time.
    Sought { pts: i64 },
    /// Free the scaler if `free_scaler` is set, drop both frames if `drop_frames` is set.
    Failed { fault: DecodeFault, drop_frames: bool, free_scaler: bool },
}

/// What came of it.  `text` is FFmpeg's rendering of a negative status.
pub enum DecodeReply {
    Sent { status: i32, text: String },
    Received { status: i32, text: String },
    Surface { width: i32, height: i32, pts: i64, depth: i32 },
    /// `hdr` tells whether the project counts the colour as one of high dynamic range,
    /// which is more than its transfer function decides.
    Color { color: ColorInfo, hdr: bool },
    Copied { ok: bool, text: String },
    Transferred { status: i32, text: String },
    /// `known` is set for a format that libavutil describes.
    Described { fmt: i32, known: bool, depth: i32 },
    CopiedOut { status: i32, text: String },
    Scaler { ok: bool },
    /// The bytes the planes take, and the bytes there are.
    Filled { size: i32, room: usize, text: String },
    Scaled { rows: i32 },
    Meta { pts: i64, width: i32, height: i32, color: ColorInfo },
    /// The next packet, or nothing at the end of the file or when reading it failed.
    Next { packet: Option<Packet> },
    Time { pts: i64 },
}

/// What the decoder is waiting for.
#[derive(Debug, Clone, Copy, PartialEq, Eq, Structural)]
pub enum DecodeTask {
    Idle,
    /// The oldest refused packet, on the way to `packet`.
    FeedingOld { packet: Packet, receive: Option<bool> },
    FeedingNew { packet: Packet, receive: Option<bool> },
    /// The oldest refused packet, on the way to the end of the stream.
    DrainingOld,
    SendingEnd,
    Receiving { interop: bool, drained: bool },
    ReadingSurface,
    Probing { pts: i64, width: u32, height: u32 },
    Coloring { pts: i64, width: u32, height: u32, layout: FrameLayout },
    CopyingSurface { frame: DecodedFrame },
    Transferring,
    Describing,
    CopyingOut { layout: FrameLayout },
    MakingScaler { layout: FrameLayout, dst_fmt: i32 },
    Filling { layout: FrameLayout },
    Scaling { layout: FrameLayout },
    ReadingMeta { layout: FrameLayout },
    SeekReading { target: i64 },
    SeekSending { target: i64 },
    SeekReceiving { target: i64 },
    SeekTiming { target: i64 },
}

/// Bits per component, where FFmpeg says `depth`.
pub open spec fn component_depth(depth: i32) -> u8 {
    if depth <= 0 { 8 } else { depth as u8 }
}

/// Bits per component of a pixel format whose depth FFmpeg gives as `depth`; 8 where it
/// gives none.
pub fn pix_fmt_bit_depth(depth: i32) -> (r: u8)
    ensures
        r == component_depth(depth),
{
    if depth <= 0 {
        8
    } else {
        #[verifier::truncate]
        (depth as u8)
    }
}

/// A frame's time, zero where it has none.
pub open spec fn time_of(pts: i64) -> i64 {
    if pts == AV_NOPTS_VALUE { 0 } else { pts }
}

fn frame_time(pts: i64) -> (r: i64)
    ensures
        r == time_of(pts),
{
    if pts == AV_NOPTS_VALUE {
        0
    } else {
        pts
    }
}

/// What NVDEC delivers for that colour, which is one of high dynamic range if `hdr` is set.
pub open spec fn surface_layout(probe: ColorInfo, hdr: bool) -> FrameLayout {
    if probe.bit_depth >= 10 || hdr {
        FrameLayout { bit_depth: 10, semi_planar: true, msb_aligned: true }
    } else {
        FrameLayout { bit_depth: 8, semi_planar: true, msb_aligned: false }
    }
}

/// What a format of that depth is converted to: more than 8 bits stay more than 8 bits.
pub open spec fn converted_fmt(depth: i32) -> i32 {
    if component_depth(depth) > 8 { AV_PIX_FMT_YUV420P10LE } else { AV_PIX_FMT_YUV420P }
}

pub open spec fn converted_layout(depth: i32) -> FrameLayout {
    if component_depth(depth) > 8 {
        FrameLayout { bit_depth: 10, semi_planar: false, msb_aligned: false }
    } else {
        FrameLayout { bit_depth: 8, semi_planar: false, msb_aligned: false }
    }
}

/// A frame of that layout; its colour's depth is the layout's.
pub open spec fn decoded(
    pts: i64,
    width: u32,
    height: u32,
    layout: FrameLayout,
    color: ColorInfo,
) -> DecodedFrame {
    DecodedFrame {
        pts,
        meta: DecodedFrameMeta {
            layout,
            color: ColorInfo { bit_depth: layout.bit_depth, ..color },
        },
        width,
        height,
    }
}

fn decoded_frame(
    pts: i64,
    width: u32,
    height: u32,
    layout: FrameLayout,
    color: ColorInfo,
) -> (r: DecodedFrame)
    ensures
        r == decoded(pts, width, height, layout, color),
{
    let mut color: ColorInfo = color;
    color.bit_depth = layout.bit_depth;
    DecodedFrame { pts, meta: DecodedFrameMeta { layout, color }, width, height }
}

/// The decoder as a value.
#[verifier::ext_equal]
pub struct DecoderState {
    pub hw: HwDeviceType,
    /// The codec has been told that no more packets come.
    pub draining: bool,
    /// Packets the codec had no room for, oldest first.
    pub pending: Seq<Packet>,
    pub task: DecodeTask,
}

impl DecoderState {
    pub open spec fn inv(self) -> bool {
        self.task is FeedingOld || self.task is DrainingOld ==> self.pending.len() > 0
    }

    pub open spec fn at(self, task: DecodeTask) -> DecoderState {
        DecoderState { task, ..self }
    }

    pub open spec fn fail(self, fault: DecodeFault, drop_frames: bool, free_scaler: bool) -> (
        DecoderState,
        DecodeCall,
    ) {
        (self.at(DecodeTask::Idle), DecodeCall::Failed { fault, drop_frames, free_scaler })
    }

    /// Take one frame out.
    pub open spec fn receive(self, interop: bool, drained: bool) -> (DecoderState, DecodeCall) {
        (self.at(DecodeTask::Receiving { interop, drained }), DecodeCall::ReceiveFrame)
    }

    /// The packet is taken; receive if that was asked for too.
    pub open spec fn fed(self, receive: Option<bool>) -> (DecoderState, DecodeCall) {
        match receive {
            None => (self.at(DecodeTask::Idle), DecodeCall::Fed),
            Some(interop) => self.receive(interop, false),
        }
    }

    /// Offer the refused packets and then `packet`.
    pub open spec fn feed(self, packet: Packet, receive: Option<bool>) -> (
        DecoderState,
        DecodeCall,
    ) {
        if self.pending.len() > 0 {
            (
                self.at(DecodeTask::FeedingOld { packet, receive }),
                DecodeCall::SendPacket { packet: self.pending[0] },
            )
        } else {
            (
                self.at(DecodeTask::FeedingNew { packet, receive }),
                DecodeCall::SendPacket { packet },
            )
        }
    }

    /// Offer the refused packets, then the end of the stream, and take one frame out.
    pub open spec fn drain(self) -> (DecoderState, DecodeCall) {
        if self.pending.len() > 0 {
            (
                self.at(DecodeTask::DrainingOld),
                DecodeCall::SendPacket { packet: self.pending[0] },
            )
        } else if !self.draining {
            (self.at(DecodeTask::SendingEnd), DecodeCall::SendEnd)
        } else {
            self.receive(false, true)
        }
    }

    /// Bring the received frame out.
    pub open spec fn emit(self, interop: bool) -> (DecoderState, DecodeCall) {
        if self.hw is Cuda && interop {
            (self.at(DecodeTask::ReadingSurface), DecodeCall::ReadSurface)
        } else if !(self.hw is Software) {
            (self.at(DecodeTask::Transferring), DecodeCall::Transfer)
        } else {
            (self.at(DecodeTask::Describing), DecodeCall::Describe)
        }
    }

    /// The refused packets without the oldest.
    pub open spec fn shorter(self) -> DecoderState {
        DecoderState { pending: self.pending.drop_first(), ..self }
    }

    pub open spec fn longer(self, packet: Packet) -> DecoderState {
        DecoderState { pending: self.pending.push(packet), ..self }
    }

    /// Nothing of what came before a seek is left.
    pub open spec fn flushed(self) -> DecoderState {
        DecoderState { draining: false, pending: Seq::empty(), ..self }
    }

    pub open spec fn read_on(self, target: i64) -> (DecoderState, DecodeCall) {
        (self.at(DecodeTask::SeekReading { target }), DecodeCall::NextPacket { flush: false })
    }

    pub open spec fn answers(self, reply: DecodeReply) -> bool {
        match reply {
            DecodeReply::Sent { .. } => self.task is FeedingOld || self.task is FeedingNew
                || self.task is DrainingOld || self.task is SendingEnd || self.task is SeekSending,
            DecodeReply::Received { .. } => self.task is Receiving || self.task is SeekReceiving,
            DecodeReply::Surface { .. } => self.task is ReadingSurface,
            DecodeReply::Color { .. } => self.task is Probing || self.task is Coloring,
            DecodeReply::Copied { .. } => self.task is CopyingSurface,
            DecodeReply::Transferred { .. } => self.task is Transferring,
            DecodeReply::Described { .. } => self.task is Describing,
            DecodeReply::CopiedOut { .. } => self.task is CopyingOut,
            DecodeReply::Scaler { .. } => self.task is MakingScaler,
            DecodeReply::Filled { .. } => self.task is Filling,
            DecodeReply::Scaled { .. } => self.task is Scaling,
            DecodeReply::Meta { .. } => self.task is ReadingMeta,
            DecodeReply::Next { .. } => self.task is SeekReading,
            DecodeReply::Time { .. } => self.task is SeekTiming,
        }
    }

    /// A packet, or the end of the stream, was offered.
    pub open spec fn after_send(self, status: i32, text: String) -> (DecoderState, DecodeCall) {
        let again = status == AVERROR_EAGAIN;
        match self.task {
            DecodeTask::FeedingOld { packet, receive } => if again {
                self.longer(packet).fed(receive)
            } else if status < 0 {
                self.shorter().fail(DecodeFault::Send(text), false, false)
            } else {
                self.shorter().feed(packet, receive)
            },
            DecodeTask::FeedingNew { packet, receive } => if again {
                self.longer(packet).fed(receive)
            } else if status < 0 {
                self.fail(DecodeFault::Send(text), false, false)
            } else {
                self.fed(receive)
            },
            DecodeTask::DrainingOld => if again {
                self.receive(false, false)
            } else if status < 0 && status != AVERROR_EOF {
                self.shorter().fail(DecodeFault::Send(text), false, false)
            } else {
                self.shorter().drain()
            },
            DecodeTask::SendingEnd => if status < 0 && status != AVERROR_EOF {
                self.fail(DecodeFault::Send(text), false, false)
            } else {
                DecoderState { draining: true, ..self }.receive(false, true)
            },
            DecodeTask::SeekSending { target } => if status < 0 && !again {
                self.read_on(target)
            } else {
                (self.at(DecodeTask::SeekReceiving { target }), DecodeCall::ReceiveFrame)
            },
            _ => (self, DecodeCall::NoFrame),
        }
    }

    /// A frame was taken out, or not.
    pub open spec fn after_receive(self, status: i32, text: String) -> (DecoderState, DecodeCall) {
        match self.task {
            DecodeTask::Receiving { interop, drained } => if status == AVERROR_EAGAIN || status
                == AVERROR_EOF {
                (self.at(DecodeTask::Idle), DecodeCall::NoFrame)
            } else if status < 0 || (status != 0 && !drained) {
                self.fail(DecodeFault::Receive(text), false, false)
            } else {
                self.emit(interop)
            },
            DecodeTask::SeekReceiving { target } => if status < 0 {
                self.read_on(target)
            } else {
                (self.at(DecodeTask::SeekTiming { target }), DecodeCall::ReadTime)
            },
            _ => (self, DecodeCall::NoFrame),
        }
    }

    /// The pixel format of the frame is known.
    pub open spec fn after_description(self, fmt: i32, known: bool, depth: i32) -> (
        DecoderState,
        DecodeCall,
    ) {
        match layout_of(fmt) {
            Some(layout) => (
                self.at(DecodeTask::CopyingOut { layout }),
                DecodeCall::CopyOut { fmt, align: PACKED_ROWS },
            ),
            None => if !known {
                self.fail(DecodeFault::UnknownFormat(fmt), true, false)
            } else {
                (
                    self.at(
                        DecodeTask::MakingScaler {
                            layout: converted_layout(depth),
                            dst_fmt: converted_fmt(depth),
                        },
                    ),
                    DecodeCall::MakeScaler {
                        fmt,
                        dst_fmt: converted_fmt(depth),
                        flags: SWS_BILINEAR,
                    },
                )
            },
        }
    }

    pub open spec fn read_meta(self, layout: FrameLayout) -> (DecoderState, DecodeCall) {
        (
            self.at(DecodeTask::ReadingMeta { layout }),
            DecodeCall::ReadMeta { bit_depth: layout.bit_depth },
        )
    }

    /// The decoder and its call after `reply`.
    pub open spec fn after(self, reply: DecodeReply) -> (DecoderState, DecodeCall) {
        match (self.task, reply) {
            (_, DecodeReply::Sent { status, text }) => self.after_send(status, text),
            (_, DecodeReply::Received { status, text }) => self.after_receive(status, text),
            (DecodeTask::ReadingSurface, DecodeReply::Surface { width, height, pts, depth }) => {
                let probe_depth = component_depth(depth);
                (
                    self.at(
                        DecodeTask::Probing {
                            pts: time_of(pts),
                            width: width as u32,
                            height: height as u32,
                        },
                    ),
                    DecodeCall::ReadColor { bit_depth: if probe_depth > 8 { probe_depth } else { 8 } },
                )
            },
            (DecodeTask::Probing { pts, width, height }, DecodeReply::Color { color, hdr }) => {
                let layout = surface_layout(color, hdr);
                (
                    self.at(DecodeTask::Coloring { pts, width, height, layout }),
                    DecodeCall::ReadColor { bit_depth: layout.bit_depth },
                )
            },
            (
                DecodeTask::Coloring { pts, width, height, layout },
                DecodeReply::Color { color, .. },
            ) => (
                self.at(
                    DecodeTask::CopyingSurface {
                        frame: decoded(pts, width, height, layout, color),
                    },
                ),
                DecodeCall::CopyToTarget { width, height },
            ),
            (DecodeTask::CopyingSurface { frame }, DecodeReply::Copied { ok, text }) => if ok {
                (
                    self.at(DecodeTask::Idle),
                    DecodeCall::Frame { frame, drop_transfer: true },
                )
            } else {
                self.fail(DecodeFault::HwTransfer(text), true, false)
            },
            (DecodeTask::Transferring, DecodeReply::Transferred { status, text }) => if status
                < 0 {
                self.fail(DecodeFault::HwTransfer(text), true, false)
            } else {
                (self.at(DecodeTask::Describing), DecodeCall::Describe)
            },
            (DecodeTask::Describing, DecodeReply::Described { fmt, known, depth }) =>
                self.after_description(fmt, known, depth),
            (DecodeTask::CopyingOut { layout }, DecodeReply::CopiedOut { status, text }) =>
                if status < 0 {
                    self.fail(DecodeFault::Receive(text), true, false)
                } else {
                    self.read_meta(layout)
                },
            (DecodeTask::MakingScaler { layout, dst_fmt }, DecodeReply::Scaler { ok }) => if ok {
                (
                    self.at(DecodeTask::Filling { layout }),
                    DecodeCall::FillPlanes { dst_fmt, align: PACKED_ROWS },
                )
            } else {
                self.fail(DecodeFault::NoScaler, true, false)
            },
            (DecodeTask::Filling { layout }, DecodeReply::Filled { size, room, text }) => if size
                < 0 || size > room {
                self.fail(DecodeFault::Receive(text), true, true)
            } else {
                (self.at(DecodeTask::Scaling { layout }), DecodeCall::Scale)
            },
            (DecodeTask::Scaling { layout }, DecodeReply::Scaled { rows }) => if rows <= 0 {
                self.fail(DecodeFault::Scale(rows), true, false)
            } else {
                self.read_meta(layout)
            },
            (
                DecodeTask::ReadingMeta { layout },
                DecodeReply::Meta { pts, width, height, color },
            ) => (
                self.at(DecodeTask::Idle),
                DecodeCall::Frame {
                    frame: decoded(time_of(pts), width as u32, height as u32, layout, color),
                    drop_transfer: !(self.hw is Software),
                },
            ),
            (DecodeTask::SeekReading { target }, DecodeReply::Next { packet }) => match packet {
                Some(packet) => (
                    self.at(DecodeTask::SeekSending { target }),
                    DecodeCall::SendPacket { packet },
                ),
                None => self.fail(DecodeFault::NoFrame, false, false),
            },
            (DecodeTask::SeekTiming { target }, DecodeReply::Time { pts }) => if time_of(pts)
                >= target {
                (self.at(DecodeTask::Idle), DecodeCall::Sought { pts: time_of(pts) })
            } else {
                (self.at(DecodeTask::SeekReceiving { target }), DecodeCall::ReceiveFrame)
            },
            _ => (self, DecodeCall::NoFrame),
        }
    }

    /// The packets that wait for the codec, the one being offered first.
    pub open spec fn backlog(self) -> Seq<Packet> {
        match self.task {
            DecodeTask::FeedingOld { packet, .. } => self.pending.push(packet),
            DecodeTask::FeedingNew { packet, .. } => self.pending.push(packet),
            _ => self.pending,
        }
    }

    /// A received frame is on its way out.
    pub open spec fn emitting(self) -> bool {
        ||| self.task is ReadingSurface
        ||| self.task is Probing
        ||| self.task is Coloring
        ||| self.task is CopyingSurface
        ||| self.task is Transferring
        ||| self.task is Describing
        ||| self.task is CopyingOut
        ||| self.task is MakingScaler
        ||| self.task is Filling
        ||| self.task is Scaling
        ||| self.task is ReadingMeta
    }
}

/// A decoder: the device it decodes on, and the packets its codec had no room for.
pub struct Decoder {
    hw_type: HwDeviceType,
    draining: bool,
    pending: VecDeque<Packet>,
    task: DecodeTask,
}

impl View for Decoder {
    type V = DecoderState;

    closed spec fn view(&self) -> DecoderState {
        DecoderState {
            hw: self.hw_type,
            draining: self.draining,
            pending: self.pending@,
            task: self.task,
        }
    }
}

impl Decoder {
    /// Start opening a decoder; without `enable_hw` no hardware is tried.
    pub fn open(codec_id: u32, enable_hw: bool, os: HostOs) -> (r: (DecoderOpening, DecoderOpenCall))
        ensures
            r.0.wf(),
            r.0.codec_id == codec_id,
            r.0.enable_hw == enable_hw,
            r.0.probe.os == os,
            r.0.stage is Finding,
            r.1 == (DecoderOpenCall::FindCodec { codec_id }),
    {
        let (probe, _step) = probe_hardware_device(os);
        (
            DecoderOpening { codec_id, enable_hw, probe, stage: DecoderOpenStage::Finding },
            DecoderOpenCall::FindCodec { codec_id },
        )
    }

    /// Start opening a decoder that decodes in software, as for still images.
    pub fn open_sw(codec_id: u32) -> (r: (DecoderOpening, DecoderOpenCall))
        ensures
            r.0.wf(),
            r.0.codec_id == codec_id,
            !r.0.enable_hw,
            r.0.stage is Finding,
            r.1 == (DecoderOpenCall::FindCodec { codec_id }),
    {
        Self::open(codec_id, false, HostOs::Other)
    }

    /// A decoder that has just been opened.
    pub fn opened(hw_type: HwDeviceType) -> (r: Self)
        ensures
            r@ == (DecoderState {
                hw: hw_type,
                draining: false,
                pending: Seq::empty(),
                task: DecodeTask::Idle,
            }),
            r@.inv(),
    {
        let r = Decoder {
            hw_type,
            draining: false,
            pending: VecDeque::new(),
            task: DecodeTask::Idle,
        };
        assert(r@.pending =~= Seq::empty());
        r
    }

    /// The device the decoder is attached to.
    pub fn hw_type(&self) -> (r: HwDeviceType)
        ensures
            r == self@.hw,
    {
        self.hw_type
    }

    /// Forget what came before a seek; the codec's own buffers are flushed with it.
    pub fn flush(&mut self)
        requires
            old(self)@.task is Idle,
        ensures
            final(self)@ == old(self)@.flushed(),
            final(self)@.inv(),
    {
        self.draining = false;
        self.pending.clear();
        assert(self@ =~= old(self)@.flushed());
    }

    fn fail(&mut self, fault: DecodeFault, drop_frames: bool, free_scaler: bool) -> (r: DecodeCall)
        ensures
            (final(self)@, r) == old(self)@.fail(fault, drop_frames, free_scaler),
    {
        self.task = DecodeTask::Idle;
        DecodeCall::Failed { fault, drop_frames, free_scaler }
    }

    fn receive(&mut self, interop: bool, drained: bool) -> (r: DecodeCall)
        ensures
            (final(self)@, r) == old(self)@.receive(interop, drained),
    {
        self.task = DecodeTask::Receiving { interop, drained };
        DecodeCall::ReceiveFrame
    }

    fn fed(&mut self, receive: Option<bool>) -> (r: DecodeCall)
        ensures
            (final(self)@, r) == old(self)@.fed(receive),
    {
        match receive {
            None => {
                self.task = DecodeTask::Idle;
                DecodeCall::Fed
            },
            Some(interop) => self.receive(interop, false),
        }
    }

    fn feed(&mut self, packet: Packet, receive: Option<bool>) -> (r: DecodeCall)
        ensures
            (final(self)@, r) == old(self)@.feed(packet, receive),
            final(self)@.inv(),
    {
        if self.pending.len() > 0 {
            self.task = DecodeTask::FeedingOld { packet, receive };
            DecodeCall::SendPacket { packet: self.pending[0] }
        } else {
            self.task = DecodeTask::FeedingNew { packet, receive };
            DecodeCall::SendPacket { packet }
        }
    }

    fn drain(&mut self) -> (r: DecodeCall)
        ensures
            (final(self)@, r) == old(self)@.drain(),
            final(self)@.inv(),
    {
        if self.pending.len() > 0 {
            self.task = DecodeTask::DrainingOld;
            DecodeCall::SendPacket { packet: self.pending[0] }
        } else if !self.draining {
            self.task = DecodeTask::SendingEnd;
            DecodeCall::SendEnd
        } else {
            self.receive(false, true)
        }
    }

    fn shorten(&mut self)
        requires
            old(self)@.pending.len() > 0,
        ensures
            final(self)@ == old(self)@.shorter(),
    {
        let _ = self.pending.pop_front();
        assert(self@ =~= old(self)@.shorter());
    }

    fn lengthen(&mut self, packet: Packet)
        ensures
            final(self)@ == old(self)@.longer(packet),
    {
        self.pending.push_back(packet);
        assert(self@ =~= old(self)@.longer(packet));
    }

    fn emit(&mut self, interop: bool) -> (r: DecodeCall)
        ensures
            (final(self)@, r) == old(self)@.emit(interop),
    {
        if self.hw_type == HwDeviceType::Cuda && interop {
            self.task = DecodeTask::ReadingSurface;
            DecodeCall::ReadSurface
        } else if self.hw_type != HwDeviceType::Software {
            self.task = DecodeTask::Transferring;
            DecodeCall::Transfer
        } else {
            self.task = DecodeTask::Describing;
            DecodeCall::Describe
        }
    }

    fn read_meta(&mut self, layout: FrameLayout) -> (r: DecodeCall)
        ensures
            (final(self)@, r) == old(self)@.read_meta(layout),
    {
        self.task = DecodeTask::ReadingMeta { layout };
        DecodeCall::ReadMeta { bit_depth: layout.bit_depth }
    }

    fn read_on(&mut self, target: i64) -> (r: DecodeCall)
        ensures
            (final(self)@, r) == old(self)@.read_on(target),
    {
        self.task = DecodeTask::SeekReading { target };
        DecodeCall::NextPacket { flush: false }
    }

    /// Offer a packet without taking a frame out.  A packet that the codec has no room for
    /// is kept and offered first the next time.
    pub fn send_packet_only(&mut self, packet: Packet) -> (r: DecodeCall)
        requires
            old(self)@.task is Idle,
        ensures
            (final(self)@, r) == old(self)@.feed(packet, None),
            final(self)@.inv(),
    {
        self.feed(packet, None)
    }

    /// Offer a packet, then take at most one frame out.  `interop` is set when there is a
    /// usable target on the GPU.
    pub fn decode_into(&mut self, packet: Packet, interop: bool) -> (r: DecodeCall)
        requires
            old(self)@.task is Idle,
        ensures
            (final(self)@, r) == old(self)@.feed(packet, Some(interop)),
            final(self)@.inv(),
    {
        self.feed(packet, Some(interop))
    }

    /// Take at most one frame out.
    pub fn receive_into(&mut self, interop: bool) -> (r: DecodeCall)
        requires
            old(self)@.task is Idle,
        ensures
            (final(self)@, r) == old(self)@.receive(interop, false),
            final(self)@.inv(),
    {
        self.receive(interop, false)
    }

    /// Take one of the frames out that the codec holds back at the end of the stream.
    pub fn drain_into(&mut self) -> (r: DecodeCall)
        requires
            old(self)@.task is Idle,
        ensures
            (final(self)@, r) == old(self)@.drain(),
            final(self)@.inv(),
    {
        self.drain()
    }

    /// Decode and drop frames up to the first one at or past `target`, which is dropped too.
    pub fn seek_to(&mut self, target: i64) -> (r: DecodeCall)
        requires
            old(self)@.task is Idle,
        ensures
            final(self)@ == old(self)@.flushed().at(DecodeTask::SeekReading { target }),
            r == (DecodeCall::NextPacket { flush: true }),
            final(self)@.inv(),
    {
        self.flush();
        self.task = DecodeTask::SeekReading { target };
        DecodeCall::NextPacket { flush: true }
    }

    fn sent(&mut self, status: i32, text: String) -> (r: DecodeCall)
        requires
            old(self)@.inv(),
            old(self)@.answers((DecodeReply::Sent { status, text })),
        ensures
            (final(self)@, r) == old(self)@.after_send(status, text),
            final(self)@.inv(),
    {
        let again: bool = status == AVERROR_EAGAIN;
        match self.task {
            DecodeTask::FeedingOld { packet, receive } => {
                if again {
                    self.lengthen(packet);
                    return self.fed(receive);
                }
                self.shorten();
                if status < 0 {
                    return self.fail(DecodeFault::Send(text), false, false);
                }
                self.feed(packet, receive)
            },
            DecodeTask::FeedingNew { packet, receive } => {
                if again {
                    self.lengthen(packet);
                } else if status < 0 {
                    return self.fail(DecodeFault::Send(text), false, false);
                }
                self.fed(receive)
            },
            DecodeTask::DrainingOld => {
                if again {
                    return self.receive(false, false);
                }
                self.shorten();
                if status < 0 && status != AVERROR_EOF {
                    return self.fail(DecodeFault::Send(text), false, false);
                }
                self.drain()
            },
            DecodeTask::SendingEnd => {
                if status < 0 && status != AVERROR_EOF {
                    return self.fail(DecodeFault::Send(text), false, false);
                }
                self.draining = true;
                self.receive(false, true)
            },
            DecodeTask::SeekSending { target } => {
                if status < 0 && !again {
                    return self.read_on(target);
                }
                self.task = DecodeTask::SeekReceiving { target };
                DecodeCall::ReceiveFrame
            },
            _ => DecodeCall::NoFrame,
        }
    }

    fn received(&mut self, status: i32, text: String) -> (r: DecodeCall)
        requires
            old(self)@.answers((DecodeReply::Received { status, text })),
        ensures
            (final(self)@, r) == old(self)@.after_receive(status, text),
            final(self)@.inv(),
    {
        match self.task {
            DecodeTask::Receiving { interop, drained } => {
                if status == AVERROR_EAGAIN || status == AVERROR_EOF {
                    self.task = DecodeTask::Idle;
                    return DecodeCall::NoFrame;
                }
                if status < 0 || (status != 0 && !drained) {
                    return self.fail(DecodeFault::Receive(text), false, false);
                }
                self.emit(interop)
            },
            DecodeTask::SeekReceiving { target } => {
                if status < 0 {
                    return self.read_on(target);
                }
                self.task = DecodeTask::SeekTiming { target };
                DecodeCall::ReadTime
            },
            _ => DecodeCall::NoFrame,
        }
    }

    fn describe(&mut self, fmt: i32, known: bool, depth: i32) -> (r: DecodeCall)
        requires
            old(self)@.task is Describing,
        ensures
            (final(self)@, r) == old(self)@.after_description(fmt, known, depth),
            final(self)@.inv(),
    {
        match frame_layout_for_pix_fmt(fmt) {
            Some(layout) => {
                self.task = DecodeTask::CopyingOut { layout };
                DecodeCall::CopyOut { fmt, align: PACKED_ROWS }
            },
            None => {
                if !known {
                    return self.fail(DecodeFault::UnknownFormat(fmt), true, false);
                }
                let (dst_fmt, layout): (i32, FrameLayout) = if pix_fmt_bit_depth(depth) > 8 {
                    (AV_PIX_FMT_YUV420P10LE, FrameLayout::yuv420p10())
                } else {
                    (AV_PIX_FMT_YUV420P, FrameLayout::yuv420p8())
                };
                self.task = DecodeTask::MakingScaler { layout, dst_fmt };
                DecodeCall::MakeScaler { fmt, dst_fmt, flags: SWS_BILINEAR }
            },
        }
    }

    fn surface(&mut self, reply: DecodeReply) -> (r: DecodeCall)
        requires
            old(self)@.answers(reply),
            reply is Surface || reply is Color || reply is Copied,
        ensures
            (final(self)@, r) == old(self)@.after(reply),
            final(self)@.inv(),
    {
        match (self.task, reply) {
            (DecodeTask::ReadingSurface, DecodeReply::Surface { width, height, pts, depth }) => {
                let probe_depth: u8 = pix_fmt_bit_depth(depth);
                self.task = DecodeTask::Probing {
                    pts: frame_time(pts),
                    width: width as u32,
                    height: height as u32,
                };
                DecodeCall::ReadColor { bit_depth: if probe_depth > 8 { probe_depth } else { 8 } }
            },
            (DecodeTask::Probing { pts, width, height }, DecodeReply::Color { color, hdr }) => {
                let layout: FrameLayout = if color.bit_depth >= 10 || hdr {
                    FrameLayout::p010()
                } else {
                    FrameLayout::nv12()
                };
                self.task = DecodeTask::Coloring { pts, width, height, layout };
                DecodeCall::ReadColor { bit_depth: layout.bit_depth }
            },
            (
                DecodeTask::Coloring { pts, width, height, layout },
                DecodeReply::Color { color, .. },
            ) => {
                let frame: DecodedFrame = decoded_frame(pts, width, height, layout, color);
                self.task = DecodeTask::CopyingSurface { frame };
                DecodeCall::CopyToTarget { width, height }
            },
            (DecodeTask::CopyingSurface { frame }, DecodeReply::Copied { ok, text }) => {
                if !ok {
                    return self.fail(DecodeFault::HwTransfer(text), true, false);
                }
                self.task = DecodeTask::Idle;
                DecodeCall::Frame { frame, drop_transfer: true }
            },
            _ => DecodeCall::NoFrame,
        }
    }

    /// Take what came of the last call and say what to do next.
    pub fn resume(&mut self, reply: DecodeReply) -> (r: DecodeCall)
        requires
            old(self)@.inv(),
            old(self)@.answers(reply),
        ensures
            (final(self)@, r) == old(self)@.after(reply),
            final(self)@.inv(),
    {
        match reply {
            DecodeReply::Sent { status, text } => self.sent(status, text),
            DecodeReply::Received { status, text } => self.received(status, text),
            DecodeReply::Transferred { status, text } => {
                if status < 0 {
                    return self.fail(DecodeFault::HwTransfer(text), true, false);
                }
                self.task = DecodeTask::Describing;
                DecodeCall::Describe
            },
            DecodeReply::Described { fmt, known, depth } => self.describe(fmt, known, depth),
            DecodeReply::CopiedOut { status, text } => {
                if status < 0 {
                    return self.fail(DecodeFault::Receive(text), true, false);
                }
                match self.task {
                    DecodeTask::CopyingOut { layout } => self.read_meta(layout),
                    _ => DecodeCall::NoFrame,
                }
            },
            DecodeReply::Scaler { ok } => {
                if !ok {
                    return self.fail(DecodeFault::NoScaler, true, false);
                }
                match self.task {
                    DecodeTask::MakingScaler { layout, dst_fmt } => {
                        self.task = DecodeTask::Filling { layout };
                        DecodeCall::FillPlanes { dst_fmt, align: PACKED_ROWS }
                    },
                    _ => DecodeCall::NoFrame,
                }
            },
            DecodeReply::Filled { size, room, text } => {
                if size < 0 || size as usize > room {
                    return self.fail(DecodeFault::Receive(text), true, true);
                }
                match self.task {
                    DecodeTask::Filling { layout } => {
                        self.task = DecodeTask::Scaling { layout };
                        DecodeCall::Scale
                    },
                    _ => DecodeCall::NoFrame,
                }
            },
            DecodeReply::Scaled { rows } => {
                if rows <= 0 {
                    return self.fail(DecodeFault::Scale(rows), true, false);
                }
                match self.task {
                    DecodeTask::Scaling { layout } => self.read_meta(layout),
                    _ => DecodeCall::NoFrame,
                }
            },
            DecodeReply::Meta { pts, width, height, color } => {
                match self.task {
                    DecodeTask::ReadingMeta { layout } => {
                        self.task = DecodeTask::Idle;
                        let frame: DecodedFrame = decoded_frame(
                            frame_time(pts),
                            width as u32,
                            height as u32,
                            layout,
                            color,
                        );
                        DecodeCall::Frame {
                            frame,
                            drop_transfer: self.hw_type != HwDeviceType::Software,
                        }
                    },
                    _ => DecodeCall::NoFrame,
                }
            },
            DecodeReply::Next { packet } => {
                match (self.task, packet) {
                    (DecodeTask::SeekReading { target }, Some(packet)) => {
                        self.task = DecodeTask::SeekSending { target };
                        DecodeCall::SendPacket { packet }
                    },
                    _ => self.fail(DecodeFault::NoFrame, false, false),
                }
            },
            DecodeReply::Time { pts } => {
                let pts: i64 = frame_time(pts);
                match self.task {
                    DecodeTask::SeekTiming { target } => {
                        if pts >= target {
                            self.task = DecodeTask::Idle;
                            return DecodeCall::Sought { pts };
                        }
                        self.task = DecodeTask::SeekReceiving { target };
                        DecodeCall::ReceiveFrame
                    },
                    _ => DecodeCall::NoFrame,
                }
            },
            _ => self.surface(reply),
        }
    }
}

/// What opening a decoder has to do next.
pub enum DecoderOpenCall {
    FindCodec { codec_id: u32 },
    AllocContext,
    CopyParameters,
    /// Create a hardware device of that type, with those flags.
    CreateDevice { device: HwDeviceType, flags: i32 },
    /// Attach the device just created, if there is one, and open the codec; without a device
    /// the codec picks its number of threads.
    OpenCodec { device: HwDeviceType },
    /// Allocate the frame that is received into and the one in host memory.
    AllocFrames,
    Ready { decoder: Decoder },
    /// Free the context if `free_context` is set, and give up.
    Failed { error: DecodeError, free_context: bool },
}

/// What came of it.
pub enum DecoderOpenReply {
    Found { found: bool },
    Allocated { ok: bool },
    Status { status: i32, text: String },
}

#[derive(Debug, Clone, Copy, PartialEq, Eq, Structural)]
pub enum DecoderOpenStage {
    Finding,
    AllocatingContext,
    CopyingParameters,
    CreatingDevice,
    Opening { device: HwDeviceType },
    AllocatingFrames { device: HwDeviceType },
    Over,
}

/// A decoder being opened.
pub struct DecoderOpening {
    pub codec_id: u32,
    /// Hardware is tried; not for audio and not for still images.
    pub enable_hw: bool,
    pub probe: HwProbe,
    pub stage: DecoderOpenStage,
}

impl DecoderOpening {
    pub open spec fn wf(&self) -> bool {
        &&& self.probe.wf()
        &&& self.stage is CreatingDevice ==> self.probe.current < preferred(self.probe.os).len()
        &&& self.stage is Finding || self.stage is AllocatingContext || self.stage
            is CopyingParameters ==> self.probe.current == 0
    }

    pub open spec fn answers(&self, reply: DecoderOpenReply) -> bool {
        match reply {
            DecoderOpenReply::Found { .. } => self.stage is Finding,
            DecoderOpenReply::Allocated { .. } => self.stage is AllocatingContext || self.stage
                is AllocatingFrames,
            DecoderOpenReply::Status { .. } => self.stage is CopyingParameters || self.stage
                is CreatingDevice || self.stage is Opening,
        }
    }

    /// `call` and the stage `after` follow the step of the search for a device.
    pub open spec fn goes_by(step: HwProbeStep, after: DecoderOpenStage, call: DecoderOpenCall) -> bool {
        match step {
            HwProbeStep::Create { device } => {
                &&& after is CreatingDevice
                &&& call == (DecoderOpenCall::CreateDevice { device, flags: device.flags() })
            },
            HwProbeStep::Attached { device } => {
                &&& after == (DecoderOpenStage::Opening { device })
                &&& call == (DecoderOpenCall::OpenCodec { device })
            },
            HwProbeStep::Software => {
                &&& after == (DecoderOpenStage::Opening { device: HwDeviceType::Software })
                &&& call == (DecoderOpenCall::OpenCodec { device: HwDeviceType::Software })
            },
        }
    }

    pub open spec fn fails(
        error: DecodeError,
        free_context: bool,
        after: DecoderOpenStage,
        call: DecoderOpenCall,
    ) -> bool {
        &&& after is Over
        &&& call == (DecoderOpenCall::Failed { error, free_context })
    }

    /// What follows `reply`.
    pub open spec fn follows(&self, reply: DecoderOpenReply, after: Self, call: DecoderOpenCall) -> bool {
        match (self.stage, reply) {
            (DecoderOpenStage::Finding, DecoderOpenReply::Found { found }) => if found {
                after.stage is AllocatingContext && call is AllocContext
            } else {
                Self::fails(
                    DecodeError::CodecNotFound(self.codec_id),
                    false,
                    after.stage,
                    call,
                )
            },
            (DecoderOpenStage::AllocatingContext, DecoderOpenReply::Allocated { ok }) => if ok {
                after.stage is CopyingParameters && call is CopyParameters
            } else {
                Self::fails(DecodeError::Alloc, false, after.stage, call)
            },
            (DecoderOpenStage::CopyingParameters, DecoderOpenReply::Status { status, text }) =>
                if status < 0 {
                    Self::fails(DecodeError::Open(text), true, after.stage, call)
                } else if self.enable_hw {
                    Self::goes_by(HwProbe::attempt(self.probe.os, 0), after.stage, call)
                } else {
                    Self::goes_by(HwProbeStep::Software, after.stage, call)
                },
            (DecoderOpenStage::CreatingDevice, DecoderOpenReply::Status { status, .. }) => if status
                == 0 {
                Self::goes_by(
                    HwProbeStep::Attached {
                        device: preferred(self.probe.os)[self.probe.current as int],
                    },
                    after.stage,
                    call,
                )
            } else {
                &&& after.probe.current == self.probe.current + 1
                &&& Self::goes_by(
                    HwProbe::attempt(self.probe.os, self.probe.current + 1),
                    after.stage,
                    call,
                )
            },
            (DecoderOpenStage::Opening { device }, DecoderOpenReply::Status { status, text }) =>
                if status < 0 {
                    Self::fails(DecodeError::Open(text), true, after.stage, call)
                } else {
                    &&& after.stage == (DecoderOpenStage::AllocatingFrames { device })
                    &&& call is AllocFrames
                },
            (DecoderOpenStage::AllocatingFrames { device }, DecoderOpenReply::Allocated { ok }) =>
                if ok {
                    &&& after.stage is Over
                    &&& call matches DecoderOpenCall::Ready { decoder }
                    &&& decoder@ == (DecoderState {
                        hw: device,
                        draining: false,
                        pending: Seq::empty(),
                        task: DecodeTask::Idle,
                    })
                } else {
                    Self::fails(DecodeError::Alloc, true, after.stage, call)
                },
            _ => true,
        }
    }

    fn go_by(&mut self, step: HwProbeStep) -> (r: DecoderOpenCall)
        ensures
            final(self).codec_id == old(self).codec_id,
            final(self).enable_hw == old(self).enable_hw,
            final(self).probe == old(self).probe,
            Self::goes_by(step, final(self).stage, r),
    {
        match step {
            HwProbeStep::Create { device } => {
                self.stage = DecoderOpenStage::CreatingDevice;
                DecoderOpenCall::CreateDevice { device, flags: device.create_flags() }
            },
            HwProbeStep::Attached { device } => {
                self.stage = DecoderOpenStage::Opening { device };
                DecoderOpenCall::OpenCodec { device }
            },
            HwProbeStep::Software => {
                self.stage = DecoderOpenStage::Opening { device: HwDeviceType::Software };
                DecoderOpenCall::OpenCodec { device: HwDeviceType::Software }
            },
        }
    }

    fn fail(&mut self, error: DecodeError, free_context: bool) -> (r: DecoderOpenCall)
        ensures
            *final(self) == (DecoderOpening { stage: DecoderOpenStage::Over, ..*old(self) }),
            Self::fails(error, free_context, final(self).stage, r),
    {
        self.stage = DecoderOpenStage::Over;
        DecoderOpenCall::Failed { error, free_context }
    }

    /// Take what came of the last call and say what to do next.
    pub fn resume(&mut self, reply: DecoderOpenReply) -> (r: DecoderOpenCall)
        requires
            old(self).wf(),
            old(self).answers(reply),
        ensures
            final(self).wf(),
            final(self).codec_id == old(self).codec_id,
            final(self).enable_hw == old(self).enable_hw,
            final(self).probe.os == old(self).probe.os,
            old(self).follows(reply, *final(self), r),
    {
        match (self.stage, reply) {
            (DecoderOpenStage::Finding, DecoderOpenReply::Found { found }) => {
                if !found {
                    return self.fail(DecodeError::CodecNotFound(self.codec_id), false);
                }
                self.stage = DecoderOpenStage::AllocatingContext;
                DecoderOpenCall::AllocContext
            },
            (DecoderOpenStage::AllocatingContext, DecoderOpenReply::Allocated { ok }) => {
                if !ok {
                    return self.fail(DecodeError::Alloc, false);
                }
                self.stage = DecoderOpenStage::CopyingParameters;
                DecoderOpenCall::CopyParameters
            },
            (DecoderOpenStage::CopyingParameters, DecoderOpenReply::Status { status, text }) => {
                if status < 0 {
                    return self.fail(DecodeError::Open(text), true);
                }
                if self.enable_hw {
                    let (probe, step) = probe_hardware_device(self.probe.os);
                    self.probe = probe;
                    self.go_by(step)
                } else {
                    self.go_by(HwProbeStep::Software)
                }
            },
            (DecoderOpenStage::CreatingDevice, DecoderOpenReply::Status { status, .. }) => {
                let step = self.probe.created(status);
                self.go_by(step)
            },
            (DecoderOpenStage::Opening { device }, DecoderOpenReply::Status { status, text }) => {
                if status < 0 {
                    return self.fail(DecodeError::Open(text), true);
                }
                self.stage = DecoderOpenStage::AllocatingFrames { device };
                DecoderOpenCall::AllocFrames
            },
            (DecoderOpenStage::AllocatingFrames { device }, DecoderOpenReply::Allocated { ok }) => {
                if !ok {
                    return self.fail(DecodeError::Alloc, true);
                }
                self.stage = DecoderOpenStage::Over;
                DecoderOpenCall::Ready { decoder: Decoder::opened(device) }
            },
            _ => self.fail(DecodeError::Alloc, true),
        }
    }
}

/// Packets reach the codec in the order they were offered, and none is lost while the codec
/// does not fail: what it takes is the oldest that waits, and what it refuses goes on
/// waiting in its place.
pub proof fn law_packets_keep_their_order(
    s: DecoderState,
    packet: Packet,
    receive: Option<bool>,
    status: i32,
    text: String,
)
    requires
        s.inv(),
    ensures
        s.task is Idle ==> {
            &&& s.feed(packet, receive).0.backlog() == s.pending.push(packet)
            &&& s.feed(packet, receive).1 == (DecodeCall::SendPacket {
                packet: s.pending.push(packet)[0],
            })
        },
        (s.task is FeedingOld || s.task is FeedingNew) && status == AVERROR_EAGAIN ==> {
            &&& s.after_send(status, text).0.backlog() == s.backlog()
            &&& !(s.after_send(status, text).1 is SendPacket)
        },
        s.task is FeedingOld && status >= 0 ==> {
            &&& s.after_send(status, text).0.backlog() == s.backlog().drop_first()
            &&& s.after_send(status, text).1 == (DecodeCall::SendPacket {
                packet: s.backlog().drop_first()[0],
            })
        },
        s.task is FeedingNew && s.pending.len() == 0 && status >= 0 ==> s.after_send(
            status,
            text,
        ).0.backlog() == s.backlog().drop_first(),
{
    match s.task {
        DecodeTask::FeedingOld { packet: p, receive: rc } => {
            assert(s.pending.push(p).drop_first() =~= s.pending.drop_first().push(p));
            if s.pending.len() == 1 {
                assert(s.pending.drop_first() =~= Seq::empty());
            }
        },
        DecodeTask::FeedingNew { packet: p, .. } => {
            if s.pending.len() == 0 {
                assert(s.pending.push(p).drop_first() =~= s.pending);
            }
        },
        _ => {},
    }
}

/// The end of the stream is announced only when no packet waits, and only once.
pub proof fn law_the_end_comes_last(s: DecoderState, reply: DecodeReply)
    requires
        s.inv(),
        s.answers(reply),
        s.after(reply).1 is SendEnd,
    ensures
        s.after(reply).0.pending.len() == 0,
        !s.after(reply).0.draining,
{
}

/// A received frame is out before another one is received: while one is on its way no reply
/// makes the decoder ask for another, because receiving would overwrite it.
pub proof fn law_a_frame_is_out_before_the_next(s: DecoderState, reply: DecodeReply)
    requires
        s.emitting(),
        s.answers(reply),
    ensures
        !(s.after(reply).1 is ReceiveFrame),
        s.after(reply).0.emitting() || s.after(reply).0.task is Idle,
        s.after(reply).0.pending == s.pending,
        s.after(reply).0.draining == s.draining,
{
}

/// No received frame is kept: once it is on its way out, the decoder rests only after saying
/// that it is to be dropped, whether bringing it out succeeded or not.  Where it went by way
/// of the device the frame in host memory is dropped with it, and a scaler that was set up
/// is freed.
pub proof fn law_received_frames_are_dropped(s: DecoderState, reply: DecodeReply)
    requires
        s.emitting(),
        s.answers(reply),
    ensures
        s.after(reply).0.task is Idle <==> (s.after(reply).1 is Frame || s.after(reply).1 is Failed),
        s.after(reply).1 matches DecodeCall::Frame { drop_transfer, .. } ==> drop_transfer
            || s.hw is Software,
        s.after(reply).1 matches DecodeCall::Failed { drop_frames, free_scaler, .. } ==> {
            &&& drop_frames
            &&& free_scaler <==> s.task is Filling
        },
{
}

/// What is said of a frame is true of its bytes: the depth of its colour is the depth of its
/// layout.
pub proof fn law_depths_agree(s: DecoderState, reply: DecodeReply)
    requires
        s.answers(reply),
        s.task matches DecodeTask::CopyingSurface { frame } ==> frame.meta.color.bit_depth
            == frame.meta.layout.bit_depth,
    ensures
        s.after(reply).1 matches DecodeCall::Frame { frame, .. } ==> frame.meta.color.bit_depth
            == frame.meta.layout.bit_depth,
        s.after(reply).0.task matches DecodeTask::CopyingSurface { frame }
            ==> frame.meta.color.bit_depth == frame.meta.layout.bit_depth,
{
}

/// A format that cannot be converted never reaches the scaler, and a conversion keeps more
/// than 8 bits where there are more than 8.
pub proof fn law_conversions_are_sound(s: DecoderState, fmt: i32, known: bool, depth: i32)
    requires
        s.task is Describing,
    ensures
        s.after_description(fmt, known, depth).1 is MakeScaler ==> known && layout_of(fmt) is None,
        match s.after_description(fmt, known, depth).0.task {
            DecodeTask::MakingScaler { layout, dst_fmt } => {
                &&& layout_of(dst_fmt) == Some(layout)
                &&& component_depth(depth) > 8 <==> layout.bit_depth > 8
            },
            DecodeTask::CopyingOut { layout } => layout_of(fmt) == Some(layout),
            _ => !known && layout_of(fmt) is None,
        },
{
}

/// A decoder without hardware never creates a device and always ends up in software.
pub proof fn law_software_decoders_create_no_device(
    before: DecoderOpening,
    reply: DecoderOpenReply,
    after: DecoderOpening,
    call: DecoderOpenCall,
)
    requires
        before.wf(),
        before.answers(reply),
        before.follows(reply, after, call),
        !before.enable_hw,
        !(before.stage is CreatingDevice),
        before.stage matches DecoderOpenStage::Opening { device } ==> device is Software,
        before.stage matches DecoderOpenStage::AllocatingFrames { device } ==> device is Software,
    ensures
        !(call is CreateDevice),
        !(after.stage is CreatingDevice),
        after.stage matches DecoderOpenStage::Opening { device } ==> device is Software,
        after.stage matches DecoderOpenStage::AllocatingFrames { device } ==> device is Software,
        call matches DecoderOpenCall::Ready { decoder } ==> decoder@.hw is Software,
{
}

/// A fault shows as the error of its own kind, with FFmpeg's words where FFmpeg has said
/// something and with the number that tells what happened otherwise.
pub proof fn law_faults_show_as_their_errors(fault: DecodeFault, error: DecodeError)
    requires
        fault.shows_as(error),
    ensures
        fault is Send <==> error is Send,
        fault is Receive <==> error is Receive,
        fault is HwTransfer <==> error is HwTransfer,
        fault is NoFrame <==> error is NoFrame,
        fault is UnknownFormat || fault is NoScaler || fault is Scale <==> error is Convert,
        fault matches DecodeFault::Send(text) ==> error->Send_0@ == text@,
        fault matches DecodeFault::Receive(text) ==> error->Receive_0@ == text@,
        fault matches DecodeFault::HwTransfer(text) ==> error->HwTransfer_0@ == text@,
        fault is NoScaler ==> error->Convert_0@ == "sws_getContext failed"@,
        fault matches DecodeFault::Scale(rows) ==> error->Convert_0@ == "sws_scale returned "@
            + signed_decimal(rows as int),
        fault matches DecodeFault::UnknownFormat(fmt) ==> {
            let start = "the decoder emitted pixel format "@ + signed_decimal(fmt as int);
            &&& error->Convert_0@.len() > start.len()
            &&& error->Convert_0@.subrange(0, start.len() as int) == start
        },
{
    if let DecodeFault::UnknownFormat(fmt) = fault {
        let start = "the decoder emitted pixel format "@ + signed_decimal(fmt as int);
        let text = error->Convert_0@;
        reveal_strlit(
            ", which this build of libavutil does not describe \u{2014} it cannot be converted, and passing it to swscale would abort the process",
        );
        assert(text.subrange(0, start.len() as int) =~= start);
    }
}

/// What a codec says to a packet, or to the end of the stream.  A refusal for want of room is
/// no failure: the packet waits and, where a frame was asked for, one is taken out.  Any other
/// negative status is a failure in FFmpeg's words, but for an end the codec knows of already.
pub proof fn law_sending_fails_for_errors_only(
    s: DecoderState,
    status: i32,
    text: String,
)
    requires
        s.inv(),
        s.answers((DecodeReply::Sent { status, text })),
        !(s.task is SeekSending),
    ensures
        ({
            let (after, call) = s.after((DecodeReply::Sent { status, text }));
            let ending = s.task is DrainingOld || s.task is SendingEnd;
            let full = status == -11 && !(s.task is SendingEnd);
            let over = status == -541478725 && ending;
            &&& call is Failed <==> status < 0 && !full && !over
            &&& call is Failed ==> {
                &&& call->fault == DecodeFault::Send(text)
                &&& after.task is Idle
                &&& !call->drop_frames && !call->free_scaler
            }
            &&& ending && full ==> {
                &&& call is ReceiveFrame
                &&& after.pending == s.pending
                &&& after.task == (DecodeTask::Receiving { interop: false, drained: false })
            }
            &&& s.task is SendingEnd && !(call is Failed) ==> {
                &&& call is ReceiveFrame
                &&& after.draining
                &&& after.task == (DecodeTask::Receiving { interop: false, drained: true })
            }
            &&& s.task is DrainingOld && !full ==> after.pending == s.pending.drop_first()
            &&& s.task is DrainingOld && !full && !(call is Failed) ==> {
                &&& s.pending.len() > 1 ==> call == (DecodeCall::SendPacket {
                    packet: s.pending[1],
                }) && after.task is DrainingOld
                &&& s.pending.len() == 1 && !s.draining ==> call is SendEnd && after.task
                    is SendingEnd
            }
            &&& s.task matches DecodeTask::FeedingOld { packet, receive } ==> {
                &&& full ==> {
                    &&& after.pending == s.pending.push(packet)
                    &&& receive is None ==> call is Fed && after.task is Idle
                    &&& receive is Some ==> call is ReceiveFrame && after.task == (
                    DecodeTask::Receiving { interop: receive->0, drained: false })
                }
                &&& !full ==> after.pending == s.pending.drop_first()
                &&& !full && !(call is Failed) && s.pending.len() > 1 ==> call == (
                DecodeCall::SendPacket { packet: s.pending[1] }) && after.task == s.task
                &&& !full && !(call is Failed) && s.pending.len() == 1 ==> call == (
                DecodeCall::SendPacket { packet }) && after.task == (DecodeTask::FeedingNew {
                    packet,
                    receive,
                })
            }
            &&& s.task matches DecodeTask::FeedingNew { packet, receive } ==> {
                &&& !(call is Failed) && receive is None ==> call is Fed && after.task is Idle
                &&& !(call is Failed) && receive is Some ==> {
                    &&& call is ReceiveFrame
                    &&& after.task == (DecodeTask::Receiving {
                        interop: receive->0,
                        drained: false,
                    })
                }
                &&& after.pending == if full { s.pending.push(packet) } else { s.pending }
            }
        }),
{
}

/// Draining offers what waits first, oldest first, then tells the codec that no more comes,
/// and after that takes frames out.
pub proof fn law_draining_offers_what_waits(s: DecoderState)
    requires
        s.task is Idle,
    ensures
        s.pending.len() > 0 ==> s.drain().1 == (DecodeCall::SendPacket { packet: s.pending[0] })
            && s.drain().0 == (DecoderState { task: DecodeTask::DrainingOld, ..s }),
        s.pending.len() == 0 && !s.draining ==> s.drain().1 is SendEnd && s.drain().0.task
            is SendingEnd,
        s.pending.len() == 0 && s.draining ==> s.drain().1 is ReceiveFrame && s.drain().0.task
            == (DecodeTask::Receiving { interop: false, drained: true }),
        s.drain().0.pending == s.pending,
        s.drain().0.draining == s.draining,
{
}

/// A codec without a frame is no failure, a codec that fails is one in FFmpeg's words, and a
/// frame that was taken out is brought out the way of its device: a CUDA surface into the
/// textures where that is asked for, any other surface by way of host memory, and a frame of
/// a software decoder as it is.
pub proof fn law_a_received_frame_is_brought_out(
    s: DecoderState,
    status: i32,
    text: String,
)
    requires
        s.task is Receiving,
    ensures
        ({
            let (after, call) = s.after((DecodeReply::Received { status, text }));
            let interop = s.task->Receiving_interop;
            let none = status == -11 || status == -541478725;
            &&& none <==> call is NoFrame
            &&& none ==> after.task is Idle
            &&& status < 0 && !none ==> {
                &&& call is Failed
                &&& call->fault == DecodeFault::Receive(text)
                &&& !call->drop_frames
            }
            &&& status > 0 && !s.task->Receiving_drained ==> {
                &&& call is Failed
                &&& call->fault == DecodeFault::Receive(text)
            }
            &&& status == 0 || status > 0 && s.task->Receiving_drained ==> {
                &&& call is ReadSurface <==> s.hw is Cuda && interop
                &&& call is Transfer <==> !(s.hw is Software) && !(s.hw is Cuda && interop)
                &&& call is Describe <==> s.hw is Software
                &&& call is ReadSurface ==> after.task is ReadingSurface
                &&& call is Transfer ==> after.task is Transferring
                &&& call is Describe ==> after.task is Describing
            }
            &&& after.pending == s.pending && after.draining == s.draining && after.hw == s.hw
        }),
{
}

/// A frame that comes out has the time the codec gave it, zero where it gave none, the extent
/// and the colour that were read, and the layout its bytes are in.
pub proof fn law_a_frame_is_what_was_read(
    s: DecoderState,
    pts: i64,
    width: i32,
    height: i32,
    color: ColorInfo,
)
    requires
        s.task is ReadingMeta,
        width >= 0,
        height >= 0,
    ensures
        ({
            let (after, call) = s.after((DecodeReply::Meta { pts, width, height, color }));
            &&& call is Frame
            &&& after.task is Idle
            &&& call->frame.pts == if pts == i64::MIN { 0 } else { pts }
            &&& call->frame.width == width
            &&& call->frame.height == height
            &&& call->frame.meta.layout == s.task->ReadingMeta_layout
            &&& call->frame.meta.color.matrix == color.matrix
            &&& call->frame.meta.color.range == color.range
            &&& call->frame.meta.color.transfer_fn == color.transfer_fn
            &&& call->frame.meta.color.primaries == color.primaries
            &&& call->frame.meta.color.bit_depth == s.task->ReadingMeta_layout.bit_depth
            &&& call->drop_transfer <==> !(s.hw is Software)
        }),
{
}

/// A frame in host memory is copied as it is where its layout can be uploaded, and converted
/// where it cannot, to three planes of ten bits in the low bits where it has more than eight
/// and of eight otherwise; rows follow one another without padding.  Its colour is read for
/// the depth it has then.
pub proof fn law_host_frames_are_copied_or_converted(
    s: DecoderState,
    fmt: i32,
    known: bool,
    depth: i32,
)
    requires
        s.task is Describing,
        depth <= 255,
    ensures
        ({
            let (after, call) = s.after((DecodeReply::Described { fmt, known, depth }));
            let taken = fmt == 0 || fmt == 23 || fmt == 62 || fmt == 123 || fmt == 158 || fmt
                == 169;
            &&& call is CopyOut <==> taken
            &&& call is CopyOut ==> call->CopyOut_fmt == fmt && call->CopyOut_align == 1
            &&& !taken && !known ==> call is Failed && call->fault == DecodeFault::UnknownFormat(
                fmt,
            )
            &&& call is MakeScaler <==> !taken && known
            &&& call is MakeScaler ==> {
                let task = after.task;
                &&& call->MakeScaler_fmt == fmt
                &&& call->MakeScaler_dst_fmt == if depth > 8 { 62i32 } else { 0 }
                &&& call->flags == 2
                &&& task is MakingScaler
                &&& task->dst_fmt == call->MakeScaler_dst_fmt
                &&& task->MakingScaler_layout.bit_depth == if depth > 8 { 10u8 } else { 8 }
                &&& !task->MakingScaler_layout.semi_planar
                &&& !task->MakingScaler_layout.msb_aligned
            }
        }),
{
}

/// Each step of bringing a frame out leads to the next with the same layout, and its failure
/// ends the frame with the error of the step: a copy that fails is a failure to receive, planes
/// that do not fit are one too, and nothing converted is a failure of the conversion.
pub proof fn law_bringing_out_goes_step_by_step(s: DecoderState, reply: DecodeReply)
    requires
        s.emitting(),
        s.answers(reply),
    ensures
        ({
            let (after, call) = s.after(reply);
            match (s.task, reply) {
                (DecodeTask::Transferring, DecodeReply::Transferred { status, text }) => {
                    &&& call is Describe <==> status >= 0
                    &&& status >= 0 ==> after.task is Describing
                    &&& status < 0 ==> call is Failed && call->fault == DecodeFault::HwTransfer(
                        text,
                    )
                },
                (DecodeTask::CopyingOut { layout }, DecodeReply::CopiedOut { status, text }) => {
                    &&& call is ReadMeta <==> status >= 0
                    &&& call is ReadMeta ==> call->ReadMeta_bit_depth == layout.bit_depth
                        && after.task == (DecodeTask::ReadingMeta { layout })
                    &&& status < 0 ==> call is Failed && call->fault == DecodeFault::Receive(text)
                },
                (DecodeTask::MakingScaler { layout, dst_fmt }, DecodeReply::Scaler { ok }) => {
                    &&& ok ==> call == (DecodeCall::FillPlanes { dst_fmt, align: 1 })
                        && after.task == (DecodeTask::Filling { layout })
                    &&& !ok ==> call is Failed && call->fault is NoScaler
                },
                (DecodeTask::Filling { layout }, DecodeReply::Filled { size, room, text }) => {
                    &&& call is Scale <==> 0 <= size <= room
                    &&& call is Scale ==> after.task == (DecodeTask::Scaling { layout })
                    &&& !(call is Scale) ==> call is Failed && call->fault == DecodeFault::Receive(
                        text,
                    )
                },
                (DecodeTask::Scaling { layout }, DecodeReply::Scaled { rows }) => {
                    &&& call is ReadMeta <==> rows > 0
                    &&& call is ReadMeta ==> call->ReadMeta_bit_depth == layout.bit_depth
                        && after.task == (DecodeTask::ReadingMeta { layout })
                    &&& rows <= 0 ==> call is Failed && call->fault == DecodeFault::Scale(rows)
                },
                _ => true,
            }
        }),
{
}

/// A surface is copied into the textures in its own extent, and described as what NVDEC
/// delivers: ten bits in the high bits where it has ten or more or carries high dynamic range,
/// eight otherwise, interleaved either way.  Its colour is read for that depth.
pub proof fn law_surfaces_are_described_as_delivered(s: DecoderState, reply: DecodeReply)
    requires
        s.answers(reply),
    ensures
        ({
            let (after, call) = s.after(reply);
            match (s.task, reply) {
                (DecodeTask::ReadingSurface, DecodeReply::Surface { width, height, pts, depth }) =>
                    0 <= width && 0 <= height && depth <= 255 ==> {
                        &&& call is ReadColor
                        &&& call->ReadColor_bit_depth == if depth > 8 { depth as int } else { 8 }
                        &&& after.task is Probing
                        &&& after.task->Probing_width == width
                        &&& after.task->Probing_height == height
                        &&& after.task->Probing_pts == if pts == i64::MIN { 0 } else { pts }
                    },
                (DecodeTask::Probing { pts, width, height }, DecodeReply::Color { color, hdr }) => {
                    let deep = color.bit_depth >= 10 || hdr;
                    &&& after.task is Coloring
                    &&& after.task->Coloring_pts == pts
                    &&& after.task->Coloring_width == width
                    &&& after.task->Coloring_height == height
                    &&& after.task->Coloring_layout.semi_planar
                    &&& after.task->Coloring_layout.msb_aligned <==> deep
                    &&& after.task->Coloring_layout.bit_depth == if deep { 10u8 } else { 8 }
                    &&& call is ReadColor
                    &&& call->ReadColor_bit_depth == if deep { 10u8 } else { 8 }
                },
                (
                    DecodeTask::Coloring { pts, width, height, layout },
                    DecodeReply::Color { color, hdr },
                ) => {
                    &&& call == (DecodeCall::CopyToTarget { width, height })
                    &&& after.task is CopyingSurface
                    &&& after.task->frame.pts == pts
                    &&& after.task->frame.width == width
                    &&& after.task->frame.height == height
                    &&& after.task->frame.meta.layout == layout
                    &&& after.task->frame.meta.color.matrix == color.matrix
                    &&& after.task->frame.meta.color.range == color.range
                    &&& after.task->frame.meta.color.transfer_fn == color.transfer_fn
                    &&& after.task->frame.meta.color.primaries == color.primaries
                },
                (DecodeTask::CopyingSurface { frame }, DecodeReply::Copied { ok, text }) => {
                    &&& ok ==> call is Frame && call->frame == frame
                    &&& !ok ==> call is Failed && call->fault == DecodeFault::HwTransfer(text)
                },
                _ => true,
            }
        }),
{
}

/// A seek decodes and drops until the first frame at or past its target, reads on whenever the
/// codec has nothing, and fails only at the end of the file.
pub proof fn law_a_seek_ends_at_its_target(s: DecoderState, reply: DecodeReply, target: i64)
    requires
        s.answers(reply),
        s.task == (DecodeTask::SeekReading { target }) || s.task == (DecodeTask::SeekSending {
            target,
        }) || s.task == (DecodeTask::SeekReceiving { target }) || s.task == (
        DecodeTask::SeekTiming { target }),
    ensures
        ({
            let (after, call) = s.after(reply);
            match reply {
                DecodeReply::Next { packet } => match packet {
                    Some(packet) => call == (DecodeCall::SendPacket { packet }) && after.task == (
                    DecodeTask::SeekSending { target }),
                    None => call is Failed && call->fault is NoFrame && after.task is Idle,
                },
                DecodeReply::Sent { status, .. } => if status >= 0 || status == -11 {
                    call is ReceiveFrame && after.task == (DecodeTask::SeekReceiving { target })
                } else {
                    call == (DecodeCall::NextPacket { flush: false }) && after.task == (
                    DecodeTask::SeekReading { target })
                },
                DecodeReply::Received { status, .. } => if status >= 0 {
                    call is ReadTime && after.task == (DecodeTask::SeekTiming { target })
                } else {
                    call == (DecodeCall::NextPacket { flush: false }) && after.task == (
                    DecodeTask::SeekReading { target })
                },
                DecodeReply::Time { pts } => {
                    let time = if pts == i64::MIN { 0 } else { pts };
                    &&& time >= target ==> call is Sought && call->pts == time && after.task
                        is Idle
                    &&& time < target ==> call is ReceiveFrame && after.task == (
                    DecodeTask::SeekReceiving { target })
                },
                _ => true,
            }
        }),
{
}

/// Seeking forgets everything of before: no packet waits, and the stream is not at its end.
pub proof fn law_flushing_forgets(s: DecoderState)
    ensures
        s.flushed().pending.len() == 0,
        !s.flushed().draining,
        s.flushed().hw == s.hw,
{
}

/// A decoder is opened step by step, on the first device that can be created, in software where
/// none can, and it is ready for its first packet.  What fails is said by its own error, and
/// the context is freed once there is one.
pub proof fn law_a_decoder_is_opened_in_order(
    before: DecoderOpening,
    reply: DecoderOpenReply,
    after: DecoderOpening,
    call: DecoderOpenCall,
)
    requires
        before.wf(),
        before.answers(reply),
        before.follows(reply, after, call),
    ensures
        match (before.stage, reply) {
            (DecoderOpenStage::Finding, DecoderOpenReply::Found { found }) => {
                &&& found ==> call is AllocContext && after.stage is AllocatingContext
                &&& !found ==> call is Failed && call->error == DecodeError::CodecNotFound(
                    before.codec_id,
                ) && !call->free_context
            },
            (DecoderOpenStage::AllocatingContext, DecoderOpenReply::Allocated { ok }) => {
                &&& ok ==> call is CopyParameters && after.stage is CopyingParameters
                &&& !ok ==> call is Failed && call->error is Alloc && !call->free_context
            },
            (DecoderOpenStage::CopyingParameters, DecoderOpenReply::Status { status, text }) => {
                &&& status < 0 ==> call is Failed && call->error == DecodeError::Open(text)
                    && call->free_context
                &&& status >= 0 && !before.enable_hw ==> call is OpenCodec
                    && call->OpenCodec_device is Software
                &&& status >= 0 && before.enable_hw && before.probe.os is Linux ==> call
                    is CreateDevice && call->CreateDevice_device is Cuda && call->flags == 1
                &&& status >= 0 && before.enable_hw && before.probe.os is Windows ==> call
                    is CreateDevice && call->CreateDevice_device is D3D12Va && call->flags == 0
                &&& status >= 0 && before.enable_hw && before.probe.os is MacOs ==> call
                    is CreateDevice && call->CreateDevice_device is VideoToolbox && call->flags
                    == 0
                &&& status >= 0 && before.enable_hw && before.probe.os is Other ==> call
                    is OpenCodec && call->OpenCodec_device is Software
            },
            (DecoderOpenStage::CreatingDevice, DecoderOpenReply::Status { status, .. }) => {
                let tried = preferred(before.probe.os);
                let current = before.probe.current as int;
                &&& status == 0 ==> {
                    &&& call == (DecoderOpenCall::OpenCodec { device: tried[current] })
                    &&& after.stage == (DecoderOpenStage::Opening { device: tried[current] })
                }
                &&& status != 0 && current + 1 < tried.len() ==> {
                    &&& call is CreateDevice
                    &&& call->CreateDevice_device == tried[current + 1]
                    &&& after.stage is CreatingDevice
                }
                &&& status != 0 && current + 1 >= tried.len() ==> {
                    &&& call is OpenCodec
                    &&& call->OpenCodec_device is Software
                }
            },
            (DecoderOpenStage::Opening { device }, DecoderOpenReply::Status { status, text }) => {
                &&& status >= 0 ==> call is AllocFrames && after.stage == (
                DecoderOpenStage::AllocatingFrames { device })
                &&& status < 0 ==> call is Failed && call->error == DecodeError::Open(text)
                    && call->free_context
            },
            (DecoderOpenStage::AllocatingFrames { device }, DecoderOpenReply::Allocated { ok }) => {
                &&& ok ==> {
                    &&& call is Ready
                    &&& call->decoder@.hw == device
                    &&& call->decoder@.pending.len() == 0
                    &&& !call->decoder@.draining
                    &&& call->decoder@.task is Idle
                }
                &&& !ok ==> call is Failed && call->error is Alloc && call->free_context
            },
            _ => true,
        },
        call is Failed || call is Ready ==> after.stage is Over || before.stage is Over,
{
}

} // verus!
