use nexir::arith::{div_ceil_u64, div_trunc_i64};
use nexir::interop::capability::HostOs;
use nexir::io::decoder::{
    pix_fmt_bit_depth, DecodeCall, DecodeError, DecodeFault, DecodeReply, Decoder, DecoderOpenCall,
    DecoderOpenReply,
};
use nexir::io::demuxer::{
    read_stream_info, DemuxError, DemuxOpenCall, DemuxOpenReply, Demuxer, Packet, ReadCall,
    StreamFacts,
};
use nexir::io::ffi::avutil::{
    frame_layout_for_pix_fmt, AVRational, AVERROR_EAGAIN, AVERROR_EOF, AV_NOPTS_VALUE,
    AV_PIX_FMT_NV12, AV_PIX_FMT_P010LE, AV_PIX_FMT_YUV420P, AV_PIX_FMT_YUV420P12LE,
};
use nexir::io::ffi::hw_accel::{probe_hardware_device, HwDeviceType, HwProbeStep};
use nexir::text::{decimal_str, hex_lower_str, hex_padded_str, signed_str, str_contains};
use nexir::timeline::{ColorInfo, Rational};

fn packet(handle: u64) -> Packet {
    Packet { handle, stream_index: 0, pts: handle as i64, duration: 1 }
}

fn sent(status: i32) -> DecodeReply {
    DecodeReply::Sent { status, text: String::from("send") }
}

fn received(status: i32) -> DecodeReply {
    DecodeReply::Received { status, text: String::from("receive") }
}

#[test]
fn a_software_frame_is_copied_as_it_is() {
    let mut decoder = Decoder::opened(HwDeviceType::Software);
    assert_eq!(decoder.hw_type(), HwDeviceType::Software);
    let call = decoder.decode_into(packet(1), false);
    assert!(matches!(call, DecodeCall::SendPacket { packet } if packet.handle == 1));
    assert!(matches!(decoder.resume(sent(0)), DecodeCall::ReceiveFrame));
    assert!(matches!(decoder.resume(received(0)), DecodeCall::Describe));
    let described = DecodeReply::Described { fmt: AV_PIX_FMT_YUV420P, known: true, depth: 8 };
    assert!(matches!(decoder.resume(described), DecodeCall::CopyOut { fmt: AV_PIX_FMT_YUV420P, align: 1 }));
    let copied = DecodeReply::CopiedOut { status: 10, text: String::new() };
    assert!(matches!(decoder.resume(copied), DecodeCall::ReadMeta { bit_depth: 8 }));
    let meta = DecodeReply::Meta { pts: 90, width: 640, height: 360, color: ColorInfo::bt709() };
    match decoder.resume(meta) {
        DecodeCall::Frame { frame, drop_transfer } => {
            assert_eq!((frame.pts, frame.width, frame.height), (90, 640, 360));
            assert!(!frame.is_semi_planar());
            assert!(!drop_transfer);
        }
        _ => panic!("the frame is out"),
    }
}

#[test]
fn packets_that_find_no_room_keep_their_order() {
    let mut decoder = Decoder::opened(HwDeviceType::Software);
    assert!(matches!(decoder.send_packet_only(packet(1)), DecodeCall::SendPacket { .. }));
    assert!(matches!(decoder.resume(sent(AVERROR_EAGAIN)), DecodeCall::Fed));
    let call = decoder.send_packet_only(packet(2));
    assert!(matches!(call, DecodeCall::SendPacket { packet } if packet.handle == 1));
    assert!(matches!(decoder.resume(sent(AVERROR_EAGAIN)), DecodeCall::Fed));
    let call = decoder.decode_into(packet(3), false);
    assert!(matches!(call, DecodeCall::SendPacket { packet } if packet.handle == 1));
    let call = decoder.resume(sent(0));
    assert!(matches!(call, DecodeCall::SendPacket { packet } if packet.handle == 2));
    let call = decoder.resume(sent(0));
    assert!(matches!(call, DecodeCall::SendPacket { packet } if packet.handle == 3));
    assert!(matches!(decoder.resume(sent(0)), DecodeCall::ReceiveFrame));
    assert!(matches!(decoder.resume(received(AVERROR_EAGAIN)), DecodeCall::NoFrame));
}

#[test]
fn draining_sends_the_end_once_and_last() {
    let mut decoder = Decoder::opened(HwDeviceType::Software);
    let _ = decoder.send_packet_only(packet(1));
    let _ = decoder.resume(sent(AVERROR_EAGAIN));
    let call = decoder.drain_into();
    assert!(matches!(call, DecodeCall::SendPacket { packet } if packet.handle == 1));
    assert!(matches!(decoder.resume(sent(0)), DecodeCall::SendEnd));
    assert!(matches!(decoder.resume(sent(0)), DecodeCall::ReceiveFrame));
    assert!(matches!(decoder.resume(received(AVERROR_EOF)), DecodeCall::NoFrame));
    assert!(matches!(decoder.drain_into(), DecodeCall::ReceiveFrame));
    let _ = decoder.resume(received(AVERROR_EOF));
    decoder.flush();
    assert!(matches!(decoder.drain_into(), DecodeCall::SendEnd));
}

#[test]
fn an_unusual_format_is_converted() {
    let mut decoder = Decoder::opened(HwDeviceType::Vaapi);
    let _ = decoder.receive_into(false);
    assert!(matches!(decoder.resume(received(0)), DecodeCall::Transfer));
    let transferred = DecodeReply::Transferred { status: 0, text: String::new() };
    assert!(matches!(decoder.resume(transferred), DecodeCall::Describe));
    let described = DecodeReply::Described { fmt: 4, known: true, depth: 8 };
    assert!(matches!(
        decoder.resume(described),
        DecodeCall::MakeScaler { fmt: 4, dst_fmt: AV_PIX_FMT_YUV420P, flags: 2 }
    ));
    assert!(matches!(
        decoder.resume(DecodeReply::Scaler { ok: true }),
        DecodeCall::FillPlanes { dst_fmt: AV_PIX_FMT_YUV420P, align: 1 }
    ));
    let filled = DecodeReply::Filled { size: 100, room: 100, text: String::new() };
    assert!(matches!(decoder.resume(filled), DecodeCall::Scale));
    assert!(matches!(
        decoder.resume(DecodeReply::Scaled { rows: 360 }),
        DecodeCall::ReadMeta { bit_depth: 8 }
    ));
    let meta = DecodeReply::Meta {
        pts: AV_NOPTS_VALUE,
        width: 640,
        height: 360,
        color: ColorInfo::bt709(),
    };
    match decoder.resume(meta) {
        DecodeCall::Frame { frame, drop_transfer } => {
            assert_eq!(frame.pts, 0, "a missing time is zero");
            assert!(drop_transfer);
        }
        _ => panic!("the frame is out"),
    }
}

#[test]
fn a_cuda_surface_stays_on_the_device() {
    let mut decoder = Decoder::opened(HwDeviceType::Cuda);
    let _ = decoder.decode_into(packet(1), true);
    let _ = decoder.resume(sent(0));
    assert!(matches!(decoder.resume(received(0)), DecodeCall::ReadSurface));
    let surface = DecodeReply::Surface { width: 1920, height: 1080, pts: 5, depth: 0 };
    assert!(matches!(decoder.resume(surface), DecodeCall::ReadColor { bit_depth: 8 }));
    let color = DecodeReply::Color { color: ColorInfo::bt709(), hdr: false };
    assert!(matches!(decoder.resume(color), DecodeCall::ReadColor { bit_depth: 8 }));
    let color = DecodeReply::Color { color: ColorInfo::bt709(), hdr: false };
    assert!(matches!(
        decoder.resume(color),
        DecodeCall::CopyToTarget { width: 1920, height: 1080 }
    ));
    match decoder.resume(DecodeReply::Copied { ok: true, text: String::new() }) {
        DecodeCall::Frame { frame, .. } => {
            assert_eq!(frame.pts, 5);
            assert!(frame.is_semi_planar());
        }
        _ => panic!("the frame is in the textures"),
    }
}

#[test]
fn a_deep_or_hdr_surface_is_a_ten_bit_one() {
    let mut deep = ColorInfo::bt709();
    deep.bit_depth = 10;
    for (color, hdr, bits) in
        [(ColorInfo::bt709(), false, 8), (ColorInfo::bt709(), true, 10), (deep, false, 10)]
    {
        let mut decoder = Decoder::opened(HwDeviceType::Cuda);
        let _ = decoder.decode_into(packet(1), true);
        let _ = decoder.resume(sent(0));
        let _ = decoder.resume(received(0));
        let _ = decoder.resume(DecodeReply::Surface { width: 64, height: 32, pts: 5, depth: 0 });
        match decoder.resume(DecodeReply::Color { color, hdr }) {
            DecodeCall::ReadColor { bit_depth } => assert_eq!(bit_depth, bits),
            _ => panic!("the colour is read once more, at the layout's depth"),
        }
    }
}

#[test]
fn a_failed_copy_drops_the_frame() {
    let mut decoder = Decoder::opened(HwDeviceType::Cuda);
    let _ = decoder.decode_into(packet(1), true);
    let _ = decoder.resume(sent(0));
    let _ = decoder.resume(received(0));
    let _ = decoder.resume(DecodeReply::Surface { width: 64, height: 32, pts: 5, depth: 10 });
    let _ = decoder.resume(DecodeReply::Color { color: ColorInfo::bt709(), hdr: false });
    let _ = decoder.resume(DecodeReply::Color { color: ColorInfo::bt709(), hdr: false });
    match decoder.resume(DecodeReply::Copied { ok: false, text: String::from("copy") }) {
        DecodeCall::Failed { fault, drop_frames, free_scaler } => {
            assert!(drop_frames);
            assert!(!free_scaler);
            assert!(matches!(fault.error(), DecodeError::HwTransfer(t) if t == "copy"));
        }
        _ => panic!("the copy failed"),
    }
}

#[test]
fn each_decoding_fault_has_its_error() {
    let fault = |call: DecodeCall| match call {
        DecodeCall::Failed { fault, .. } => fault.error(),
        _ => panic!("decoding failed"),
    };
    let mut decoder = Decoder::opened(HwDeviceType::Software);
    let _ = decoder.send_packet_only(packet(1));
    assert!(matches!(fault(decoder.resume(sent(-22))), DecodeError::Send(t) if t == "send"));
    let _ = decoder.receive_into(false);
    assert!(matches!(fault(decoder.resume(received(-5))), DecodeError::Receive(t) if t == "receive"));
    let _ = decoder.receive_into(false);
    let _ = decoder.resume(received(0));
    let described = DecodeReply::Described { fmt: 999, known: false, depth: 0 };
    assert!(matches!(
        fault(decoder.resume(described)),
        DecodeError::Convert(t) if t.starts_with("the decoder emitted pixel format 999,")
    ));
    assert!(matches!(
        DecodeFault::NoScaler.error(),
        DecodeError::Convert(t) if t == "sws_getContext failed"
    ));
    assert!(matches!(
        DecodeFault::Scale(-3).error(),
        DecodeError::Convert(t) if t == "sws_scale returned -3"
    ));
    assert!(matches!(DecodeFault::NoFrame.error(), DecodeError::NoFrame));
    let mut hardware = Decoder::opened(HwDeviceType::Vaapi);
    let _ = hardware.receive_into(false);
    let _ = hardware.resume(received(0));
    let failed = DecodeReply::Transferred { status: -1, text: String::from("gone") };
    assert!(matches!(fault(hardware.resume(failed)), DecodeError::HwTransfer(t) if t == "gone"));
}

#[test]
fn seeking_reads_up_to_the_target() {
    let mut decoder = Decoder::opened(HwDeviceType::Software);
    assert!(matches!(decoder.seek_to(100), DecodeCall::NextPacket { flush: true }));
    let next = DecodeReply::Next { packet: Some(packet(1)) };
    assert!(matches!(decoder.resume(next), DecodeCall::SendPacket { .. }));
    assert!(matches!(decoder.resume(sent(0)), DecodeCall::ReceiveFrame));
    assert!(matches!(decoder.resume(received(0)), DecodeCall::ReadTime));
    let call = decoder.resume(DecodeReply::Time { pts: 50 });
    assert!(matches!(call, DecodeCall::ReceiveFrame));
    assert!(matches!(
        decoder.resume(received(AVERROR_EAGAIN)),
        DecodeCall::NextPacket { flush: false }
    ));
    let next = DecodeReply::Next { packet: Some(packet(2)) };
    let _ = decoder.resume(next);
    let _ = decoder.resume(sent(0));
    let _ = decoder.resume(received(0));
    assert!(matches!(
        decoder.resume(DecodeReply::Time { pts: 120 }),
        DecodeCall::Sought { pts: 120 }
    ));
    let _ = decoder.seek_to(500);
    assert!(matches!(
        decoder.resume(DecodeReply::Next { packet: None }),
        DecodeCall::Failed { fault: DecodeFault::NoFrame, .. }
    ));
}

fn status(status: i32) -> DecoderOpenReply {
    DecoderOpenReply::Status { status, text: String::from("bad") }
}

#[test]
fn hardware_decoders_are_tried_before_software() {
    let (mut opening, call) = Decoder::open(27, true, HostOs::Linux);
    assert!(matches!(call, DecoderOpenCall::FindCodec { codec_id: 27 }));
    let call = opening.resume(DecoderOpenReply::Found { found: true });
    assert!(matches!(call, DecoderOpenCall::AllocContext));
    let call = opening.resume(DecoderOpenReply::Allocated { ok: true });
    assert!(matches!(call, DecoderOpenCall::CopyParameters));
    let call = opening.resume(status(0));
    assert!(matches!(call, DecoderOpenCall::CreateDevice { device: HwDeviceType::Cuda, flags: 1 }));
    let call = opening.resume(status(-1));
    assert!(matches!(call, DecoderOpenCall::CreateDevice { device: HwDeviceType::Vaapi, flags: 0 }));
    let call = opening.resume(status(-1));
    assert!(matches!(call, DecoderOpenCall::OpenCodec { device: HwDeviceType::Software }));
    let call = opening.resume(status(0));
    assert!(matches!(call, DecoderOpenCall::AllocFrames));
    match opening.resume(DecoderOpenReply::Allocated { ok: true }) {
        DecoderOpenCall::Ready { decoder } => {
            assert_eq!(decoder.hw_type(), HwDeviceType::Software)
        }
        _ => panic!("the decoder is open"),
    }
}

#[test]
fn a_software_decoder_creates_no_device() {
    let (mut opening, _) = Decoder::open_sw(7);
    let _ = opening.resume(DecoderOpenReply::Found { found: true });
    let _ = opening.resume(DecoderOpenReply::Allocated { ok: true });
    let call = opening.resume(status(0));
    assert!(matches!(call, DecoderOpenCall::OpenCodec { device: HwDeviceType::Software }));
    let call = opening.resume(status(-1));
    assert!(matches!(
        call,
        DecoderOpenCall::Failed { error: DecodeError::Open(t), free_context: true } if t == "bad"
    ));
    let (mut opening, _) = Decoder::open_sw(7);
    assert!(matches!(
        opening.resume(DecoderOpenReply::Found { found: false }),
        DecoderOpenCall::Failed { error: DecodeError::CodecNotFound(7), free_context: false }
    ));
    let (mut opening, _) = Decoder::open_sw(7);
    let _ = opening.resume(DecoderOpenReply::Found { found: true });
    assert!(matches!(
        opening.resume(DecoderOpenReply::Allocated { ok: false }),
        DecoderOpenCall::Failed { error: DecodeError::Alloc, free_context: false }
    ));
}

#[test]
fn devices_are_tried_in_the_order_of_the_system() {
    let (mut probe, step) = probe_hardware_device(HostOs::Windows);
    assert_eq!(step, HwProbeStep::Create { device: HwDeviceType::D3D12Va });
    assert_eq!(probe.created(-1), HwProbeStep::Create { device: HwDeviceType::Cuda });
    assert_eq!(probe.created(0), HwProbeStep::Attached { device: HwDeviceType::Cuda });
    assert_eq!(probe_hardware_device(HostOs::Other).1, HwProbeStep::Software);
    assert_eq!(
        probe_hardware_device(HostOs::MacOs).1,
        HwProbeStep::Create { device: HwDeviceType::VideoToolbox }
    );
    assert_eq!(HwDeviceType::Cuda.create_flags(), 1, "the primary context is shared");
    assert_eq!(HwDeviceType::D3D12Va.create_flags(), 0);
    assert_eq!(HwDeviceType::Cuda.ffi_value(), 2);
    assert_eq!(HwDeviceType::D3D12Va.ffi_value(), 13);
    assert_eq!(HwDeviceType::Software.ffi_value(), 0);
}

fn facts() -> StreamFacts {
    StreamFacts {
        time_base: AVRational { num: 1, den: 90_000 },
        avg_frame_rate: AVRational { num: 30_000, den: 1001 },
        r_frame_rate: AVRational { num: 30_000, den: 1001 },
        duration_us: 1_000_000,
        duration_ticks: 90_000,
        codecpar: 5,
        codec_id: 27,
        width: 1920,
        height: 1080,
        color: ColorInfo::bt709(),
    }
}

#[test]
fn a_stream_is_described_from_its_container() {
    let info = read_stream_info(2, &facts());
    assert_eq!(info.index, 2);
    assert_eq!(info.time_base, Rational::new(1, 90_000));
    assert_eq!(info.frame_rate, Some(Rational::new(30_000, 1001)));
    assert_eq!((info.width, info.height), (Some(1920), Some(1080)));
    assert_eq!(info.duration, 90_000);
    assert!(!info.is_vfr);

    let mut vfr = facts();
    vfr.avg_frame_rate = AVRational { num: 24, den: 1 };
    assert!(read_stream_info(0, &vfr).is_vfr);
    let mut same = facts();
    same.avg_frame_rate = AVRational { num: 60_000, den: 2002 };
    assert!(!read_stream_info(0, &same).is_vfr, "the same number");
    let mut no_base = facts();
    no_base.r_frame_rate = AVRational { num: 0, den: 1 };
    no_base.avg_frame_rate = AVRational { num: 25, den: 1 };
    assert_eq!(read_stream_info(0, &no_base).frame_rate, Some(Rational::new(25, 1)));
    let mut audio = facts();
    audio.r_frame_rate = AVRational { num: 0, den: 0 };
    audio.avg_frame_rate = AVRational { num: 0, den: 0 };
    audio.width = 0;
    audio.duration_us = -1;
    let info = read_stream_info(1, &audio);
    assert_eq!(info.frame_rate, None);
    assert_eq!(info.width, None);
    assert_eq!(info.duration, 0);
}

fn opened(video: i32, audio: i32) -> Demuxer {
    let (mut opening, call) = match Demuxer::open(Some("clip.mp4")) {
        Ok(begun) => begun,
        Err(_) => panic!("the path is text"),
    };
    assert!(matches!(call, DemuxOpenCall::OpenInput));
    let ok = || DemuxOpenReply::Status { status: 0, text: String::new() };
    assert!(matches!(opening.resume(ok()), DemuxOpenCall::FindStreamInfo));
    let mut call = opening.resume(ok());
    for best in [video, audio] {
        assert!(matches!(call, DemuxOpenCall::FindBest { .. }));
        call = opening.resume(DemuxOpenReply::Best { index: best });
        if matches!(call, DemuxOpenCall::ReadStream { .. }) {
            call = opening.resume(DemuxOpenReply::Stream { facts: facts() });
        }
    }
    assert!(matches!(call, DemuxOpenCall::AllocPacket));
    match opening.resume(DemuxOpenReply::Allocated { ok: true }) {
        DemuxOpenCall::Ready { demuxer } => demuxer,
        _ => panic!("the file is open"),
    }
}

#[test]
fn packets_of_other_streams_are_skipped() {
    let demuxer = opened(0, 1);
    assert!(matches!(demuxer.next_video_packet(), ReadCall::Read));
    assert!(matches!(demuxer.packet_read(true, 0, String::new(), 1), ReadCall::Skip));
    assert!(matches!(demuxer.packet_read(true, 0, String::new(), 0), ReadCall::Keep));
    assert!(matches!(demuxer.packet_read(false, 0, String::new(), 1), ReadCall::Keep));
    assert!(matches!(demuxer.packet_read(true, AVERROR_EOF, String::new(), 0), ReadCall::End));
    assert!(matches!(
        demuxer.packet_read(true, -5, String::from("io"), 0),
        ReadCall::Failed { error: DemuxError::Read(t) } if t == "io"
    ));
    assert!(matches!(
        demuxer.packet_kept(packet(4), true, 0, String::new()),
        ReadCall::Packet { packet } if packet.handle == 4
    ));
    assert!(matches!(
        demuxer.packet_kept(packet(4), false, 0, String::new()),
        ReadCall::Failed { error: DemuxError::Alloc }
    ));
    assert_eq!(demuxer.seek().ok(), Some((0, Rational::new(1, 90_000), 1)));
}

#[test]
fn a_file_without_video_seeks_by_audio() {
    let demuxer = opened(-1, 3);
    assert!(matches!(demuxer.next_video_packet(), ReadCall::End));
    assert!(matches!(demuxer.next_audio_packet(), ReadCall::Read));
    assert_eq!(demuxer.audio_stream().map(|s| s.index), Some(3));
    assert_eq!(demuxer.seek().ok().map(|s| s.0), Some(3));
    let empty = opened(-1, -1);
    assert!(matches!(empty.seek(), Err(DemuxError::NoVideoStream)));
    assert_eq!(Demuxer::sought(77, 0, String::new()).ok(), Some(77));
    assert!(matches!(
        Demuxer::sought(77, -1, String::from("no")),
        Err(DemuxError::Seek(t)) if t == "no"
    ));
}

#[test]
fn a_file_that_does_not_open_says_why() {
    assert!(matches!(Demuxer::open(None), Err(DemuxError::InvalidPath)));
    assert!(matches!(Demuxer::open(Some("a\0b")), Err(DemuxError::InvalidPath)));
    let bad = || DemuxOpenReply::Status { status: -2, text: String::from("missing") };
    let ok = || DemuxOpenReply::Status { status: 0, text: String::new() };
    let start = || match Demuxer::open(Some("clip.mp4")) {
        Ok(begun) => begun.0,
        Err(_) => panic!("the path is text"),
    };
    let mut opening = start();
    assert!(matches!(
        opening.resume(bad()),
        DemuxOpenCall::Failed { error: DemuxError::Open(t), close: false } if t == "missing"
    ));
    let mut opening = start();
    let _ = opening.resume(ok());
    assert!(matches!(
        opening.resume(bad()),
        DemuxOpenCall::Failed { error: DemuxError::StreamInfo(_), close: true }
    ));
    let mut opening = start();
    let _ = opening.resume(ok());
    let _ = opening.resume(ok());
    let _ = opening.resume(DemuxOpenReply::Best { index: -1 });
    let _ = opening.resume(DemuxOpenReply::Best { index: -1 });
    assert!(matches!(
        opening.resume(DemuxOpenReply::Allocated { ok: false }),
        DemuxOpenCall::Failed { error: DemuxError::Alloc, close: true }
    ));
}

#[test]
fn pixel_formats_have_their_layouts() {
    let nv12 = frame_layout_for_pix_fmt(AV_PIX_FMT_NV12).expect("taken as it is");
    assert!(nv12.semi_planar && nv12.bit_depth == 8);
    let p010 = frame_layout_for_pix_fmt(AV_PIX_FMT_P010LE).expect("taken as it is");
    assert!(p010.semi_planar && p010.msb_aligned && p010.bit_depth == 10);
    let deep = frame_layout_for_pix_fmt(AV_PIX_FMT_YUV420P12LE).expect("taken as it is");
    assert!(!deep.semi_planar && deep.bit_depth == 12);
    assert!(frame_layout_for_pix_fmt(4).is_none());
    assert_eq!(pix_fmt_bit_depth(10), 10);
    assert_eq!(AVRational { num: 1, den: 30 }.to_rational(), Rational::new(1, 30));
    assert!(AVRational { num: 1, den: 30 }.is_valid());
    assert!(!AVRational { num: 0, den: 30 }.is_valid());
}

#[test]
fn numbers_are_written_as_rust_writes_them() {
    for n in [0u64, 7, 10, 48_000, u64::MAX] {
        assert_eq!(decimal_str(n), format!("{n}"));
    }
    for n in [0i64, -1, i64::MIN, i64::MAX, -541_478_725] {
        assert_eq!(signed_str(n), format!("{n}"));
    }
    for n in [0u32, 0xE, 0x8007_000E, u32::MAX] {
        assert_eq!(hex_padded_str(n, 8), format!("{n:08X}"));
        assert_eq!(hex_lower_str(n), format!("{n:x}"));
    }
    assert!(str_contains("hevc_nvenc", "nvenc"));
    assert!(!str_contains("hevc_nvenc", "amf"));
    assert!(str_contains("abc", ""));
    assert!(!str_contains("", "a"));
}

#[test]
fn divisions_round_as_they_say() {
    assert_eq!(div_ceil_u64(7, 2), 4);
    assert_eq!(div_ceil_u64(8, 2), 4);
    assert_eq!(div_ceil_u64(0, 3), 0);
    assert_eq!(div_trunc_i64(-7, 2), -3);
    assert_eq!(div_trunc_i64(7, -2), -3);
}
