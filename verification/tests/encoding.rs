use nexir::export::audio_encoder::{
    AudioEncodeCall, AudioMuxEncoder, AudioOpenCall, AudioOpenReply, EXPORT_SAMPLE_RATE,
};
use nexir::export::job::{Container, ExportJob, Hdr10Metadata, VideoCodec, VideoQuality};
use nexir::export::muxer::{MuxError, MuxOpenCall, MuxOpenReply, Muxer};
use nexir::export::renderer::RawFrame;
use nexir::export::video_encoder::{
    hw_candidates, open_codec_context, packet_duration, packets_to_mux, write_nvenc_packet,
    BackendCall, EncodeCall, EncodeError, EncodeReply, EncoderOpenCall, EncoderOpenReply,
    InteropOutcome, SelectCall, VideoEncoder, VideoEncoderBackend, AV_PIX_FMT_RGBA,
    AV_PIX_FMT_RGBA64, SWS_POINT,
};
use nexir::interop::capability::{InteropCapability, InteropTransport};
use nexir::interop::encode_interop::{
    EncodeInterop, EncodeSlot, EncodedPacket, NvencCall, NVENC_INFLIGHT_SLOTS,
};
use nexir::interop::encode_open::OpenReply;
use nexir::io::ffi::avutil::{AVRational, AVERROR_EOF};
use nexir::timeline::Rational;

fn job() -> ExportJob {
    ExportJob::web_h264(
        String::from("out.mp4"),
        0,
        90_000,
        4,
        2,
        Rational::new(30_000, 1001),
        Rational::new(1, 90_000),
        8,
    )
}

fn hdr_job() -> ExportJob {
    let mut j = job();
    j.video_codec = VideoCodec::H265;
    j.set_hdr10(Hdr10Metadata::bt2020_1000_nits()).expect("HEVC carries HDR");
    j
}

/// A software encoder that has just been opened.
fn open_encoder(ctx: u64, width: u32, height: u32, depth: i32) -> VideoEncoder {
    let mut j = job();
    j.video_codec = VideoCodec::ProRes;
    (j.width, j.height) = (width, height);
    let (mut opening, call) = VideoEncoder::open(j);
    assert!(matches!(call, EncoderOpenCall::FindById { .. }));
    let _ = opening.resume(EncoderOpenReply::Found { found: true });
    let _ = opening.resume(EncoderOpenReply::Context { status: 0 });
    let _ = opening.resume(EncoderOpenReply::Frame { ok: true, depth });
    let call = opening.resume(EncoderOpenReply::Conversion { ok: true });
    assert!(matches!(call, EncoderOpenCall::Ready { high_depth } if high_depth == (depth > 8)));
    opening.encoder(ctx)
}

fn options(plan: &nexir::export::video_encoder::EncoderPlan) -> Vec<(&'static str, &str)> {
    plan.options.iter().map(|o| (o.key, o.value.as_str())).collect()
}

#[test]
fn hardware_is_tried_in_a_fixed_order() {
    assert_eq!(hw_candidates(&job()), vec!["h264_nvenc", "h264_amf", "h264_qsv"]);
    assert_eq!(hw_candidates(&hdr_job()), vec!["hevc_nvenc", "hevc_amf", "hevc_qsv"]);
    let mut prores = job();
    prores.video_codec = VideoCodec::ProRes;
    assert!(hw_candidates(&prores).is_empty());
    let mut hdr264 = hdr_job();
    hdr264.video_codec = VideoCodec::H264;
    assert!(hw_candidates(&hdr264).is_empty());
}

#[test]
fn encoder_options_depend_on_the_encoder() {
    let mut j = job();
    let soft = open_codec_context(&j, None);
    assert_eq!(options(&soft), vec![("preset", "ultrafast"), ("crf", "23")]);
    assert_eq!(soft.bit_rate, None);
    assert_eq!((soft.time_base_num, soft.time_base_den), (1001, 30_000));
    assert_eq!(soft.gop_size, 12);
    assert!(soft.global_header);

    assert_eq!(
        options(&open_codec_context(&j, Some("h264_nvenc"))),
        vec![("preset", "p4"), ("cq", "23")]
    );
    assert_eq!(
        options(&open_codec_context(&j, Some("h264_amf"))),
        vec![("quality", "speed"), ("qvbr_quality_level", "23")]
    );
    assert_eq!(
        options(&open_codec_context(&j, Some("h264_qsv"))),
        vec![("preset", "veryfast"), ("global_quality", "23")]
    );
    j.quality = VideoQuality::TargetBitrate(5_000_000);
    let nvenc = open_codec_context(&j, Some("h264_nvenc"));
    assert_eq!(nvenc.bit_rate, Some(5_000_000));
    assert_eq!(options(&nvenc), vec![("preset", "p4")]);
    let unknown = open_codec_context(&j, Some("h264_other"));
    assert_eq!(unknown.bit_rate, None);
    assert!(options(&unknown).is_empty());
}

#[test]
fn software_comes_after_every_hardware_encoder() {
    let (mut opening, mut call) = VideoEncoder::open(job());
    for name in ["h264_nvenc", "h264_amf", "h264_qsv"] {
        assert!(matches!(call, EncoderOpenCall::FindByName { name: n } if n == name));
        let found = opening.resume(EncoderOpenReply::Found { found: true });
        assert!(matches!(found, EncoderOpenCall::OpenContext { .. }));
        call = opening.resume(EncoderOpenReply::Context { status: -40 });
    }
    assert!(matches!(call, EncoderOpenCall::FindById { id: 27 }));
    let _ = opening.resume(EncoderOpenReply::Found { found: true });
    let frame = opening.resume(EncoderOpenReply::Context { status: 0 });
    assert!(matches!(frame, EncoderOpenCall::AllocFrame { pix_fmt: 0, width: 4, height: 2 }));
    let conversion = opening.resume(EncoderOpenReply::Frame { ok: true, depth: 8 });
    assert!(matches!(
        conversion,
        EncoderOpenCall::SetUpConversion {
            src_pix_fmt: AV_PIX_FMT_RGBA,
            dst_pix_fmt: 0,
            flags: SWS_POINT,
            dst_colorspace: 1,
            dst_range: 0,
            ..
        }
    ));
    let ready = opening.resume(EncoderOpenReply::Conversion { ok: true });
    assert!(matches!(ready, EncoderOpenCall::Ready { high_depth: false }));
}

#[test]
fn hdr_encoders_are_fed_sixteen_bits() {
    let (mut opening, _) = VideoEncoder::open(hdr_job());
    let _ = opening.resume(EncoderOpenReply::Found { found: true });
    let frame = opening.resume(EncoderOpenReply::Context { status: 0 });
    assert!(matches!(frame, EncoderOpenCall::AllocFrame { pix_fmt: 158, .. }));
    let conversion = opening.resume(EncoderOpenReply::Frame { ok: true, depth: 10 });
    assert!(matches!(
        conversion,
        EncoderOpenCall::SetUpConversion {
            src_pix_fmt: AV_PIX_FMT_RGBA64,
            dst_pix_fmt: 158,
            dst_colorspace: 9,
            ..
        }
    ));
    let failed = opening.resume(EncoderOpenReply::Conversion { ok: false });
    assert!(matches!(failed, EncoderOpenCall::Failed { error: EncodeError::SwsConvert }));
}

#[test]
fn failures_to_open_are_told_apart() {
    let mut j = job();
    j.video_codec = VideoCodec::Vp9;
    let (mut opening, call) = VideoEncoder::open(j.clone());
    assert!(matches!(call, EncoderOpenCall::FindById { id: 167 }));
    let missing = opening.resume(EncoderOpenReply::Found { found: false });
    assert!(matches!(missing, EncoderOpenCall::Failed { error: EncodeError::CodecNotFound }));

    let (mut opening, _) = VideoEncoder::open(j.clone());
    let _ = opening.resume(EncoderOpenReply::Found { found: true });
    match opening.resume(EncoderOpenReply::Context { status: -22 }) {
        EncoderOpenCall::Failed { error: EncodeError::Open(text) } => {
            assert_eq!(text, "Failed to open video codec context: error -22")
        }
        _ => panic!("the context did not open"),
    }

    let (mut opening, _) = VideoEncoder::open(j);
    let _ = opening.resume(EncoderOpenReply::Found { found: true });
    let _ = opening.resume(EncoderOpenReply::Context { status: 0 });
    let failed = opening.resume(EncoderOpenReply::Frame { ok: false, depth: 8 });
    assert!(matches!(failed, EncoderOpenCall::Failed { error: EncodeError::Alloc }));
}

fn to8(bits: u16) -> u8 {
    let level = half::f16::from_bits(bits).to_f32().clamp(0.0, 1.0);
    (level * 255.0 + 0.5) as u8
}

fn to16(bits: u16) -> u16 {
    let level = half::f16::from_bits(bits).to_f32().clamp(0.0, 1.0);
    (level * 65535.0 + 0.5) as u16
}

fn frame(levels: &[f32]) -> RawFrame {
    let mut data = Vec::new();
    for level in levels {
        data.extend_from_slice(&half::f16::from_f32(*level).to_bits().to_le_bytes());
    }
    RawFrame { frame_index: 0, pts: 0, data }
}

#[test]
fn samples_are_packed_one_by_one() {
    let mut encoder = open_encoder(9, 2, 1, 8);
    let raw = frame(&[0.0, 0.5, 1.0, 2.0, -1.0, 0.25, 0.75, 1.0]);
    let call = encoder.encode_frame(&raw, to8, to16);
    assert!(matches!(
        call,
        EncodeCall::ConvertAndSend { bytes_per_row: 8, rows: 1, pts: 0, duration: 1 }
    ));
    assert_eq!(encoder.rgb_buf, vec![0, 128, 255, 255, 0, 64, 191, 255]);
    assert_eq!(encoder.codec_ctx(), 9);

    let mut deep = open_encoder(9, 1, 1, 10);
    let raw = frame(&[0.0, 0.5, 1.0, 0.25]);
    let call = deep.encode_frame(&raw, to8, to16);
    assert!(matches!(call, EncodeCall::ConvertAndSend { bytes_per_row: 8, rows: 1, .. }));
    assert_eq!(deep.rgb_buf, vec![0, 0, 0, 0x80, 0xFF, 0xFF, 0, 0x40]);
}

#[test]
fn a_refused_frame_is_sent_once_more() {
    let mut encoder = open_encoder(1, 1, 1, 8);
    let raw = frame(&[0.0, 0.0, 0.0, 1.0]);
    let _ = encoder.encode_frame(&raw, to8, to16);
    assert!(matches!(encoder.resume(EncodeReply::Sent { status: -11 }), EncodeCall::Drain));
    assert!(matches!(encoder.resume(EncodeReply::Drained), EncodeCall::Resend));
    assert!(matches!(encoder.resume(EncodeReply::Sent { status: 0 }), EncodeCall::Drain));
    assert!(matches!(encoder.resume(EncodeReply::Drained), EncodeCall::Done));

    let second = encoder.encode_frame(&raw, to8, to16);
    assert!(matches!(second, EncodeCall::ConvertAndSend { pts: 1, .. }));
    let _ = encoder.resume(EncodeReply::Sent { status: -11 });
    let _ = encoder.resume(EncodeReply::Drained);
    match encoder.resume(EncodeReply::Sent { status: -11 }) {
        EncodeCall::Failed { error: EncodeError::Send(text) } => {
            assert_eq!(text, "avcodec_send_frame failed: -11")
        }
        _ => panic!("a frame that is refused twice is an error"),
    }
}

#[test]
fn an_encoder_at_its_end_takes_no_frame() {
    let mut encoder = open_encoder(1, 1, 1, 8);
    let _ = encoder.encode_frame(&frame(&[0.0, 0.0, 0.0, 1.0]), to8, to16);
    assert!(matches!(
        encoder.resume(EncodeReply::Sent { status: AVERROR_EOF }),
        EncodeCall::Failed { error: EncodeError::Send(_) }
    ));
    assert!(matches!(encoder.flush(), EncodeCall::SendEnd));
    assert!(matches!(encoder.resume(EncodeReply::Sent { status: -1 }), EncodeCall::Drain));
    assert!(matches!(encoder.resume(EncodeReply::Drained), EncodeCall::Done));
}

fn packet(bytes: Vec<u8>, pts: i64, is_keyframe: bool) -> EncodedPacket {
    EncodedPacket { bytes, pts, dts: pts - 1, is_keyframe }
}

#[test]
fn packets_carry_their_times_and_flags() {
    let key = write_nvenc_packet(&packet(vec![1, 2, 3], 7, true));
    assert_eq!((key.size, key.pts, key.dts, key.duration, key.flags), (3, 7, 6, 1, 1));
    let delta = write_nvenc_packet(&packet(vec![1], 8, false));
    assert_eq!(delta.flags, 0);
    assert_eq!(packet_duration(0), 1);
    assert_eq!(packet_duration(5), 5);

    let kept = packets_to_mux(vec![
        packet(vec![1], 0, true),
        packet(vec![], 1, false),
        packet(vec![2], 2, false),
    ]);
    let times: Vec<i64> = kept.iter().map(|p| p.pts).collect();
    assert_eq!(times, vec![0, 2]);
}

fn d3d12() -> InteropCapability {
    InteropCapability {
        transport: InteropTransport::D3D12Win32Handle,
        cuda_device_ordinal: 0,
        driver_version: String::from("12.2"),
    }
}

#[test]
fn hdr_stays_off_the_direct_session() {
    assert!(matches!(
        VideoEncoderBackend::select(&job(), &d3d12(), true, true),
        SelectCall::OpenInterop
    ));
    assert!(matches!(
        VideoEncoderBackend::select(&hdr_job(), &d3d12(), true, true),
        SelectCall::OpenFfmpeg
    ));
    assert!(matches!(
        VideoEncoderBackend::select(&job(), &d3d12(), true, false),
        SelectCall::OpenFfmpeg
    ));
    assert!(matches!(
        VideoEncoderBackend::select(&job(), &InteropCapability::none(), true, true),
        SelectCall::OpenFfmpeg
    ));
    assert!(matches!(
        VideoEncoderBackend::select(&job(), &d3d12(), false, true),
        SelectCall::OpenFfmpeg
    ));
    let mut prores = job();
    prores.video_codec = VideoCodec::ProRes;
    assert!(matches!(
        VideoEncoderBackend::select(&prores, &d3d12(), true, true),
        SelectCall::OpenFfmpeg
    ));
}

fn session() -> EncodeInterop {
    let slots = vec![EncodeSlot { registered: 1, bitstream: 2, event: 3 }; NVENC_INFLIGHT_SLOTS];
    let (mut opening, _) = EncodeInterop::open(&job(), VideoCodec::H264, None, false);
    let _ = opening.resume(OpenReply::Instance {
        status: 0,
        has_open: true,
        has_preset_query: false,
    });
    let _ = opening.resume(OpenReply::Session { status: 0 });
    let _ = opening.resume(OpenReply::Initialized { status: 0 });
    for _ in 0..NVENC_INFLIGHT_SLOTS {
        let _ = opening.resume(OpenReply::Slot { result: Ok(()) });
        let _ = opening.resume(OpenReply::Registered { status: 0 });
        let _ = opening.resume(OpenReply::Bitstream { status: 0 });
    }
    opening.session(slots, 0)
}

#[test]
fn the_backends_are_asked_alike() {
    assert!(matches!(
        VideoEncoderBackend::interop_tried(None),
        InteropOutcome::OpenFfmpeg
    ));
    let enc = match VideoEncoderBackend::interop_tried(Some(session())) {
        InteropOutcome::OpenParams { enc } => enc,
        InteropOutcome::OpenFfmpeg => panic!("the session is open"),
    };
    let mut direct =
        match VideoEncoderBackend::with_session(enc, Ok(open_encoder(5, 4, 2, 8))) {
            Ok(backend) => backend,
            Err(_) => panic!("both halves are there"),
        };
    assert_eq!(direct.codec_ctx(), 5);
    assert!(matches!(
        VideoEncoderBackend::with_session(session(), Err(EncodeError::CodecNotFound)),
        Err(EncodeError::CodecNotFound)
    ));
    assert!(direct.nvenc_interop().is_some());
    assert!(direct.nvenc_interop_mut().is_some());
    assert!(matches!(direct.flush(), BackendCall::Nvenc { call: NvencCall::Encode { .. } }));

    let mut ffmpeg = match VideoEncoderBackend::with_ffmpeg(Ok(open_encoder(6, 1, 1, 8))) {
        Ok(backend) => backend,
        Err(_) => panic!("the encoder is open"),
    };
    assert!(ffmpeg.nvenc_interop().is_none());
    assert_eq!(ffmpeg.codec_ctx(), 6);
    let raw = frame(&[0.0, 0.0, 0.0, 1.0]);
    assert!(matches!(
        ffmpeg.encode_frame(&raw, to8, to16),
        BackendCall::Ffmpeg { call: EncodeCall::ConvertAndSend { .. } }
    ));
    assert!(matches!(
        VideoEncoderBackend::with_ffmpeg(Err(EncodeError::Alloc)),
        Err(EncodeError::Alloc)
    ));
}

const VIDEO_TB: AVRational = AVRational { num: 1, den: 30 };
const AUDIO_TB: AVRational = AVRational { num: 1, den: 48_000 };

#[test]
fn an_mp4_gets_both_streams_and_a_fast_start() {
    let (mut opening, call) = Muxer::open(&job(), 11, 12, VIDEO_TB, AUDIO_TB);
    assert!(matches!(call, MuxOpenCall::AllocContext { format_name: "mp4" }));
    let (call, _) = opening.resume(MuxOpenReply::Status { status: 0 });
    assert!(matches!(call, MuxOpenCall::AddStream { codec_ctx: 11, time_base: VIDEO_TB }));
    let (call, _) = opening.resume(MuxOpenReply::Stream { index: Some(0) });
    assert!(matches!(call, MuxOpenCall::AddStream { codec_ctx: 12, time_base: AUDIO_TB }));
    let (call, _) = opening.resume(MuxOpenReply::Stream { index: Some(1) });
    assert!(matches!(call, MuxOpenCall::OpenFile { flags: 2 }));
    let (call, _) = opening.resume(MuxOpenReply::Status { status: 0 });
    assert!(matches!(call, MuxOpenCall::WriteHeader));
    let (call, _) = opening.resume(MuxOpenReply::Status { status: 0 });
    assert!(matches!(call, MuxOpenCall::SetOption { key: "movflags", value: "faststart", flags: 1 }));
    let (call, error) = opening.resume(MuxOpenReply::OptionSet);
    assert!(error.is_none());
    let muxer = match call {
        MuxOpenCall::Ready { muxer } => muxer,
        _ => panic!("the file is open"),
    };
    assert_eq!(muxer.write_packet(true).stream_index, 0);
    assert_eq!(muxer.write_packet(true).time_base, VIDEO_TB);
    assert_eq!(muxer.write_packet(false).stream_index, 1);
    assert_eq!(muxer.write_packet(false).time_base, AUDIO_TB);
    assert!(Muxer::packet_written(0).is_ok());
    assert!(matches!(Muxer::packet_written(-5), Err(MuxError::Write(_))));
    assert!(muxer.finalise(0).is_ok());
    assert!(matches!(muxer.finalise(-5), Err(MuxError::Trailer(_))));
}

#[test]
fn a_matroska_file_is_ready_after_its_header() {
    let mut j = job();
    j.container = Container::Mkv;
    let (mut opening, call) = Muxer::open(&j, 1, 2, VIDEO_TB, AUDIO_TB);
    assert!(matches!(call, MuxOpenCall::AllocContext { format_name: "matroska" }));
    let _ = opening.resume(MuxOpenReply::Status { status: 0 });
    let _ = opening.resume(MuxOpenReply::Stream { index: Some(0) });
    let _ = opening.resume(MuxOpenReply::Stream { index: Some(1) });
    let _ = opening.resume(MuxOpenReply::Status { status: 0 });
    let (call, _) = opening.resume(MuxOpenReply::Status { status: 0 });
    assert!(matches!(call, MuxOpenCall::Ready { .. }));
}

#[test]
fn each_step_of_opening_a_file_has_its_error() {
    let start = || Muxer::open(&job(), 1, 2, VIDEO_TB, AUDIO_TB).0;
    let mut opening = start();
    let (call, error) = opening.resume(MuxOpenReply::Status { status: -12 });
    assert!(matches!(call, MuxOpenCall::Failed));
    assert!(matches!(error, Some(MuxError::AllocContext)));

    let mut opening = start();
    let _ = opening.resume(MuxOpenReply::Status { status: 0 });
    let (_, error) = opening.resume(MuxOpenReply::Stream { index: None });
    assert!(matches!(error, Some(MuxError::AddStream)));

    let mut opening = start();
    let _ = opening.resume(MuxOpenReply::Status { status: 0 });
    let _ = opening.resume(MuxOpenReply::Stream { index: Some(0) });
    let _ = opening.resume(MuxOpenReply::Stream { index: Some(1) });
    let (_, error) = opening.resume(MuxOpenReply::Status { status: -2 });
    assert!(matches!(error, Some(MuxError::OpenFile(text)) if text == "Failed to open avio"));

    let mut opening = start();
    let _ = opening.resume(MuxOpenReply::Status { status: 0 });
    let _ = opening.resume(MuxOpenReply::Stream { index: Some(0) });
    let _ = opening.resume(MuxOpenReply::Stream { index: Some(1) });
    let _ = opening.resume(MuxOpenReply::Status { status: 0 });
    let (_, error) = opening.resume(MuxOpenReply::Status { status: -22 });
    assert!(
        matches!(error, Some(MuxError::WriteHeader(text)) if text == "Failed to write header: error -22")
    );
}

#[test]
fn the_audio_encoder_is_stereo_at_48_khz() {
    let (mut opening, call) = AudioMuxEncoder::open(&job());
    assert!(matches!(call, AudioOpenCall::FindEncoder { id: 86018 }));
    let (call, _) = opening.resume(AudioOpenReply::Found { found: true });
    assert!(matches!(call, AudioOpenCall::AllocContext));
    let (call, _) = opening.resume(AudioOpenReply::Allocated { ok: true });
    match call {
        AudioOpenCall::OpenContext { plan } => {
            assert_eq!(plan.bit_rate, 192_000);
            assert_eq!(plan.sample_rate, EXPORT_SAMPLE_RATE);
            assert_eq!(plan.channel_layout, 3);
            assert_eq!(plan.time_base, AUDIO_TB);
            assert!(plan.global_header);
        }
        _ => panic!("the context is configured"),
    }
    let (call, error) = opening.resume(AudioOpenReply::Opened { status: 0, frame_size: 0 });
    assert!(matches!(call, AudioOpenCall::Ready { frame_size: 1024 }));
    assert!(error.is_none());

    let encoder = opening.encoder(4);
    assert_eq!(encoder.codec_ctx(), 4);
    assert_eq!(encoder.frame_size(), 1024);
    assert!(matches!(
        encoder.encode_pcm_chunk(1024, 1024, 2048),
        AudioEncodeCall::CopyAndSend { samples: 1024, pts: 2048 }
    ));
    assert!(matches!(AudioMuxEncoder::chunk_sent(0), Ok(AudioEncodeCall::Drain)));
    assert!(
        matches!(AudioMuxEncoder::chunk_sent(-1), Err(EncodeError::Open(text)) if text == "avcodec_send_frame audio: -1")
    );
    assert!(matches!(encoder.encode_all(), (AudioEncodeCall::SendEnd, AudioEncodeCall::Drain)));
}

#[test]
fn the_audio_encoder_reports_what_is_missing() {
    let (mut opening, _) = AudioMuxEncoder::open(&job());
    let (_, error) = opening.resume(AudioOpenReply::Found { found: false });
    assert!(matches!(error, Some(EncodeError::CodecNotFound)));
    let (mut opening, _) = AudioMuxEncoder::open(&job());
    let _ = opening.resume(AudioOpenReply::Found { found: true });
    let (_, error) = opening.resume(AudioOpenReply::Allocated { ok: false });
    assert!(matches!(error, Some(EncodeError::Alloc)));
    let (mut opening, _) = AudioMuxEncoder::open(&job());
    let _ = opening.resume(AudioOpenReply::Found { found: true });
    let _ = opening.resume(AudioOpenReply::Allocated { ok: true });
    let (_, error) = opening.resume(AudioOpenReply::Opened { status: -1, frame_size: 0 });
    assert!(matches!(error, Some(EncodeError::Open(text)) if text == "Failed to open audio codec"));
}

#[test]
fn a_failed_session_is_an_interop_error() {
    assert!(matches!(
        VideoEncoderBackend::interop_failed(false, "Encode(8)"),
        EncodeError::Interop(text) if text == "Encode(8)"
    ));
    assert!(matches!(
        VideoEncoderBackend::interop_failed(true, "Lock(8)"),
        EncodeError::Interop(text) if text == "NVENC flush failed: Lock(8)"
    ));
}
