use nexir::export::job::{
    preset_threads, AudioCodec, Container, CpuPreset, ExportJob, Hdr10Metadata, JobError,
    VideoCodec, VideoQuality, AV_PIX_FMT_NV12, AV_PIX_FMT_P010LE, AV_PIX_FMT_YUV420P,
    AV_PIX_FMT_YUV420P10LE, AV_PIX_FMT_YUV422P10LE,
};
use nexir::timeline::{ColorInfo, ColorRange, MatrixCoefficients, Rational, TransferFunction};

fn job() -> ExportJob {
    ExportJob::web_h264(
        String::from("out.mp4"),
        0,
        90_000,
        1920,
        1080,
        Rational::new(30, 1),
        Rational::new(1, 90_000),
        8,
    )
}

#[test]
fn frames_are_counted_up_to_the_next_whole_one() {
    let mut j = job();
    assert_eq!(j.total_frames(), 30);
    j.pts_out = 90_001;
    assert_eq!(j.total_frames(), 31);
    j.frame_rate = Rational::new(30_000, 1001);
    j.pts_out = 90_000;
    assert_eq!(j.total_frames(), 30);
}

#[test]
fn frame_times_step_by_the_rate() {
    let mut j = job();
    j.pts_in = 500;
    assert_eq!(j.frame_pts(0), 500);
    assert_eq!(j.frame_pts(1), 3500);
    assert_eq!(j.frame_pts(10), 30_500);
    assert!(j.frame_pts(3) < j.frame_pts(4));
}

#[test]
fn the_frames_tile_the_range() {
    let j = job();
    let total = j.total_frames();
    assert!(j.frame_pts(total - 1) < j.pts_out);
    assert!(j.frame_pts(total) >= j.pts_out);
}

#[test]
fn a_sound_job_is_accepted() {
    assert!(job().validate(true).is_ok());
}

#[test]
fn every_defect_is_named() {
    let mut j = job();
    j.pts_out = j.pts_in;
    assert!(matches!(j.validate(true), Err(JobError::NegativeDuration)));

    let mut j = job();
    j.height = 0;
    assert!(matches!(j.validate(true), Err(JobError::ZeroDimension)));

    let mut j = job();
    j.frame_rate = Rational::new(0, 1);
    assert!(matches!(j.validate(true), Err(JobError::ZeroFrameRate)));

    let mut j = job();
    j.render_threads = 0;
    assert!(matches!(j.validate(true), Err(JobError::ZeroThreads)));

    let mut j = job();
    j.video_codec = VideoCodec::ProRes;
    assert!(matches!(j.validate(true), Err(JobError::CrfNotSupported(VideoCodec::ProRes))));

    let mut j = job();
    j.output_color.transfer_fn = TransferFunction::Pq;
    assert!(matches!(j.validate(true), Err(JobError::HdrNotSupported(VideoCodec::H264))));

    match job().validate(false) {
        Err(JobError::BadOutputPath(path)) => assert_eq!(path, "out.mp4"),
        _ => panic!("a missing directory is a defect"),
    }
}

#[test]
fn the_first_defect_wins() {
    let mut j = job();
    j.pts_out = -1;
    j.width = 0;
    j.render_threads = 0;
    assert!(matches!(j.validate(false), Err(JobError::NegativeDuration)));
}

#[test]
fn hdr_takes_ten_bits() {
    let mut j = job();
    assert_eq!(j.encode_bit_depth(), 8);
    assert_eq!(j.encoder_pix_fmt(true), AV_PIX_FMT_NV12);
    assert_eq!(j.encoder_pix_fmt(false), AV_PIX_FMT_YUV420P);

    assert!(matches!(
        j.set_hdr10(Hdr10Metadata::bt2020_1000_nits()),
        Err(JobError::HdrNotSupported(VideoCodec::H264))
    ));
    assert!(j.hdr10.is_none());

    j.video_codec = VideoCodec::H265;
    assert!(j.set_hdr10(Hdr10Metadata::bt2020_1000_nits()).is_ok());
    assert!(j.is_hdr());
    assert!(j.validate(true).is_ok());
    assert_eq!(j.encode_bit_depth(), 10);
    assert_eq!(j.encoder_pix_fmt(true), AV_PIX_FMT_P010LE);
    assert_eq!(j.encoder_pix_fmt(false), AV_PIX_FMT_YUV420P10LE);
    assert_eq!(j.sws_colorspace(), 9);
    assert_eq!(j.hdr10.unwrap().max_luminance, 10_000_000);
}

#[test]
fn prores_is_always_ten_bit_422() {
    let mut j = job();
    j.video_codec = VideoCodec::ProRes;
    assert_eq!(j.encoder_pix_fmt(true), AV_PIX_FMT_YUV422P10LE);
    assert_eq!(j.encoder_pix_fmt(false), AV_PIX_FMT_YUV422P10LE);
}

#[test]
fn the_scaler_follows_matrix_and_range() {
    let mut j = job();
    assert_eq!(j.sws_colorspace(), 1);
    assert_eq!(j.sws_dst_range(), 0);
    j.output_color.matrix = MatrixCoefficients::Bt601;
    j.output_color.range = ColorRange::Full;
    assert_eq!(j.sws_colorspace(), 5);
    assert_eq!(j.sws_dst_range(), 1);
    j.output_color.matrix = MatrixCoefficients::Unknown;
    assert_eq!(j.sws_colorspace(), 1);
}

#[test]
fn codecs_and_containers_have_their_ids() {
    assert_eq!(VideoCodec::H264.ffmpeg_id(), 27);
    assert_eq!(VideoCodec::H265.ffmpeg_id(), 173);
    assert_eq!(VideoCodec::ProRes.ffmpeg_id(), 147);
    assert_eq!(VideoCodec::Vp9.ffmpeg_id(), 167);
    assert_eq!(AudioCodec::Aac.ffmpeg_id(), 86018);
    assert_eq!(AudioCodec::Opus.ffmpeg_id(), 86076);
    assert_eq!(AudioCodec::Pcm.ffmpeg_id(), 65536);
    assert_eq!(Container::Mkv.format_name(), "matroska");
    assert!(Container::Mp4.global_header());
    assert!(!Container::Mkv.global_header());
    assert_eq!(CpuPreset::Veryslow.as_str(), "veryslow");
    assert!(VideoCodec::H265.supports_crf() && !VideoCodec::Vp9.supports_crf());
    assert!(VideoCodec::Vp9.supports_hdr() && !VideoCodec::H264.supports_hdr());
}

#[test]
fn presets_use_half_the_processors() {
    assert_eq!(preset_threads(0), 1);
    assert_eq!(preset_threads(1), 1);
    assert_eq!(preset_threads(16), 8);

    let web = ExportJob::preset_web_h264(
        String::from("a.mp4"),
        0,
        1000,
        640,
        360,
        Rational::new(25, 1),
        Rational::new(1, 1000),
    );
    assert!(web.render_threads >= 1);
    assert_eq!(web.quality, VideoQuality::Crf(23));
    assert_eq!(web.audio_bitrate, 192_000);
    assert_eq!(web.output_color, ColorInfo::bt709());
    assert_eq!(web.render_threads, preset_threads(num_cpus::get()));

    let master = ExportJob::preset_prores_master(
        String::from("a.mov"),
        0,
        1000,
        640,
        360,
        Rational::new(25, 1),
        Rational::new(1, 1000),
    );
    assert!(master.render_threads >= 1);
    assert_eq!(master.container, Container::Mov);
    assert_eq!(master.quality, VideoQuality::TargetBitrate(200_000_000));
    assert_eq!(master.cpu_preset, CpuPreset::Medium);
    assert!(master.validate(true).is_ok());
}
