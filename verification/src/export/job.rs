//! What an export produces: codecs, quality, range, size and colour.
use crate::arith::{ceil_div, div_ceil_u64, div_trunc_i64, trunc_div};
use crate::timeline::{ColorInfo, ColorRange, MatrixCoefficients, Rational};
use vstd::prelude::*;

verus! {

/// `num_cpus::get`: the number of logical processors this process may use, which
/// its documentation puts at one or more.  The number itself is the machine's.
pub assume_specification[ num_cpus::get ]() -> (cpus: usize)
    ensures
        cpus >= 1,
;

/// Planar 8-bit 4:2:0.
pub const AV_PIX_FMT_YUV420P: i32 = 0;

/// 8-bit 4:2:0 with interleaved chroma.
pub const AV_PIX_FMT_NV12: i32 = 23;

/// Planar 10-bit 4:2:0, little-endian.
pub const AV_PIX_FMT_YUV420P10LE: i32 = 62;

/// Planar 10-bit 4:2:2, little-endian.
pub const AV_PIX_FMT_YUV422P10LE: i32 = 64;

/// 10-bit 4:2:0 with interleaved chroma, samples in the high bits.
pub const AV_PIX_FMT_P010LE: i32 = 158;

/// Target output codec for video.
#[derive(Debug, Clone, Copy, PartialEq, Eq, Structural)]
pub enum VideoCodec {
    H264,
    H265,
    ProRes,
    Vp9,
}

impl VideoCodec {
    pub open spec fn codec_id(self) -> u32 {
        match self {
            VideoCodec::H264 => 27,
            VideoCodec::H265 => 173,
            VideoCodec::ProRes => 147,
            VideoCodec::Vp9 => 167,
        }
    }

    /// The `AV_CODEC_ID_*` of the codec.
    pub fn ffmpeg_id(self) -> (id: u32)
        ensures
            id == self.codec_id(),
    {
        match self {
            VideoCodec::H264 => 27,
            VideoCodec::H265 => 173,
            VideoCodec::ProRes => 147,
            VideoCodec::Vp9 => 167,
        }
    }

    pub open spec fn takes_crf(self) -> bool {
        self is H264 || self is H265
    }

    /// Whether the codec has a constant-rate-factor mode.
    pub fn supports_crf(self) -> (r: bool)
        ensures
            r == self.takes_crf(),
    {
        matches!(self, VideoCodec::H264 | VideoCodec::H265)
    }

    pub open spec fn carries_hdr(self) -> bool {
        !(self is H264)
    }

    /// Whether this codec can carry 10-bit HDR in a way players honour.
    pub fn supports_hdr(self) -> (r: bool)
        ensures
            r == self.carries_hdr(),
    {
        matches!(self, VideoCodec::H265 | VideoCodec::ProRes | VideoCodec::Vp9)
    }
}

/// Target output codec for audio.
#[derive(Debug, Clone, Copy, PartialEq, Eq, Structural)]
pub enum AudioCodec {
    Aac,
    Opus,
    Pcm,
}

impl AudioCodec {
    pub open spec fn codec_id(self) -> u32 {
        match self {
            AudioCodec::Aac => 86018,
            AudioCodec::Opus => 86076,
            AudioCodec::Pcm => 65536,
        }
    }

    /// The `AV_CODEC_ID_*` of the codec.
    pub fn ffmpeg_id(self) -> (id: u32)
        ensures
            id == self.codec_id(),
    {
        match self {
            AudioCodec::Aac => 86018,
            AudioCodec::Opus => 86076,
            AudioCodec::Pcm => 65536,
        }
    }
}

/// Container format for the output file.
#[derive(Debug, Clone, Copy, PartialEq, Eq, Structural)]
pub enum Container {
    Mp4,
    Mkv,
    Mov,
}

impl Container {
    pub open spec fn muxer(self) -> Seq<char> {
        match self {
            Container::Mp4 => "mp4"@,
            Container::Mkv => "matroska"@,
            Container::Mov => "mov"@,
        }
    }

    /// The muxer's short name.
    pub fn format_name(self) -> (name: &'static str)
        ensures
            name@ == self.muxer(),
    {
        match self {
            Container::Mp4 => "mp4",
            Container::Mkv => "matroska",
            Container::Mov => "mov",
        }
    }

    pub open spec fn wants_global_header(self) -> bool {
        self is Mp4 || self is Mov
    }

    /// MP4 and MOV keep the codec headers in the container rather than in every key frame.
    pub fn global_header(self) -> (r: bool)
        ensures
            r == self.wants_global_header(),
    {
        matches!(self, Container::Mp4 | Container::Mov)
    }
}

/// SMPTE ST 2086 mastering-display volume and CTA-861.3 content light level.
///
/// Chromaticities are numerators over 50000, luminances numerators over 10000.
#[derive(Debug, Clone, Copy, PartialEq, Eq)]
pub struct Hdr10Metadata {
    /// Display primaries in `R.x R.y G.x G.y B.x B.y` order.
    pub primaries: [i32; 6],
    /// White point, `x y`.
    pub white_point: [i32; 2],
    pub min_luminance: i32,
    pub max_luminance: i32,
    /// Maximum content light level, cd/m2.
    pub max_cll: u32,
    /// Maximum frame-average light level, cd/m2.
    pub max_fall: u32,
}

impl Hdr10Metadata {
    /// The conventional HDR10 grade: BT.2020 primaries, D65, 1000 nit peak.
    pub fn bt2020_1000_nits() -> (r: Self)
        ensures
            r.primaries@ == seq![35400i32, 14600, 8500, 39850, 6550, 2300],
            r.white_point@ == seq![15635i32, 16450],
            r.min_luminance == 1,
            r.max_luminance == 10_000_000,
            r.max_cll == 1000,
            r.max_fall == 400,
    {
        Hdr10Metadata {
            primaries: [35400, 14600, 8500, 39850, 6550, 2300],
            white_point: [15635, 16450],
            min_luminance: 1,
            max_luminance: 10_000_000,
            max_cll: 1000,
            max_fall: 400,
        }
    }
}

/// Quality/bitrate mode for video encoding.
#[derive(Debug, Clone, Copy, PartialEq, Eq, Structural)]
pub enum VideoQuality {
    Crf(u32),
    TargetBitrate(u64),
}

/// CPU encoder preset (speed against compression ratio).
#[derive(Debug, Clone, Copy, PartialEq, Eq, Structural)]
pub enum CpuPreset {
    Ultrafast,
    Superfast,
    Veryfast,
    Faster,
    Fast,
    Medium,
    Slow,
    Slower,
    Veryslow,
}

impl CpuPreset {
    pub open spec fn name(self) -> Seq<char> {
        match self {
            CpuPreset::Ultrafast => "ultrafast"@,
            CpuPreset::Superfast => "superfast"@,
            CpuPreset::Veryfast => "veryfast"@,
            CpuPreset::Faster => "faster"@,
            CpuPreset::Fast => "fast"@,
            CpuPreset::Medium => "medium"@,
            CpuPreset::Slow => "slow"@,
            CpuPreset::Slower => "slower"@,
            CpuPreset::Veryslow => "veryslow"@,
        }
    }

    /// The encoder's name of the preset.
    pub fn as_str(&self) -> (r: &'static str)
        ensures
            r@ == self.name(),
    {
        match self {
            CpuPreset::Ultrafast => "ultrafast",
            CpuPreset::Superfast => "superfast",
            CpuPreset::Veryfast => "veryfast",
            CpuPreset::Faster => "faster",
            CpuPreset::Fast => "fast",
            CpuPreset::Medium => "medium",
            CpuPreset::Slow => "slow",
            CpuPreset::Slower => "slower",
            CpuPreset::Veryslow => "veryslow",
        }
    }
}

/// Complete description of an export job.
#[derive(Debug, Clone)]
pub struct ExportJob {
    pub output_path: String,
    pub container: Container,
    pub video_codec: VideoCodec,
    pub audio_codec: AudioCodec,
    pub quality: VideoQuality,
    pub audio_bitrate: u64,
    pub pts_in: i64,
    pub pts_out: i64,
    pub width: u32,
    pub height: u32,
    pub frame_rate: Rational,
    pub project_tb: Rational,
    pub render_threads: usize,
    pub cpu_preset: CpuPreset,
    /// Colour of the pixels the encoder is fed, written onto the output stream.
    pub output_color: ColorInfo,
    /// HDR10 static metadata, attached to encoder and container when present.
    pub hdr10: Option<Hdr10Metadata>,
}

/// Why a job cannot be exported.
#[derive(Debug)]
pub enum JobError {
    NegativeDuration,
    ZeroDimension,
    ZeroFrameRate,
    ZeroThreads,
    CrfNotSupported(VideoCodec),
    /// A PQ or HLG output was requested for a codec that cannot carry 10 bits.
    HdrNotSupported(VideoCodec),
    BadOutputPath(String),
}

impl ExportJob {
    /// `duration * frame rate`, in frames times the tick denominators.
    pub open spec fn frames_numer(&self) -> int {
        ((self.pts_out - self.pts_in) as i64 as u64) * (self.frame_rate.num as u64)
    }

    pub open spec fn frames_denom(&self) -> int {
        (self.project_tb.den as u64) * (self.frame_rate.den as u64)
    }

    /// The length of the job in frames, a started frame counting as a whole one.
    pub open spec fn frame_total(&self) -> int {
        ceil_div(self.frames_numer(), self.frames_denom())
    }

    /// The arithmetic of `total_frames` stays within the machine's integers.
    pub open spec fn frames_countable(&self) -> bool {
        &&& i64::MIN <= self.pts_out - self.pts_in <= i64::MAX
        &&& self.frames_numer() <= u64::MAX
        &&& 0 < self.frames_denom() <= u64::MAX
        &&& self.frame_total() <= usize::MAX
    }

    /// Number of frames in the job.
    pub fn total_frames(&self) -> (r: usize)
        requires
            self.frames_countable(),
        ensures
            r == self.frame_total(),
    {
        let duration_pts: i64 = self.pts_out - self.pts_in;
        let numer: u64 = duration_pts as u64 * self.frame_rate.num as u64;
        let denom: u64 = self.project_tb.den as u64 * self.frame_rate.den as u64;
        div_ceil_u64(numer, denom) as usize
    }

    /// Ticks of the project clock from one frame to the next.
    pub open spec fn frame_step(&self) -> int {
        trunc_div(self.project_tb.den as int, self.frame_rate.num as int)
    }

    /// The presentation time of frame `n` on the project clock.
    pub open spec fn pts_of(&self, n: int) -> int {
        self.pts_in + n * self.frame_step()
    }

    /// The arithmetic of `frame_pts(n)` stays within the machine's integers.
    pub open spec fn pts_countable(&self, n: int) -> bool {
        &&& self.frame_rate.num != 0
        &&& !(self.project_tb.den == i64::MIN && self.frame_rate.num == -1)
        &&& n <= i64::MAX
        &&& i64::MIN <= n * self.frame_step() <= i64::MAX
        &&& i64::MIN <= self.pts_of(n) <= i64::MAX
    }

    /// Presentation time of frame `n`.
    pub fn frame_pts(&self, n: usize) -> (r: i64)
        requires
            self.pts_countable(n as int),
        ensures
            r == self.pts_of(n as int),
    {
        let frame_dur: i64 = div_trunc_i64(self.project_tb.den, self.frame_rate.num);
        self.pts_in + n as i64 * frame_dur
    }

    pub open spec fn hdr(&self) -> bool {
        self.output_color.transfer_fn.is_hdr_spec()
    }

    /// True when this job asks for a PQ or HLG output.
    pub fn is_hdr(&self) -> (r: bool)
        ensures
            r == self.hdr(),
    {
        self.output_color.transfer_fn.is_hdr()
    }

    /// What asking the job for HDR10 leads to.
    pub open spec fn becomes_hdr10(
        self,
        metadata: Hdr10Metadata,
        after: ExportJob,
        r: Result<(), JobError>,
    ) -> bool {
        match r {
            Ok(_) => self.video_codec.carries_hdr() && after == (ExportJob {
                output_color: ColorInfo::bt2020_spec(true, 10),
                hdr10: Some(metadata),
                ..self
            }),
            Err(e) => !self.video_codec.carries_hdr() && e == JobError::HdrNotSupported(
                self.video_codec,
            ) && after == self,
        }
    }

    /// Configure this job as a 10-bit HDR10 (BT.2020 + PQ) export.
    ///
    /// A codec that cannot carry it is refused and the job is left as it was.
    pub fn set_hdr10(&mut self, metadata: Hdr10Metadata) -> (r: Result<(), JobError>)
        ensures
            old(self).becomes_hdr10(metadata, *final(self), r),
    {
        if !self.video_codec.supports_hdr() {
            return Err(JobError::HdrNotSupported(self.video_codec));
        }
        self.output_color = ColorInfo::bt2020(true, 10);
        self.hdr10 = Some(metadata);
        Ok(())
    }

    /// The bit depth an encoder of this job works in.
    pub open spec fn bit_depth(&self) -> int {
        if !self.hdr() {
            8
        } else if self.output_color.bit_depth < 10 {
            10
        } else {
            self.output_color.bit_depth as int
        }
    }

    /// Bit depth the encoder must be configured for: at least 10 for an HDR job, 8 otherwise.
    pub fn encode_bit_depth(&self) -> (r: u8)
        ensures
            r == self.bit_depth(),
    {
        if self.is_hdr() {
            if self.output_color.bit_depth < 10 {
                10
            } else {
                self.output_color.bit_depth
            }
        } else {
            8
        }
    }

    pub open spec fn pix_fmt(&self, is_hw: bool) -> i32 {
        if self.video_codec is ProRes {
            AV_PIX_FMT_YUV422P10LE
        } else if self.hdr() {
            if is_hw { AV_PIX_FMT_P010LE } else { AV_PIX_FMT_YUV420P10LE }
        } else {
            if is_hw { AV_PIX_FMT_NV12 } else { AV_PIX_FMT_YUV420P }
        }
    }

    /// `AVPixelFormat` the video encoder is opened with.
    ///
    /// `is_hw` selects the interleaved formats hardware encoders take.  ProRes is
    /// 10-bit 4:2:2 whatever the job asks.
    pub fn encoder_pix_fmt(&self, is_hw: bool) -> (r: i32)
        ensures
            r == self.pix_fmt(is_hw),
    {
        if self.video_codec == VideoCodec::ProRes {
            return AV_PIX_FMT_YUV422P10LE;
        }
        match (is_hw, self.encode_bit_depth() >= 10) {
            (true, true) => AV_PIX_FMT_P010LE,
            (true, false) => AV_PIX_FMT_NV12,
            (false, true) => AV_PIX_FMT_YUV420P10LE,
            (false, false) => AV_PIX_FMT_YUV420P,
        }
    }

    pub open spec fn sws_matrix(&self) -> i32 {
        match self.output_color.matrix {
            MatrixCoefficients::Bt709 => 1,
            MatrixCoefficients::Bt601 => 5,
            MatrixCoefficients::Bt2020 => 9,
            MatrixCoefficients::Unknown => 1,
        }
    }

    /// swscale colour-space id (`SWS_CS_*`) matching the output's matrix.
    pub fn sws_colorspace(&self) -> (r: i32)
        ensures
            r == self.sws_matrix(),
    {
        match self.output_color.matrix {
            MatrixCoefficients::Bt709 => 1,
            MatrixCoefficients::Bt601 => 5,
            MatrixCoefficients::Bt2020 => 9,
            MatrixCoefficients::Unknown => 1,
        }
    }

    pub open spec fn sws_full_range(&self) -> i32 {
        if self.output_color.range is Full { 1 } else { 0 }
    }

    /// swscale destination range flag: 1 = full, 0 = limited.
    pub fn sws_dst_range(&self) -> (r: i32)
        ensures
            r == self.sws_full_range(),
    {
        match self.output_color.range {
            ColorRange::Full => 1,
            _ => 0,
        }
    }

    /// The first thing wrong with the job, if anything is.
    pub open spec fn defect(&self, parent_exists: bool) -> Option<JobError> {
        if self.pts_in >= self.pts_out {
            Some(JobError::NegativeDuration)
        } else if self.width == 0 || self.height == 0 {
            Some(JobError::ZeroDimension)
        } else if self.frame_rate.num == 0 || self.frame_rate.den == 0 {
            Some(JobError::ZeroFrameRate)
        } else if self.render_threads == 0 {
            Some(JobError::ZeroThreads)
        } else if self.quality is Crf && !self.video_codec.takes_crf() {
            Some(JobError::CrfNotSupported(self.video_codec))
        } else if self.hdr() && !self.video_codec.carries_hdr() {
            Some(JobError::HdrNotSupported(self.video_codec))
        } else if !parent_exists {
            Some(JobError::BadOutputPath(self.output_path))
        } else {
            None
        }
    }

    /// Check the job before anything is opened for it.
    ///
    /// `parent_exists` tells whether the directory of the output path is there; a
    /// path without a directory part counts as present.
    pub fn validate(&self, parent_exists: bool) -> (r: Result<(), JobError>)
        ensures
            match r {
                Ok(_) => self.defect(parent_exists) is None,
                Err(JobError::BadOutputPath(path)) => self.defect(parent_exists)
                    is Some && self.defect(parent_exists)->0 is BadOutputPath && path@
                    == self.output_path@,
                Err(e) => self.defect(parent_exists) == Some(e),
            },
    {
        if self.pts_in >= self.pts_out {
            return Err(JobError::NegativeDuration);
        }
        if self.width == 0 || self.height == 0 {
            return Err(JobError::ZeroDimension);
        }
        if self.frame_rate.num == 0 || self.frame_rate.den == 0 {
            return Err(JobError::ZeroFrameRate);
        }
        if self.render_threads == 0 {
            return Err(JobError::ZeroThreads);
        }
        if let VideoQuality::Crf(_) = self.quality {
            if !self.video_codec.supports_crf() {
                return Err(JobError::CrfNotSupported(self.video_codec));
            }
        }
        if self.is_hdr() && !self.video_codec.supports_hdr() {
            return Err(JobError::HdrNotSupported(self.video_codec));
        }
        if !parent_exists {
            return Err(JobError::BadOutputPath(self.output_path.clone()));
        }
        Ok(())
    }
}

/// Half the processors, but never none.
pub open spec fn threads_for(cpus: int) -> int {
    if cpus < 2 { 1 } else { cpus / 2 }
}

/// Render threads used by the presets on a machine with `cpus` processors.
pub fn preset_threads(cpus: usize) -> (r: usize)
    ensures
        r == threads_for(cpus as int),
        r >= 1,
{
    if cpus < 2 {
        1
    } else {
        cpus / 2
    }
}

/// A job for the web, rendered on so many threads.
pub open spec fn web_job(
    output_path: String,
    pts_in: i64,
    pts_out: i64,
    width: u32,
    height: u32,
    frame_rate: Rational,
    project_tb: Rational,
    render_threads: usize,
) -> ExportJob {
    ExportJob {
        output_path,
        container: Container::Mp4,
        video_codec: VideoCodec::H264,
        audio_codec: AudioCodec::Aac,
        quality: VideoQuality::Crf(23),
        audio_bitrate: 192_000,
        pts_in,
        pts_out,
        width,
        height,
        frame_rate,
        project_tb,
        render_threads,
        cpu_preset: CpuPreset::Ultrafast,
        output_color: ColorInfo::bt709_spec(),
        hdr10: None,
    }
}

/// A mastering job, rendered on so many threads.
pub open spec fn master_job(
    output_path: String,
    pts_in: i64,
    pts_out: i64,
    width: u32,
    height: u32,
    frame_rate: Rational,
    project_tb: Rational,
    render_threads: usize,
) -> ExportJob {
    ExportJob {
        output_path,
        container: Container::Mov,
        video_codec: VideoCodec::ProRes,
        audio_codec: AudioCodec::Pcm,
        quality: VideoQuality::TargetBitrate(200_000_000),
        audio_bitrate: 1_536_000,
        pts_in,
        pts_out,
        width,
        height,
        frame_rate,
        project_tb,
        render_threads,
        cpu_preset: CpuPreset::Medium,
        output_color: ColorInfo::bt709_spec(),
        hdr10: None,
    }
}

impl ExportJob {
    /// H.264/AAC in MP4 at CRF 23, on a machine with `cpus` processors.
    pub fn web_h264(
        output_path: String,
        pts_in: i64,
        pts_out: i64,
        width: u32,
        height: u32,
        frame_rate: Rational,
        project_tb: Rational,
        cpus: usize,
    ) -> (r: Self)
        ensures
            r == web_job(
                output_path,
                pts_in,
                pts_out,
                width,
                height,
                frame_rate,
                project_tb,
                r.render_threads,
            ),
            r.render_threads == threads_for(cpus as int),
    {
        ExportJob {
            output_path,
            container: Container::Mp4,
            video_codec: VideoCodec::H264,
            audio_codec: AudioCodec::Aac,
            quality: VideoQuality::Crf(23),
            audio_bitrate: 192_000,
            pts_in,
            pts_out,
            width,
            height,
            frame_rate,
            project_tb,
            render_threads: preset_threads(cpus),
            cpu_preset: CpuPreset::Ultrafast,
            output_color: ColorInfo::bt709(),
            hdr10: None,
        }
    }

    /// H.264/AAC in MP4 at CRF 23, with half of this machine's processors rendering.
    pub fn preset_web_h264(
        output_path: String,
        pts_in: i64,
        pts_out: i64,
        width: u32,
        height: u32,
        frame_rate: Rational,
        project_tb: Rational,
    ) -> (r: Self)
        ensures
            r == web_job(
                output_path,
                pts_in,
                pts_out,
                width,
                height,
                frame_rate,
                project_tb,
                r.render_threads,
            ),
            r.render_threads >= 1,
    {
        Self::web_h264(
            output_path,
            pts_in,
            pts_out,
            width,
            height,
            frame_rate,
            project_tb,
            num_cpus::get(),
        )
    }

    /// ProRes/PCM in MOV at 200 Mbit/s, on a machine with `cpus` processors.
    pub fn prores_master(
        output_path: String,
        pts_in: i64,
        pts_out: i64,
        width: u32,
        height: u32,
        frame_rate: Rational,
        project_tb: Rational,
        cpus: usize,
    ) -> (r: Self)
        ensures
            r == master_job(
                output_path,
                pts_in,
                pts_out,
                width,
                height,
                frame_rate,
                project_tb,
                r.render_threads,
            ),
            r.render_threads == threads_for(cpus as int),
    {
        ExportJob {
            output_path,
            container: Container::Mov,
            video_codec: VideoCodec::ProRes,
            audio_codec: AudioCodec::Pcm,
            quality: VideoQuality::TargetBitrate(200_000_000),
            audio_bitrate: 1_536_000,
            pts_in,
            pts_out,
            width,
            height,
            frame_rate,
            project_tb,
            render_threads: preset_threads(cpus),
            cpu_preset: CpuPreset::Medium,
            output_color: ColorInfo::bt709(),
            hdr10: None,
        }
    }

    /// ProRes/PCM in MOV at 200 Mbit/s, with half of this machine's processors rendering.
    pub fn preset_prores_master(
        output_path: String,
        pts_in: i64,
        pts_out: i64,
        width: u32,
        height: u32,
        frame_rate: Rational,
        project_tb: Rational,
    ) -> (r: Self)
        ensures
            r == master_job(
                output_path,
                pts_in,
                pts_out,
                width,
                height,
                frame_rate,
                project_tb,
                r.render_threads,
            ),
            r.render_threads >= 1,
    {
        Self::prores_master(
            output_path,
            pts_in,
            pts_out,
            width,
            height,
            frame_rate,
            project_tb,
            num_cpus::get(),
        )
    }
}

/// A job that validates and asks for HDR is encoded in 10 bits or more: its pixel
/// format is one of the 10-bit ones, on hardware and in software alike.
pub proof fn law_hdr_jobs_encode_ten_bits(job: ExportJob, parent_exists: bool, is_hw: bool)
    requires
        job.defect(parent_exists) is None,
        job.hdr(),
    ensures
        job.bit_depth() >= 10,
        job.pix_fmt(is_hw) == AV_PIX_FMT_P010LE || job.pix_fmt(is_hw) == AV_PIX_FMT_YUV420P10LE
            || job.pix_fmt(is_hw) == AV_PIX_FMT_YUV422P10LE,
        !(job.video_codec is H264),
{
}

/// `set_hdr10` on a valid job of a codec that carries HDR leaves it valid, HDR, 10-bit
/// and with the given metadata: tags and pixels agree.
pub proof fn law_set_hdr10_keeps_valid(job: ExportJob, metadata: Hdr10Metadata, parent_exists: bool)
    requires
        job.defect(parent_exists) is None,
        job.video_codec.carries_hdr(),
    ensures
        ({
            let after = ExportJob {
                output_color: ColorInfo::bt2020_spec(true, 10),
                hdr10: Some(metadata),
                ..job
            };
            &&& after.defect(parent_exists) is None
            &&& after.hdr()
            &&& after.bit_depth() == 10
            &&& after.sws_matrix() == 9
        }),
{
}

/// At a whole-number frame rate that divides the project clock, the frames of a job
/// tile its range: the last one starts before `pts_out`, and a further one would not.
pub proof fn law_frames_cover_the_range(job: ExportJob)
    requires
        job.frames_countable(),
        job.pts_in < job.pts_out,
        job.frame_rate.num > 0,
        job.frame_rate.den == 1,
        job.project_tb.den > 0,
        job.project_tb.den % job.frame_rate.num == 0,
    ensures
        job.frame_total() >= 1,
        job.pts_of(job.frame_total() - 1) < job.pts_out,
        job.pts_of(job.frame_total()) >= job.pts_out,
{
    let dur = job.pts_out - job.pts_in;
    let (num, den) = (job.frame_rate.num as int, job.project_tb.den as int);
    let step = job.frame_step();
    let total = job.frame_total();
    assert(dur * num == job.frames_numer());
    vstd::arithmetic::div_mod::lemma_fundamental_div_mod(den, num);
    assert(den == num * step);
    crate::arith::lemma_ceil_div(dur * num, den);
    assert(dur <= total * step) by (nonlinear_arith)
        requires
            dur * num <= total * den,
            den == num * step,
            num > 0,
    ;
    assert((total - 1) * step < dur) by (nonlinear_arith)
        requires
            total * den < dur * num + den,
            den == num * step,
            num > 0,
    ;
    assert(total >= 1) by (nonlinear_arith)
        requires
            dur <= total * step,
            dur > 0,
            step > 0 || step <= 0,
            den == num * step,
            num > 0,
            den > 0,
    ;
}

/// Frame times grow with the frame number whenever the clock resolves a frame.
pub proof fn law_frame_pts_increase(job: ExportJob, a: int, b: int)
    requires
        0 <= a < b,
        job.frame_step() > 0,
    ensures
        job.pts_of(a) < job.pts_of(b),
{
    assert(a * job.frame_step() < b * job.frame_step()) by (nonlinear_arith)
        requires
            a < b,
            job.frame_step() > 0,
    ;
}

/// A frame is counted for every started one: as many as cover the range at the job's rate,
/// and no more.
pub proof fn law_frames_are_counted_up(job: ExportJob)
    requires
        job.frames_countable(),
        job.pts_in < job.pts_out,
        job.frame_rate.num > 0,
        job.frame_rate.den > 0,
        job.project_tb.den > 0,
    ensures
        ({
            let ticks = (job.pts_out - job.pts_in) * job.frame_rate.num;
            let per_frame = job.project_tb.den * job.frame_rate.den;
            &&& (job.frame_total() - 1) * per_frame < ticks <= job.frame_total() * per_frame
            &&& job.frame_total() >= 1
        }),
{
    let ticks = (job.pts_out - job.pts_in) * job.frame_rate.num;
    let per_frame = job.project_tb.den * job.frame_rate.den;
    let n = job.frame_total();
    crate::arith::lemma_ceil_div(ticks, per_frame);
    assert((n - 1) * per_frame == n * per_frame - per_frame) by (nonlinear_arith);
    assert(ticks >= 1) by (nonlinear_arith)
        requires
            ticks == (job.pts_out - job.pts_in) * job.frame_rate.num,
            job.pts_out - job.pts_in >= 1,
            job.frame_rate.num >= 1,
    ;
    assert(n >= 1) by (nonlinear_arith)
        requires
            ticks <= n * per_frame,
            ticks >= 1,
            per_frame > 0,
    ;
}

/// The first frame is at the start of the range, and every frame is the same whole number of
/// ticks after the one before: as many as fit into the clock's second divided by the rate.
pub proof fn law_frames_are_evenly_spaced(job: ExportJob, n: int)
    requires
        job.frame_rate.num > 0,
        job.project_tb.den > 0,
    ensures
        job.pts_of(0) == job.pts_in,
        ({
            let step = job.pts_of(n + 1) - job.pts_of(n);
            step * job.frame_rate.num <= job.project_tb.den < (step + 1) * job.frame_rate.num
        }),
{
    let (a, b) = (job.project_tb.den as int, job.frame_rate.num as int);
    let step = job.frame_step();
    vstd::arithmetic::div_mod::lemma_fundamental_div_mod(a, b);
    vstd::arithmetic::div_mod::lemma_mod_bound(a, b);
    assert((n + 1) * step == n * step + step && 0 * step == 0) by (nonlinear_arith);
    assert(step * b <= a < (step + 1) * b) by (nonlinear_arith)
        requires
            a == b * step + a % b,
            0 <= a % b < b,
    ;
}

/// A job is exported exactly if its range has an extent, its picture and its rate are not
/// zero, it has a thread, a constant rate factor only for H.264 and H.265, a PQ or HLG output
/// for anything but H.264, and a directory to write to.  Of several defects the first in this
/// order is named.
pub proof fn law_sound_jobs_have_no_defect(job: ExportJob, parent_exists: bool)
    ensures
        ({
            let hdr = job.output_color.transfer_fn is Pq || job.output_color.transfer_fn is Hlg;
            let h26x = job.video_codec is H264 || job.video_codec is H265;
            let defect = job.defect(parent_exists);
            &&& defect is None <==> {
                &&& job.pts_in < job.pts_out
                &&& job.width > 0 && job.height > 0
                &&& job.frame_rate.num != 0 && job.frame_rate.den != 0
                &&& job.render_threads > 0
                &&& job.quality is Crf ==> h26x
                &&& hdr ==> !(job.video_codec is H264)
                &&& parent_exists
            }
            &&& defect matches Some(e) ==> {
                let long = job.pts_in < job.pts_out;
                let sized = long && job.width > 0 && job.height > 0;
                let timed = sized && job.frame_rate.num != 0 && job.frame_rate.den != 0;
                let manned = timed && job.render_threads > 0;
                let graded = manned && (job.quality is Crf ==> h26x);
                let carried = graded && (hdr ==> !(job.video_codec is H264));
                match e {
                    JobError::NegativeDuration => !long,
                    JobError::ZeroDimension => long && !sized,
                    JobError::ZeroFrameRate => sized && !timed,
                    JobError::ZeroThreads => timed && !manned,
                    JobError::CrfNotSupported(codec) => manned && !graded && codec
                        == job.video_codec,
                    JobError::HdrNotSupported(codec) => graded && !carried && codec
                        == job.video_codec,
                    JobError::BadOutputPath(path) => carried && path == job.output_path,
                }
            }
        }),
{
}

/// The pixel format an encoder is opened with: ProRes in 10-bit 4:2:2; otherwise 4:2:0 of ten
/// bits for a PQ or HLG output and of eight for any other, interleaved on hardware and in
/// three planes in software.
pub proof fn law_pixel_formats_carry_the_depth(job: ExportJob, is_hw: bool)
    ensures
        ({
            let hdr = job.output_color.transfer_fn is Pq || job.output_color.transfer_fn is Hlg;
            let other = !(job.video_codec is ProRes);
            &&& job.pix_fmt(is_hw) == 64 <==> job.video_codec is ProRes
            &&& job.pix_fmt(is_hw) == 158 <==> other && hdr && is_hw
            &&& job.pix_fmt(is_hw) == 62 <==> other && hdr && !is_hw
            &&& job.pix_fmt(is_hw) == 23 <==> other && !hdr && is_hw
            &&& job.pix_fmt(is_hw) == 0 <==> other && !hdr && !is_hw
            &&& job.bit_depth() >= 10 <==> hdr
            &&& !hdr ==> job.bit_depth() == 8
            &&& hdr && job.output_color.bit_depth >= 10 ==> job.bit_depth()
                == job.output_color.bit_depth
            &&& hdr && job.output_color.bit_depth < 10 ==> job.bit_depth() == 10
        }),
{
}

/// The matrix and range that pixels are converted to are the output's: FFmpeg's numbers of
/// BT.709, BT.601 and BT.2020, of which an unknown one counts as the first, and 1 for full
/// range.
pub proof fn law_conversion_matches_the_output(job: ExportJob)
    ensures
        job.sws_matrix() == 5 <==> job.output_color.matrix is Bt601,
        job.sws_matrix() == 9 <==> job.output_color.matrix is Bt2020,
        job.sws_matrix() == 1 <==> job.output_color.matrix is Bt709 || job.output_color.matrix
            is Unknown,
        job.sws_full_range() == 1 <==> job.output_color.range is Full,
        job.sws_full_range() == 0 <==> !(job.output_color.range is Full),
{
}

/// The codecs go by FFmpeg's numbers, no two of them by the same, and the containers by the
/// names of its muxers; MP4 and MOV keep the codec headers themselves, Matroska does not.
pub proof fn law_codecs_and_containers_go_by_their_names(
    video: VideoCodec,
    audio: AudioCodec,
    container: Container,
)
    ensures
        video is H264 <==> video.codec_id() == 27,
        video is H265 <==> video.codec_id() == 173,
        video is ProRes <==> video.codec_id() == 147,
        video is Vp9 <==> video.codec_id() == 167,
        video.takes_crf() <==> video is H264 || video is H265,
        video.carries_hdr() <==> video is H265 || video is ProRes || video is Vp9,
        audio is Aac <==> audio.codec_id() == 86018,
        audio is Opus <==> audio.codec_id() == 86076,
        audio is Pcm <==> audio.codec_id() == 65536,
        container is Mp4 ==> container.muxer() == "mp4"@,
        container is Mkv ==> container.muxer() == "matroska"@,
        container is Mov ==> container.muxer() == "mov"@,
        container.wants_global_header() <==> !(container is Mkv),
{
}

/// Rendering takes half of the processors, rounded down, and one if that is none.
pub proof fn law_half_the_processors_render(cpus: int)
    requires
        cpus >= 0,
    ensures
        threads_for(cpus) >= 1,
        cpus >= 2 ==> 2 * threads_for(cpus) <= cpus < 2 * threads_for(cpus) + 2,
        cpus < 2 ==> threads_for(cpus) == 1,
{
}

/// Every codec but H.264 can be asked for HDR10: its output is then BT.2020 with the PQ curve in
/// ten bits and limited range, with the metadata that was given, and nothing else of the job
/// changes.  A refusal names the codec and changes nothing.
pub proof fn law_hdr10_is_taken_or_refused(
    job: ExportJob,
    metadata: Hdr10Metadata,
    after: ExportJob,
    r: Result<(), JobError>,
)
    requires
        job.becomes_hdr10(metadata, after, r),
    ensures
        r is Ok <==> !(job.video_codec is H264),
        r is Ok ==> {
            &&& after.output_color.transfer_fn is Pq
            &&& after.output_color.matrix is Bt2020 && after.output_color.primaries is Bt2020
            &&& after.output_color.range is Limited
            &&& after.output_color.bit_depth == 10
            &&& after.hdr10 == Some(metadata)
            &&& after == (ExportJob {
                output_color: after.output_color,
                hdr10: after.hdr10,
                ..job
            })
        },
        r is Err ==> after == job && r->Err_0 == JobError::HdrNotSupported(job.video_codec),
{
}

/// A preset keeps what it is given, and its settings fit together: a job for the web is H.264
/// and AAC in an MP4 at a constant quality of 23, encoded as fast as can be; a master is ProRes
/// and PCM in a MOV at 200 Mbit/s.  Both are Rec.709 without HDR metadata, and either is in
/// order for a range and a picture that are.
pub proof fn law_presets_are_in_order(
    path: String,
    pts_in: i64,
    pts_out: i64,
    width: u32,
    height: u32,
    rate: Rational,
    tb: Rational,
    threads: usize,
)
    ensures
        ({
            let web = web_job(path, pts_in, pts_out, width, height, rate, tb, threads);
            let master = master_job(path, pts_in, pts_out, width, height, rate, tb, threads);
            let kept = |job: ExportJob|
                {
                    &&& job.output_path == path
                    &&& job.pts_in == pts_in && job.pts_out == pts_out
                    &&& job.width == width && job.height == height
                    &&& job.frame_rate == rate && job.project_tb == tb
                    &&& job.render_threads == threads
                    &&& job.hdr10 is None
                    &&& job.output_color.transfer_fn is Bt709
                    &&& job.output_color.matrix is Bt709 && job.output_color.primaries is Bt709
                    &&& job.output_color.range is Limited && job.output_color.bit_depth == 8
                };
            let fine = pts_in < pts_out && width > 0 && height > 0 && rate.num != 0 && rate.den
                != 0 && threads > 0;
            &&& kept(web) && kept(master)
            &&& web.container is Mp4 && web.video_codec is H264 && web.audio_codec is Aac
            &&& web.quality == VideoQuality::Crf(23) && web.audio_bitrate == 192_000
            &&& web.cpu_preset is Ultrafast
            &&& master.container is Mov && master.video_codec is ProRes && master.audio_codec
                is Pcm
            &&& master.quality == VideoQuality::TargetBitrate(200_000_000)
            &&& master.audio_bitrate == 1_536_000
            &&& master.cpu_preset is Medium
            &&& web.defect(true) is None <==> fine
            &&& master.defect(true) is None <==> fine
        }),
{
}

} // verus!
