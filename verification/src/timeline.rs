//! Timeline vocabulary shared by export, decode and interop.
use vstd::prelude::*;

verus! {

/// A ratio of two integers: a frame rate, or the duration of one tick of a clock.
#[derive(Debug, Clone, Copy, PartialEq, Eq, Structural)]
pub struct Rational {
    pub num: i64,
    pub den: i64,
}

impl Rational {
    pub fn new(num: i64, den: i64) -> (r: Self)
        ensures
            r.num == num,
            r.den == den,
    {
        Rational { num, den }
    }
}

/// Identity of a media source in the project.
#[derive(Debug, Clone, Copy, PartialEq, Eq, Hash, Structural)]
pub struct SourceId {
    pub id: u32,
}

impl SourceId {
    pub fn new(id: u32) -> (r: Self)
        ensures
            r.id == id,
    {
        SourceId { id }
    }

    pub fn index(self) -> (r: u32)
        ensures
            r == self.id,
    {
        self.id
    }
}

/// Matrix that relates the stored luma and chroma to RGB.
#[derive(Debug, Clone, Copy, PartialEq, Eq, Structural)]
pub enum MatrixCoefficients {
    Bt709,
    Bt601,
    Bt2020,
    Unknown,
}

/// Code-value range of the stored samples.
#[derive(Debug, Clone, Copy, PartialEq, Eq, Structural)]
pub enum ColorRange {
    Limited,
    Full,
    Unknown,
}

/// Opto-electronic transfer function of the stored samples.
#[derive(Debug, Clone, Copy, PartialEq, Eq, Structural)]
pub enum TransferFunction {
    Bt709,
    Srgb,
    Pq,
    Hlg,
    Unknown,
}

impl TransferFunction {
    /// PQ and HLG are the two curves that carry high dynamic range.
    pub open spec fn is_hdr_spec(self) -> bool {
        self is Pq || self is Hlg
    }

    pub fn is_hdr(self) -> (r: bool)
        ensures
            r == self.is_hdr_spec(),
    {
        match self {
            TransferFunction::Pq | TransferFunction::Hlg => true,
            _ => false,
        }
    }
}

/// Chromaticities of the RGB primaries.
#[derive(Debug, Clone, Copy, PartialEq, Eq, Structural)]
pub enum ColorPrimaries {
    Bt709,
    Bt601,
    Bt2020,
    Unknown,
}

/// How the samples of a picture are to be interpreted.
#[derive(Debug, Clone, Copy, PartialEq, Eq, Structural)]
pub struct ColorInfo {
    pub matrix: MatrixCoefficients,
    pub range: ColorRange,
    pub transfer_fn: TransferFunction,
    pub primaries: ColorPrimaries,
    pub bit_depth: u8,
}

impl ColorInfo {
    pub open spec fn bt709_spec() -> ColorInfo {
        ColorInfo {
            matrix: MatrixCoefficients::Bt709,
            range: ColorRange::Limited,
            transfer_fn: TransferFunction::Bt709,
            primaries: ColorPrimaries::Bt709,
            bit_depth: 8,
        }
    }

    /// Rec.709 video: the colour of every SDR export.
    pub fn bt709() -> (r: Self)
        ensures
            r == Self::bt709_spec(),
    {
        ColorInfo {
            matrix: MatrixCoefficients::Bt709,
            range: ColorRange::Limited,
            transfer_fn: TransferFunction::Bt709,
            primaries: ColorPrimaries::Bt709,
            bit_depth: 8,
        }
    }

    pub open spec fn bt2020_spec(hdr: bool, bit_depth: u8) -> ColorInfo {
        ColorInfo {
            matrix: MatrixCoefficients::Bt2020,
            range: ColorRange::Limited,
            transfer_fn: if hdr {
                TransferFunction::Pq
            } else {
                TransferFunction::Bt709
            },
            primaries: ColorPrimaries::Bt2020,
            bit_depth,
        }
    }

    /// BT.2020 video, with the PQ curve when `hdr` is set.
    pub fn bt2020(hdr: bool, bit_depth: u8) -> (r: Self)
        ensures
            r == Self::bt2020_spec(hdr, bit_depth),
    {
        ColorInfo {
            matrix: MatrixCoefficients::Bt2020,
            range: ColorRange::Limited,
            transfer_fn: if hdr {
                TransferFunction::Pq
            } else {
                TransferFunction::Bt709
            },
            primaries: ColorPrimaries::Bt2020,
            bit_depth,
        }
    }

    /// Full-range sRGB: the colour of a still image.
    pub fn srgb() -> (r: Self)
        ensures
            r == (ColorInfo {
                matrix: MatrixCoefficients::Bt709,
                range: ColorRange::Full,
                transfer_fn: TransferFunction::Srgb,
                primaries: ColorPrimaries::Bt709,
                bit_depth: 8,
            }),
    {
        ColorInfo {
            matrix: MatrixCoefficients::Bt709,
            range: ColorRange::Full,
            transfer_fn: TransferFunction::Srgb,
            primaries: ColorPrimaries::Bt709,
            bit_depth: 8,
        }
    }
}

/// Pixel format of a source as the container declares it.
#[derive(Debug, Clone, Copy, PartialEq, Eq, Structural)]
pub enum PixelFormat {
    Yuv420p,
    Nv12,
    P010,
    Yuv420p10,
    Yuv422p10,
    Yuv444p10,
    Yuv420p12,
}

impl PixelFormat {
    pub open spec fn bit_depth_spec(self) -> u8 {
        match self {
            PixelFormat::Yuv420p | PixelFormat::Nv12 => 8,
            PixelFormat::Yuv420p12 => 12,
            _ => 10,
        }
    }

    /// Bits per component.
    pub fn bit_depth(self) -> (r: u8)
        ensures
            r == self.bit_depth_spec(),
    {
        match self {
            PixelFormat::Yuv420p | PixelFormat::Nv12 => 8,
            PixelFormat::Yuv420p12 => 12,
            _ => 10,
        }
    }

    /// Whether a component has 10 bits or more.
    pub fn is_10bit(self) -> (r: bool)
        ensures
            r == (self.bit_depth_spec() >= 10),
    {
        self.bit_depth() >= 10
    }
}

/// What is known of a source's video stream.
#[derive(Debug, Clone, Copy, PartialEq, Eq, Structural)]
pub struct VideoStreamInfo {
    pub width: u32,
    pub height: u32,
    pub frame_rate: Rational,
    pub pixel_fmt: PixelFormat,
    pub color_info: ColorInfo,
    pub duration_pts: i64,
    pub is_vfr: bool,
    pub time_base: Rational,
}

/// Memory layout of a decoded 4:2:0 frame.
#[derive(Debug, Clone, Copy, PartialEq, Eq, Structural)]
pub struct FrameLayout {
    /// Bits per component.
    pub bit_depth: u8,
    /// Chroma samples interleaved in one plane (NV12, P010) rather than in two.
    pub semi_planar: bool,
    /// Samples sit in the high bits of their 16-bit word (P010).
    pub msb_aligned: bool,
}

impl FrameLayout {
    /// 8-bit, interleaved chroma.
    pub fn nv12() -> (r: Self)
        ensures
            r == (FrameLayout { bit_depth: 8, semi_planar: true, msb_aligned: false }),
    {
        FrameLayout { bit_depth: 8, semi_planar: true, msb_aligned: false }
    }

    /// 10-bit in the high bits, interleaved chroma.
    pub fn p010() -> (r: Self)
        ensures
            r == (FrameLayout { bit_depth: 10, semi_planar: true, msb_aligned: true }),
    {
        FrameLayout { bit_depth: 10, semi_planar: true, msb_aligned: true }
    }

    /// 8-bit, three planes.
    pub fn yuv420p8() -> (r: Self)
        ensures
            r == (FrameLayout { bit_depth: 8, semi_planar: false, msb_aligned: false }),
    {
        FrameLayout { bit_depth: 8, semi_planar: false, msb_aligned: false }
    }

    /// 10-bit in the low bits, three planes.
    pub fn yuv420p10() -> (r: Self)
        ensures
            r == (FrameLayout { bit_depth: 10, semi_planar: false, msb_aligned: false }),
    {
        FrameLayout { bit_depth: 10, semi_planar: false, msb_aligned: false }
    }
}

/// Layout and colour of a frame as the decoder produced it.
#[derive(Debug, Clone, Copy, PartialEq, Eq, Structural)]
pub struct DecodedFrameMeta {
    pub layout: FrameLayout,
    pub color: ColorInfo,
}

/// Every format has the depth its name says.
pub proof fn law_formats_have_their_depth(format: PixelFormat)
    ensures
        format.bit_depth_spec() == 8 <==> format is Yuv420p || format is Nv12,
        format.bit_depth_spec() == 12 <==> format is Yuv420p12,
        format.bit_depth_spec() == 10 <==> format is P010 || format is Yuv420p10 || format
            is Yuv422p10 || format is Yuv444p10,
{
}

/// The colours of video are limited in range and of one standard in matrix and primaries; the
/// PQ curve is the HDR one of BT.2020, at the depth that is asked for.
pub proof fn law_colours_are_of_one_standard(hdr: bool, bit_depth: u8)
    ensures
        ({
            let (sd, wide) = (ColorInfo::bt709_spec(), ColorInfo::bt2020_spec(hdr, bit_depth));
            &&& sd.matrix is Bt709 && sd.primaries is Bt709 && sd.transfer_fn is Bt709
            &&& sd.range is Limited && wide.range is Limited
            &&& sd.bit_depth == 8
            &&& wide.matrix is Bt2020 && wide.primaries is Bt2020
            &&& wide.bit_depth == bit_depth
            &&& wide.transfer_fn is Pq <==> hdr
            &&& wide.transfer_fn is Bt709 <==> !hdr
            &&& wide.transfer_fn.is_hdr_spec() <==> hdr
            &&& !sd.transfer_fn.is_hdr_spec()
        }),
{
}

} // verus!
