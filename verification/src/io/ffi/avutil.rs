//! FFmpeg's ratios, pixel formats and status codes.
use crate::timeline::{FrameLayout, Rational};
use vstd::prelude::*;

verus! {

/// A ratio as FFmpeg stores it.
#[derive(Copy, Clone, Debug, PartialEq, Eq, Structural)]
pub struct AVRational {
    pub num: i32,
    pub den: i32,
}

impl AVRational {
    /// The same ratio in the engine's type.
    pub fn to_rational(self) -> (r: Rational)
        ensures
            r == (Rational { num: self.num as i64, den: self.den as i64 }),
    {
        Rational { num: self.num as i64, den: self.den as i64 }
    }

    /// Whether both parts are non-zero.
    pub fn is_valid(self) -> (r: bool)
        ensures
            r == (self.num != 0 && self.den != 0),
    {
        self.num != 0 && self.den != 0
    }
}

impl Default for AVRational {
    fn default() -> (r: Self)
        ensures
            r == (AVRational { num: 0, den: 0 }),
    {
        AVRational { num: 0, den: 0 }
    }
}

/// The packet can be decoded on its own.
pub const AV_PKT_FLAG_KEY: i32 = 1;

/// The decoder wants its output taken, or more input, first.
pub const AVERROR_EAGAIN: i32 = -11;

pub const AVERROR_EOF: i32 = -541478725;

/// A time that is not known.
pub const AV_NOPTS_VALUE: i64 = i64::MIN;

pub const AV_PIX_FMT_YUV420P: i32 = 0;

pub const AV_PIX_FMT_NV12: i32 = 23;

/// 10-bit planar 4:2:0, codes in the low bits of 16-bit little-endian words.
pub const AV_PIX_FMT_YUV420P10LE: i32 = 62;

/// 12-bit planar 4:2:0.
pub const AV_PIX_FMT_YUV420P12LE: i32 = 123;

/// 10-bit semi-planar 4:2:0, codes in the high bits.
pub const AV_PIX_FMT_P010LE: i32 = 158;

/// 16-bit semi-planar 4:2:0.
pub const AV_PIX_FMT_P016LE: i32 = 169;

/// The layout of a pixel format that the upload takes as it is.
pub open spec fn layout_of(fmt: i32) -> Option<FrameLayout> {
    if fmt == AV_PIX_FMT_YUV420P {
        Some(FrameLayout { bit_depth: 8, semi_planar: false, msb_aligned: false })
    } else if fmt == AV_PIX_FMT_NV12 {
        Some(FrameLayout { bit_depth: 8, semi_planar: true, msb_aligned: false })
    } else if fmt == AV_PIX_FMT_P010LE {
        Some(FrameLayout { bit_depth: 10, semi_planar: true, msb_aligned: true })
    } else if fmt == AV_PIX_FMT_YUV420P10LE {
        Some(FrameLayout { bit_depth: 10, semi_planar: false, msb_aligned: false })
    } else if fmt == AV_PIX_FMT_YUV420P12LE {
        Some(FrameLayout { bit_depth: 12, semi_planar: false, msb_aligned: false })
    } else if fmt == AV_PIX_FMT_P016LE {
        Some(FrameLayout { bit_depth: 16, semi_planar: true, msb_aligned: false })
    } else {
        None
    }
}

/// The layout of a pixel format, or nothing for one that has to be converted first.
pub fn frame_layout_for_pix_fmt(fmt: i32) -> (r: Option<FrameLayout>)
    ensures
        r == layout_of(fmt),
{
    if fmt == AV_PIX_FMT_YUV420P {
        Some(FrameLayout::yuv420p8())
    } else if fmt == AV_PIX_FMT_NV12 {
        Some(FrameLayout::nv12())
    } else if fmt == AV_PIX_FMT_P010LE {
        Some(FrameLayout::p010())
    } else if fmt == AV_PIX_FMT_YUV420P10LE {
        Some(FrameLayout::yuv420p10())
    } else if fmt == AV_PIX_FMT_YUV420P12LE {
        Some(FrameLayout { bit_depth: 12, semi_planar: false, msb_aligned: false })
    } else if fmt == AV_PIX_FMT_P016LE {
        Some(FrameLayout { bit_depth: 16, semi_planar: true, msb_aligned: false })
    } else {
        None
    }
}

/// A layout is that of FFmpeg's format: eight bits for two formats, ten for two, twelve for
/// one and sixteen for one; NV12, P010 and P016 interleave their chroma, and only P010 keeps
/// its codes in the high bits.  Every other format has to be converted.
pub proof fn law_layouts_are_the_formats(fmt: i32)
    ensures
        ({
            let taken = fmt == 0 || fmt == 23 || fmt == 62 || fmt == 123 || fmt == 158 || fmt
                == 169;
            &&& layout_of(fmt) is Some <==> taken
            &&& layout_of(fmt) matches Some(layout) ==> {
                &&& layout.bit_depth == 8 <==> fmt == 0 || fmt == 23
                &&& layout.bit_depth == 10 <==> fmt == 62 || fmt == 158
                &&& layout.bit_depth == 12 <==> fmt == 123
                &&& layout.bit_depth == 16 <==> fmt == 169
                &&& layout.semi_planar <==> fmt == 23 || fmt == 158 || fmt == 169
                &&& layout.msb_aligned <==> fmt == 158
            }
        }),
{
}

} // verus!
