//! Geometry of the RGB to NV12 conversion: pitches, planes and dispatch sizes.
use crate::arith::{ceil_div, lemma_ceil_div};
use vstd::prelude::*;

verus! {

/// Luma samples one shader invocation packs into a word; also what a pitch must divide by.
pub const LUMA_PIXELS_PER_INVOCATION: u32 = 4;

/// Row alignment of the buffers the export allocates.
pub const NV12_PITCH_ALIGNMENT: u32 = 256;

/// Where the planes of an NV12 frame lie in the shader's destination buffer.
#[derive(Debug, Clone, Copy, PartialEq, Eq, Structural)]
pub struct Nv12EncodeParams {
    pub width: u32,
    pub height: u32,
    /// Row stride of both planes, in bytes.
    pub pitch: u32,
    /// Byte offset of the interleaved chroma plane.
    pub chroma_plane_offset: u32,
}

/// One conversion: the parameters and the workgroups of its two passes.
#[derive(Debug, Clone, Copy, PartialEq, Eq, Structural)]
pub struct Nv12Dispatch {
    pub params: Nv12EncodeParams,
    pub luma_x: u32,
    pub luma_y: u32,
    pub chroma_x: u32,
    pub chroma_y: u32,
}

/// RGB to NV12 conversion of frames of one size.
pub struct Nv12EncodeNode {
    pub width: u32,
    pub height: u32,
}

pub(crate) fn div_ceil_u32(a: u32, b: u32) -> (r: u32)
    requires
        b > 0,
    ensures
        r == ceil_div(a as int, b as int),
        r * b < a + b,
{
    proof {
        lemma_ceil_div(a as int, b as int);
        assert(ceil_div(a as int, b as int) <= a) by (nonlinear_arith)
            requires
                b >= 1,
                ceil_div(a as int, b as int) * b < a + b,
                a >= 0,
        ;
    }
    crate::arith::div_ceil_u64(a as u64, b as u64) as u32
}

impl Nv12EncodeNode {
    /// Bytes of an NV12 frame of `height` rows: the luma rows and half as many chroma
    /// rows, an odd last one counting whole.
    pub open spec fn size_of(height: int, pitch: int) -> int {
        pitch * (height + ceil_div(height, 2))
    }

    /// Total size in bytes of an NV12 buffer at this frame height and pitch.
    pub fn buffer_size(height: u32, pitch: u32) -> (r: u64)
        requires
            Self::size_of(height as int, pitch as int) <= u64::MAX,
        ensures
            r == Self::size_of(height as int, pitch as int),
    {
        let rows: u64 = height as u64 + div_ceil_u32(height, 2) as u64;
        pitch as u64 * rows
    }

    /// `width` rounded up to a multiple of `to`.
    pub open spec fn rounded_up(width: int, to: int) -> int {
        ceil_div(width, to) * to
    }

    /// The smallest legal pitch for a width: whole 4-byte words.
    pub fn min_pitch(width: u32) -> (r: u32)
        requires
            Self::rounded_up(width as int, 4) <= u32::MAX,
        ensures
            r == Self::rounded_up(width as int, 4),
    {
        div_ceil_u32(width, LUMA_PIXELS_PER_INVOCATION) * LUMA_PIXELS_PER_INVOCATION
    }

    /// The pitch the export allocates: every row starts on a 256-byte boundary.
    pub fn aligned_pitch(width: u32) -> (r: u32)
        requires
            Self::rounded_up(width as int, 256) <= u32::MAX,
        ensures
            r == Self::rounded_up(width as int, 256),
    {
        div_ceil_u32(width, NV12_PITCH_ALIGNMENT) * NV12_PITCH_ALIGNMENT
    }

    /// The passes of `dispatch` convert one frame into a buffer of row stride `pitch`.
    pub open spec fn converted_by(&self, pitch: u32, dispatch: Nv12Dispatch) -> bool {
        &&& dispatch.params == (Nv12EncodeParams {
            width: self.width,
            height: self.height,
            pitch,
            chroma_plane_offset: dispatch.params.chroma_plane_offset,
        })
        &&& dispatch.params.chroma_plane_offset == pitch * self.height
        &&& dispatch.luma_x == ceil_div(ceil_div(self.width as int, 4), 8)
        &&& dispatch.luma_y == ceil_div(self.height as int, 8)
        &&& dispatch.chroma_x == ceil_div(ceil_div(ceil_div(self.width as int, 2), 2), 8)
        &&& dispatch.chroma_y == ceil_div(ceil_div(self.height as int, 2), 8)
    }

    /// The two passes that convert one frame into a buffer of row stride `pitch`.
    ///
    /// The pitch is whole words and no narrower than the frame: anything else would
    /// shear the image.
    pub fn record(&self, pitch: u32) -> (r: Nv12Dispatch)
        requires
            pitch % 4 == 0,
            pitch >= Self::rounded_up(self.width as int, 4),
            pitch * self.height <= u32::MAX,
        ensures
            self.converted_by(pitch, r),
    {
        let chroma_w: u32 = div_ceil_u32(self.width, 2);
        let chroma_h: u32 = div_ceil_u32(self.height, 2);
        Nv12Dispatch {
            params: Nv12EncodeParams {
                width: self.width,
                height: self.height,
                pitch,
                chroma_plane_offset: pitch * self.height,
            },
            luma_x: div_ceil_u32(div_ceil_u32(self.width, LUMA_PIXELS_PER_INVOCATION), 8),
            luma_y: div_ceil_u32(self.height, 8),
            chroma_x: div_ceil_u32(div_ceil_u32(chroma_w, 2), 8),
            chroma_y: div_ceil_u32(chroma_h, 8),
        }
    }
}

/// The pitch the export allocates is one the conversion accepts, and its rows start on
/// 256-byte boundaries.
pub proof fn law_aligned_pitch_is_legal(width: int)
    requires
        width >= 0,
    ensures
        Nv12EncodeNode::rounded_up(width, 256) % 256 == 0,
        Nv12EncodeNode::rounded_up(width, 256) % 4 == 0,
        Nv12EncodeNode::rounded_up(width, 256) >= Nv12EncodeNode::rounded_up(width, 4),
        Nv12EncodeNode::rounded_up(width, 4) >= width,
{
    lemma_ceil_div(width, 256);
    lemma_ceil_div(width, 4);
    let q = ceil_div(width, 256);
    assert(width <= (64 * q) * 4);
}

/// The chroma plane starts where the luma plane ends and ends with the buffer.
pub proof fn law_planes_fill_the_buffer(height: int, pitch: int)
    requires
        height >= 0,
        pitch >= 0,
    ensures
        pitch * height + pitch * ceil_div(height, 2) == Nv12EncodeNode::size_of(height, pitch),
{
    assert(pitch * (height + ceil_div(height, 2)) == pitch * height + pitch * ceil_div(height, 2))
        by (nonlinear_arith);
}

/// The workgroups of eight by eight invocations reach every sample: four luma samples or
/// two chroma pairs per invocation across, one row down.
pub proof fn law_dispatch_reaches_every_sample(width: int, height: int)
    requires
        width >= 0,
        height >= 0,
    ensures
        ceil_div(ceil_div(width, 4), 8) * 8 * 4 >= width,
        ceil_div(height, 8) * 8 >= height,
        ceil_div(ceil_div(ceil_div(width, 2), 2), 8) * 8 * 2 >= ceil_div(width, 2),
        ceil_div(ceil_div(height, 2), 8) * 8 >= ceil_div(height, 2),
{
    lemma_ceil_div(width, 4);
    lemma_ceil_div(ceil_div(width, 4), 8);
    lemma_ceil_div(height, 8);
    lemma_ceil_div(width, 2);
    lemma_ceil_div(ceil_div(width, 2), 2);
    lemma_ceil_div(ceil_div(ceil_div(width, 2), 2), 8);
    lemma_ceil_div(height, 2);
    lemma_ceil_div(ceil_div(height, 2), 8);
}

/// A conversion reaches every sample of its frame with no workgroup to spare: eight by eight
/// invocations of four luma samples, or of two pairs of chroma samples, which are half as many
/// in either direction.  Chroma begins behind the last row of luma.
pub proof fn law_a_frame_is_converted_whole(
    node: Nv12EncodeNode,
    pitch: u32,
    dispatch: Nv12Dispatch,
)
    requires
        node.converted_by(pitch, dispatch),
    ensures
        ({
            let (w, h) = (node.width as int, node.height as int);
            &&& dispatch.params.width == w && dispatch.params.height == h
            &&& dispatch.params.pitch == pitch
            &&& dispatch.params.chroma_plane_offset == pitch * h
            &&& 32 * dispatch.luma_x >= w && 32 * (dispatch.luma_x - 1) < w
            &&& 8 * dispatch.luma_y >= h && 8 * (dispatch.luma_y - 1) < h
            &&& 32 * dispatch.chroma_x >= w && 32 * (dispatch.chroma_x - 1) < w
            &&& 16 * dispatch.chroma_y >= h && 16 * (dispatch.chroma_y - 1) < h
        }),
{
    let (w, h) = (node.width as int, node.height as int);
    lemma_ceil_div(w, 4);
    lemma_ceil_div(ceil_div(w, 4), 8);
    lemma_ceil_div(h, 8);
    lemma_ceil_div(w, 2);
    lemma_ceil_div(ceil_div(w, 2), 2);
    lemma_ceil_div(ceil_div(ceil_div(w, 2), 2), 8);
    lemma_ceil_div(h, 2);
    lemma_ceil_div(ceil_div(h, 2), 8);
}

/// A pitch holds a row and wastes less than one unit of its alignment.
pub proof fn law_pitches_are_tight(width: int)
    requires
        width >= 0,
    ensures
        width <= Nv12EncodeNode::rounded_up(width, 4) < width + 4,
        Nv12EncodeNode::rounded_up(width, 4) % 4 == 0,
        width <= Nv12EncodeNode::rounded_up(width, 256) < width + 256,
        Nv12EncodeNode::rounded_up(width, 256) % 256 == 0,
{
    lemma_ceil_div(width, 4);
    lemma_ceil_div(width, 256);
}

/// A buffer holds every luma row and every chroma row, the last of which may serve one luma
/// row alone, and nothing else.
pub proof fn law_buffers_hold_one_and_a_half_planes(height: int, pitch: int)
    requires
        height >= 0,
        pitch >= 0,
    ensures
        height % 2 == 0 ==> 2 * Nv12EncodeNode::size_of(height, pitch) == 3 * (pitch * height),
        height % 2 == 1 ==> 2 * Nv12EncodeNode::size_of(height, pitch) == 3 * (pitch * height)
            + pitch,
{
    lemma_ceil_div(height, 2);
    law_planes_fill_the_buffer(height, pitch);
    let half = ceil_div(height, 2);
    if height % 2 == 0 {
        assert(2 * half == height);
        assert(2 * (pitch * half) == pitch * height) by (nonlinear_arith)
            requires
                2 * half == height,
        ;
    } else {
        assert(2 * half == height + 1);
        assert(2 * (pitch * half) == pitch * height + pitch) by (nonlinear_arith)
            requires
                2 * half == height + 1,
        ;
    }
}

} // verus!
