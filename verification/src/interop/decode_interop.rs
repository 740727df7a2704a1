//! An NVDEC surface copied into the two textures of a source.
use crate::interop::cuda_context::{CudaError, CUDA_SUCCESS};
use crate::text::{decimal, decimal_str};
use vstd::prelude::*;
use vstd::string::*;

verus! {

/// Memory addressed by a device pointer.
pub const CU_MEMORYTYPE_DEVICE: u32 = 2;

/// Memory of a CUDA array.
pub const CU_MEMORYTYPE_ARRAY: u32 = 3;

/// A copy of a rectangle from device memory into an array.
#[derive(Debug, Clone, Copy, PartialEq, Eq, Structural)]
pub struct CudaMemcpy2D {
    pub src_member_type: u32,
    pub src_device: u64,
    pub src_pitch: usize,
    pub dst_member_type: u32,
    pub dst_array: u64,
    pub width_in_bytes: usize,
    pub height: usize,
}

/// Extent of a plane, in samples of one byte or of two interleaved ones.
#[derive(Debug, Clone, Copy, PartialEq, Eq, Structural)]
pub struct PlaneExtent {
    pub width: u32,
    pub height: u32,
}

/// Where NVDEC put a frame.
#[derive(Debug, Clone, Copy, PartialEq, Eq, Structural)]
pub struct NvdecSurface {
    pub y: u64,
    pub uv: u64,
    /// Bytes from one row to the next, in either plane.
    pub pitch: usize,
}

/// What copying a surface has to do next.
pub enum CopyStep {
    /// Wait for every stream of the context: the surface is written on a stream of the
    /// decoder's, and streams of one context are not ordered among each other.
    WaitForDecoder,
    CopyLuma,
    CopyChroma,
    /// Wait for the stream: the textures are read by something that cannot see it.
    Synchronise,
    Failed { error: CudaError },
}

/// What has been done to copy a surface.
#[derive(Debug, Clone, Copy, PartialEq, Eq, Structural)]
pub enum CopyDone {
    DecoderWaited,
    LumaCopied,
    ChromaCopied,
}

/// The textures of a source: luma, and chroma at half the extent.
#[derive(Debug, Clone, Copy, PartialEq, Eq, Structural)]
pub struct DecodeInteropTarget {
    pub y_array: u64,
    pub uv_array: u64,
    pub width: u32,
    pub height: u32,
}

impl DecodeInteropTarget {
    /// The extents of the two textures, luma first.
    pub open spec fn extents(width: u32, height: u32) -> (PlaneExtent, PlaneExtent) {
        (
            PlaneExtent { width, height },
            PlaneExtent { width: width / 2, height: height / 2 },
        )
    }

    /// The extents of the two textures, luma first.
    pub fn planes(width: u32, height: u32) -> (r: (PlaneExtent, PlaneExtent))
        ensures
            r == Self::extents(width, height),
    {
        (
            PlaneExtent { width, height },
            PlaneExtent { width: width / 2, height: height / 2 },
        )
    }

    /// The textures, imported as these arrays.
    pub fn new(y_array: u64, uv_array: u64, width: u32, height: u32) -> (r: Self)
        ensures
            r == (DecodeInteropTarget { y_array, uv_array, width, height }),
    {
        DecodeInteropTarget { y_array, uv_array, width, height }
    }

    /// The array of the luma texture.
    pub fn y_texture(&self) -> (r: u64)
        ensures
            r == self.y_array,
    {
        self.y_array
    }

    /// The array of the chroma texture.
    pub fn uv_texture(&self) -> (r: u64)
        ensures
            r == self.uv_array,
    {
        self.uv_array
    }

    pub open spec fn plane_copy(src: u64, pitch: usize, dst: u64, width: int, height: int) -> CudaMemcpy2D {
        CudaMemcpy2D {
            src_member_type: CU_MEMORYTYPE_DEVICE,
            src_device: src,
            src_pitch: pitch,
            dst_member_type: CU_MEMORYTYPE_ARRAY,
            dst_array: dst,
            width_in_bytes: width as usize,
            height: height as usize,
        }
    }

    /// The frame fits the textures.
    pub open spec fn holds(self, width: u32, height: u32) -> bool {
        width <= self.width && height <= self.height
    }

    /// Why a frame that does not fit is refused.
    pub open spec fn oversize_text(self, width: u32, height: u32) -> Seq<char> {
        "a "@ + decimal(width as int) + "x"@ + decimal(height as int)
            + " frame does not fit the "@ + decimal(self.width as int) + "x"@ + decimal(
            self.height as int,
        ) + " decode target"@
    }

    /// `copies` bring a frame into the textures, or say why it cannot be.
    pub open spec fn copied_by(
        &self,
        surface: NvdecSurface,
        width: u32,
        height: u32,
        copies: Result<(CopyStep, CudaMemcpy2D, CudaMemcpy2D), CudaError>,
    ) -> bool {
        match copies {
            Ok((first, luma, chroma)) => {
                &&& self.holds(width, height)
                &&& first is WaitForDecoder
                &&& luma == Self::plane_copy(
                    surface.y,
                    surface.pitch,
                    self.y_array,
                    width as int,
                    height as int,
                )
                &&& chroma == Self::plane_copy(
                    surface.uv,
                    surface.pitch,
                    self.uv_array,
                    width as int,
                    height as int / 2,
                )
            },
            Err(error) => {
                &&& !self.holds(width, height)
                &&& error matches CudaError::Import(text) && text@ == self.oversize_text(
                    width,
                    height,
                )
            },
        }
    }

    /// The copies that bring a frame into the textures, luma first: the rows of both planes
    /// take as many bytes, and chroma has half as many.  A frame larger than the textures is
    /// refused; what a container says of its frames need not be true of them.
    pub fn copy_from_nvdec_frame(&self, surface: &NvdecSurface, width: u32, height: u32) -> (r:
        Result<(CopyStep, CudaMemcpy2D, CudaMemcpy2D), CudaError>)
        ensures
            self.copied_by(*surface, width, height, r),
    {
        if width > self.width || height > self.height {
            let mut text = String::from_str("a ");
            text.append(decimal_str(width as u64).as_str());
            text.append("x");
            text.append(decimal_str(height as u64).as_str());
            text.append(" frame does not fit the ");
            text.append(decimal_str(self.width as u64).as_str());
            text.append("x");
            text.append(decimal_str(self.height as u64).as_str());
            text.append(" decode target");
            return Err(CudaError::Import(text));
        }
        Ok(
            (
                CopyStep::WaitForDecoder,
                CudaMemcpy2D {
                    src_member_type: CU_MEMORYTYPE_DEVICE,
                    src_device: surface.y,
                    src_pitch: surface.pitch,
                    dst_member_type: CU_MEMORYTYPE_ARRAY,
                    dst_array: self.y_array,
                    width_in_bytes: width as usize,
                    height: height as usize,
                },
                CudaMemcpy2D {
                    src_member_type: CU_MEMORYTYPE_DEVICE,
                    src_device: surface.uv,
                    src_pitch: surface.pitch,
                    dst_member_type: CU_MEMORYTYPE_ARRAY,
                    dst_array: self.uv_array,
                    width_in_bytes: width as usize,
                    height: (height / 2) as usize,
                },
            ),
        )
    }
}

/// What follows; `text` is the driver's rendering of the status.
pub open spec fn step_after(done: CopyDone, status: i32, text: String) -> CopyStep {
    if status != CUDA_SUCCESS {
        CopyStep::Failed { error: CudaError::Import(text) }
    } else {
        match done {
            CopyDone::DecoderWaited => CopyStep::CopyLuma,
            CopyDone::LumaCopied => CopyStep::CopyChroma,
            CopyDone::ChromaCopied => CopyStep::Synchronise,
        }
    }
}

/// Go on with copying a surface once a step is done.
pub fn copy_step_done(done: CopyDone, status: i32, text: String) -> (r: CopyStep)
    ensures
        r == step_after(done, status, text),
{
    if status != CUDA_SUCCESS {
        CopyStep::Failed { error: CudaError::Import(text) }
    } else {
        match done {
            CopyDone::DecoderWaited => CopyStep::CopyLuma,
            CopyDone::LumaCopied => CopyStep::CopyChroma,
            CopyDone::ChromaCopied => CopyStep::Synchronise,
        }
    }
}

/// A surface is copied once the decoder has written it, and read once it is copied: luma is
/// copied only after a wait that succeeded, chroma only after luma, and the stream is waited
/// for only after both.
pub proof fn law_a_surface_is_copied_after_it_is_written(
    done: CopyDone,
    status: i32,
    text: String,
)
    ensures
        step_after(done, status, text) is CopyLuma <==> done is DecoderWaited && status
            == CUDA_SUCCESS,
        step_after(done, status, text) is CopyChroma <==> done is LumaCopied && status
            == CUDA_SUCCESS,
        step_after(done, status, text) is Synchronise <==> done is ChromaCopied && status
            == CUDA_SUCCESS,
{
}

/// A frame that is copied stays inside its textures, whose extents are even: no row is longer
/// than a row of its texture, and there are no more rows.
pub proof fn law_copies_stay_in_the_textures(
    target: DecodeInteropTarget,
    surface: NvdecSurface,
    width: u32,
    height: u32,
)
    requires
        target.width % 2 == 0,
        target.holds(width, height),
    ensures
        ({
            let luma = DecodeInteropTarget::plane_copy(
                surface.y,
                surface.pitch,
                target.y_array,
                width as int,
                height as int,
            );
            let chroma = DecodeInteropTarget::plane_copy(
                surface.uv,
                surface.pitch,
                target.uv_array,
                width as int,
                height as int / 2,
            );
            &&& luma.width_in_bytes <= target.width
            &&& luma.height <= target.height
            &&& chroma.width_in_bytes <= 2 * (target.width / 2)
            &&& chroma.height <= target.height / 2
        }),
{
}

/// A frame of even extents fills its textures: a row of chroma, two bytes to a sample, is as
/// long as a row of luma, and the two planes hold one and a half bytes to a pixel.
pub proof fn law_copies_fill_the_textures(
    target: DecodeInteropTarget,
    surface: NvdecSurface,
    y_copy: CudaMemcpy2D,
    uv_copy: CudaMemcpy2D,
)
    requires
        target.width % 2 == 0,
        target.height % 2 == 0,
        y_copy == DecodeInteropTarget::plane_copy(
            surface.y,
            surface.pitch,
            target.y_array,
            target.width as int,
            target.height as int,
        ),
        uv_copy == DecodeInteropTarget::plane_copy(
            surface.uv,
            surface.pitch,
            target.uv_array,
            target.width as int,
            target.height as int / 2,
        ),
    ensures
        y_copy.width_in_bytes == target.width,
        y_copy.height == target.height,
        uv_copy.width_in_bytes == 2 * (target.width / 2),
        uv_copy.height == target.height / 2,
        2 * (y_copy.width_in_bytes * y_copy.height + uv_copy.width_in_bytes * uv_copy.height) == 3
            * (target.width * target.height),
{
    let (w, h) = (target.width as int, target.height as int);
    assert(2 * (w * h + w * (h / 2)) == 3 * (w * h)) by (nonlinear_arith)
        requires
            h % 2 == 0,
    ;
}

/// Luma goes from the surface's luma plane to the luma texture, and chroma from its chroma
/// plane to the chroma texture, row by row at the surface's pitch; chroma has half the rows, of
/// as many bytes.  A frame is refused exactly when it is wider or higher than the textures.
pub proof fn law_planes_go_to_their_textures(
    target: DecodeInteropTarget,
    surface: NvdecSurface,
    width: u32,
    height: u32,
    copies: Result<(CopyStep, CudaMemcpy2D, CudaMemcpy2D), CudaError>,
)
    requires
        target.copied_by(surface, width, height, copies),
    ensures
        copies is Err <==> width > target.width || height > target.height,
        copies is Err ==> copies->Err_0 is Import,
        copies matches Ok((first, luma, chroma)) ==> {
            &&& first is WaitForDecoder
            &&& luma.src_device == surface.y && chroma.src_device == surface.uv
            &&& luma.dst_array == target.y_array && chroma.dst_array == target.uv_array
            &&& luma.src_pitch == surface.pitch && chroma.src_pitch == surface.pitch
            &&& luma.src_member_type == 2 && chroma.src_member_type == 2
            &&& luma.dst_member_type == 3 && chroma.dst_member_type == 3
            &&& luma.width_in_bytes == width && chroma.width_in_bytes == width
            &&& luma.height == height
            &&& height % 2 == 0 ==> 2 * chroma.height == height
            &&& height % 2 == 1 ==> 2 * chroma.height + 1 == height
        },
{
}

/// The chroma texture has half the extent of the luma texture, whose extent is the frame's.
pub proof fn law_chroma_has_half_the_extent(width: u32, height: u32)
    requires
        width % 2 == 0,
        height % 2 == 0,
    ensures
        ({
            let (luma, chroma) = DecodeInteropTarget::extents(width, height);
            &&& luma.width == width && luma.height == height
            &&& 2 * chroma.width == width && 2 * chroma.height == height
        }),
{
}

/// A step that fails is told in the driver's words.
pub proof fn law_failed_copies_say_why(done: CopyDone, status: i32, text: String)
    requires
        status != 0,
    ensures
        step_after(done, status, text) == (CopyStep::Failed { error: CudaError::Import(text) }),
{
}

/// A frame that is wider or higher than the textures is refused with both extents, the
/// frame's and the textures'.
pub proof fn law_oversized_frames_are_refused(
    target: DecodeInteropTarget,
    surface: NvdecSurface,
    width: u32,
    height: u32,
    r: Result<(CopyStep, CudaMemcpy2D, CudaMemcpy2D), CudaError>,
)
    requires
        target.copied_by(surface, width, height, r),
    ensures
        r is Err <==> width > target.width || height > target.height,
        r is Err ==> r->Err_0 is Import && r->Err_0->Import_0@ == "a "@ + decimal(width as int) + "x"@
            + decimal(height as int) + " frame does not fit the "@ + decimal(target.width as int)
            + "x"@ + decimal(target.height as int) + " decode target"@,
{
}

} // verus!
