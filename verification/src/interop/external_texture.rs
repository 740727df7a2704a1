//! Textures that CUDA can read and write.
use crate::interop::capability::InteropTransport;
use crate::interop::cuda_context::CudaError;
use crate::interop::external_buffer::{check_handle, handle_defect};
use crate::interop::external_memory::{
    array_map, import_of, transport_defect, CudaArray3DDescriptor,
    CudaExternalMemoryMipmappedArrayDesc, ImportDesc, SharedAllocation, SharedCall, SharedRequest,
    SharedStage, CUDA_ARRAY3D_SURFACE_LDST, CUDA_EXTERNAL_MEMORY_DEDICATED,
    CU_EXTERNAL_MEMORY_HANDLE_TYPE_D3D12_RESOURCE,
};
use vstd::prelude::*;
use vstd::string::*;

verus! {

pub const CU_AD_FORMAT_UNSIGNED_INT8: u32 = 0x01;

pub const CU_AD_FORMAT_UNSIGNED_INT32: u32 = 0x03;

pub const CU_AD_FORMAT_HALF: u32 = 0x10;

/// Texture formats, those that are shared and the rest.
#[derive(Debug, Clone, Copy, PartialEq, Eq, Structural)]
pub enum TextureFormat {
    R32Uint,
    R8Unorm,
    Rg8Unorm,
    Rgba8Unorm,
    Rgba16Float,
    Other,
}

impl TextureFormat {
    pub open spec fn name(self) -> Seq<char> {
        match self {
            TextureFormat::R32Uint => "R32Uint"@,
            TextureFormat::R8Unorm => "R8Unorm"@,
            TextureFormat::Rg8Unorm => "Rg8Unorm"@,
            TextureFormat::Rgba8Unorm => "Rgba8Unorm"@,
            TextureFormat::Rgba16Float => "Rgba16Float"@,
            TextureFormat::Other => "Other"@,
        }
    }

    /// The name of the format.
    pub fn as_str(self) -> (r: &'static str)
        ensures
            r@ == self.name(),
    {
        match self {
            TextureFormat::R32Uint => "R32Uint",
            TextureFormat::R8Unorm => "R8Unorm",
            TextureFormat::Rg8Unorm => "Rg8Unorm",
            TextureFormat::Rgba8Unorm => "Rgba8Unorm",
            TextureFormat::Rgba16Float => "Rgba16Float",
            TextureFormat::Other => "Other",
        }
    }

    pub open spec fn dxgi(self) -> u32 {
        match self {
            TextureFormat::R32Uint => 42,
            TextureFormat::R8Unorm => 61,
            TextureFormat::Rg8Unorm => 49,
            TextureFormat::Rgba8Unorm => 28,
            TextureFormat::Rgba16Float => 10,
            TextureFormat::Other => 0,
        }
    }

    /// The DXGI number of the format, zero for one that is not shared.
    pub fn dxgi_format(self) -> (r: u32)
        ensures
            r == self.dxgi(),
    {
        match self {
            TextureFormat::R32Uint => 42,
            TextureFormat::R8Unorm => 61,
            TextureFormat::Rg8Unorm => 49,
            TextureFormat::Rgba8Unorm => 28,
            TextureFormat::Rgba16Float => 10,
            TextureFormat::Other => 0,
        }
    }
}

/// How a texture format is described to CUDA.
#[derive(Copy, Clone, Debug, PartialEq, Eq, Structural)]
pub struct CudaArrayFormat {
    pub format: u32,
    /// Channels per element.
    pub num_channels: u32,
    pub bytes_per_px: u32,
}

/// The CUDA description of a format, if it has one.
pub open spec fn cuda_format(format: TextureFormat) -> Option<CudaArrayFormat> {
    match format {
        TextureFormat::R32Uint => Some(
            CudaArrayFormat {
                format: CU_AD_FORMAT_UNSIGNED_INT32,
                num_channels: 1,
                bytes_per_px: 4,
            },
        ),
        TextureFormat::R8Unorm => Some(
            CudaArrayFormat {
                format: CU_AD_FORMAT_UNSIGNED_INT8,
                num_channels: 1,
                bytes_per_px: 1,
            },
        ),
        TextureFormat::Rg8Unorm => Some(
            CudaArrayFormat {
                format: CU_AD_FORMAT_UNSIGNED_INT8,
                num_channels: 2,
                bytes_per_px: 2,
            },
        ),
        TextureFormat::Rgba8Unorm => Some(
            CudaArrayFormat {
                format: CU_AD_FORMAT_UNSIGNED_INT8,
                num_channels: 4,
                bytes_per_px: 4,
            },
        ),
        TextureFormat::Rgba16Float => Some(
            CudaArrayFormat { format: CU_AD_FORMAT_HALF, num_channels: 4, bytes_per_px: 8 },
        ),
        TextureFormat::Other => None,
    }
}

impl CudaArrayFormat {
    /// The CUDA description of a wgpu format; nothing for one that is not shared.
    pub fn for_wgpu(format: TextureFormat) -> (r: Option<Self>)
        ensures
            r == cuda_format(format),
    {
        match format {
            TextureFormat::R32Uint => Some(
                CudaArrayFormat {
                    format: CU_AD_FORMAT_UNSIGNED_INT32,
                    num_channels: 1,
                    bytes_per_px: 4,
                },
            ),
            TextureFormat::R8Unorm => Some(
                CudaArrayFormat {
                    format: CU_AD_FORMAT_UNSIGNED_INT8,
                    num_channels: 1,
                    bytes_per_px: 1,
                },
            ),
            TextureFormat::Rg8Unorm => Some(
                CudaArrayFormat {
                    format: CU_AD_FORMAT_UNSIGNED_INT8,
                    num_channels: 2,
                    bytes_per_px: 2,
                },
            ),
            TextureFormat::Rgba8Unorm => Some(
                CudaArrayFormat {
                    format: CU_AD_FORMAT_UNSIGNED_INT8,
                    num_channels: 4,
                    bytes_per_px: 4,
                },
            ),
            TextureFormat::Rgba16Float => Some(
                CudaArrayFormat { format: CU_AD_FORMAT_HALF, num_channels: 4, bytes_per_px: 8 },
            ),
            TextureFormat::Other => None,
        }
    }
}

/// A texture's memory as CUDA sees it.
#[derive(Debug, Clone, Copy, PartialEq, Eq, Structural)]
pub struct ExternalTexture {
    pub cuda_array: u64,
    pub mipmap: u64,
    pub ext_mem: u64,
    pub width: u32,
    pub height: u32,
}

/// A texture that both APIs address.
#[derive(Debug, Clone, Copy, PartialEq, Eq, Structural)]
pub struct SharedTexture {
    pub external: ExternalTexture,
    pub shared_handle: u64,
}

/// What releasing a shared allocation does, in order; zero means that there is nothing to
/// do.
#[derive(Debug, Clone, Copy, PartialEq, Eq, Structural)]
pub struct ReleasePlan {
    /// The mapping, unmapped first.
    pub mapping: u64,
    /// The import, destroyed next.
    pub ext_mem: u64,
    /// The handle, closed last.
    pub handle: u64,
}

impl SharedAllocation {
    /// The texture, once it is mapped; `cuda_array` is the first level of the mapping.
    pub fn texture(self, cuda_array: u64) -> (r: SharedTexture)
        requires
            self.request is Texture,
            self.stage is Ready,
        ensures
            r == (SharedTexture {
                external: ExternalTexture {
                    cuda_array,
                    mipmap: self.stage->mapped,
                    ext_mem: self.stage->Ready_ext_mem,
                    width: self.request->width,
                    height: self.request->height,
                },
                shared_handle: self.stage->Ready_handle,
            }),
    {
        let (width, height): (u32, u32) = match self.request {
            SharedRequest::Texture { width, height, .. } => (width, height),
            SharedRequest::Buffer { .. } => (0, 0),
        };
        let (handle, ext_mem, mipmap): (u64, u64, u64) = match self.stage {
            SharedStage::Ready { handle, ext_mem, mapped } => (handle, ext_mem, mapped),
            _ => (0, 0, 0),
        };
        SharedTexture {
            external: ExternalTexture { cuda_array, mipmap, ext_mem, width, height },
            shared_handle: handle,
        }
    }
}

impl SharedTexture {
    /// Start allocating a texture for both APIs; `format_name` is what wgpu calls the
    /// format.
    pub fn new(
        transport: InteropTransport,
        windows: bool,
        width: u32,
        height: u32,
        format: TextureFormat,
        format_name: &str,
        render_attachment: bool,
        storage: bool,
    ) -> (r: Result<(SharedAllocation, SharedCall), CudaError>)
        ensures
            match cuda_format(format) {
                None => r matches Err(CudaError::Import(text)) && text@
                    == "no CUDA array descriptor is defined for wgpu format "@ + format_name@
                    + " \u{2014} add one to CudaArrayFormat::for_wgpu"@,
                Some(array_fmt) => match r {
                    Ok(begun) => {
                        let request = SharedRequest::Texture {
                            width,
                            height,
                            format,
                            array_fmt,
                            render_attachment,
                            storage,
                        };
                        &&& transport_defect(transport, windows) is None
                        &&& begun.0 == (SharedAllocation { request, stage: SharedStage::Querying })
                        &&& begun.1 == (SharedCall::QueryAllocation { desc: request.desc() })
                    },
                    Err(e) => e matches CudaError::Import(text) && transport_defect(
                        transport,
                        windows,
                    ) == Some(text@),
                },
            },
    {
        match CudaArrayFormat::for_wgpu(format) {
            None => {
                let mut text = String::from_str(
                    "no CUDA array descriptor is defined for wgpu format ",
                );
                text.append(format_name);
                text.append(" \u{2014} add one to CudaArrayFormat::for_wgpu");
                Err(CudaError::Import(text))
            },
            Some(array_fmt) => SharedAllocation::start(
                SharedRequest::Texture {
                    width,
                    height,
                    format,
                    array_fmt,
                    render_attachment,
                    storage,
                },
                transport,
                windows,
            ),
        }
    }

    /// What releasing the texture does.
    pub open spec fn plan(self) -> ReleasePlan {
        ReleasePlan {
            mapping: self.external.mipmap,
            ext_mem: self.external.ext_mem,
            handle: self.shared_handle,
        }
    }

    /// The texture once it is released.
    pub open spec fn released(self) -> SharedTexture {
        SharedTexture {
            external: ExternalTexture { cuda_array: 0, mipmap: 0, ext_mem: 0, ..self.external },
            shared_handle: 0,
        }
    }

    /// Release the texture; releasing it again does nothing.
    pub fn release(&mut self) -> (r: ReleasePlan)
        ensures
            r == old(self).plan(),
            *final(self) == old(self).released(),
    {
        let external = self.external.release();
        let handle: u64 = self.shared_handle;
        self.shared_handle = 0;
        ReleasePlan { mapping: external.mapping, ext_mem: external.ext_mem, handle }
    }
}

impl ExternalTexture {
    /// How a handle from elsewhere is imported and mapped.
    pub fn import_win32_d3d12(
        handle: u64,
        alloc_size: u64,
        width: u32,
        height: u32,
        array_fmt: CudaArrayFormat,
    ) -> (r: Result<(ImportDesc, CudaExternalMemoryMipmappedArrayDesc), CudaError>)
        ensures
            match handle_defect(handle, alloc_size) {
                Some(defect) => r matches Err(CudaError::Import(text)) && text@ == defect,
                None => r == Ok::<(ImportDesc, CudaExternalMemoryMipmappedArrayDesc), CudaError>(
                    (import_of(handle, alloc_size), array_map(width, height, array_fmt)),
                ),
            },
    {
        match check_handle(handle, alloc_size) {
            Err(e) => return Err(e),
            Ok(_) => {},
        }
        Ok(
            (
                ImportDesc {
                    handle_type: CU_EXTERNAL_MEMORY_HANDLE_TYPE_D3D12_RESOURCE,
                    handle,
                    size: alloc_size,
                    flags: CUDA_EXTERNAL_MEMORY_DEDICATED,
                },
                CudaExternalMemoryMipmappedArrayDesc {
                    offset: 0,
                    array_desc: CudaArray3DDescriptor {
                        width: width as usize,
                        height: height as usize,
                        depth: 0,
                        format: array_fmt.format,
                        num_channels: array_fmt.num_channels,
                        flags: CUDA_ARRAY3D_SURFACE_LDST,
                    },
                    num_levels: 1,
                },
            ),
        )
    }

    /// The array of the texture.
    pub fn cuda_array(&self) -> (r: u64)
        ensures
            r == self.cuda_array,
    {
        self.cuda_array
    }

    /// Release CUDA's view of the texture; releasing it again does nothing.
    pub fn release(&mut self) -> (r: ReleasePlan)
        ensures
            r == (ReleasePlan {
                mapping: old(self).mipmap,
                ext_mem: old(self).ext_mem,
                handle: 0,
            }),
            *final(self) == (ExternalTexture { cuda_array: 0, mipmap: 0, ext_mem: 0, ..*old(self) }),
    {
        let plan = ReleasePlan { mapping: self.mipmap, ext_mem: self.ext_mem, handle: 0 };
        self.cuda_array = 0;
        self.mipmap = 0;
        self.ext_mem = 0;
        plan
    }
}

/// A format is described to CUDA by elements of the size of its pixels.
pub proof fn law_formats_agree_on_size(format: TextureFormat)
    requires
        cuda_format(format) is Some,
    ensures
        ({
            let f = cuda_format(format)->0;
            let element = if f.format == CU_AD_FORMAT_UNSIGNED_INT8 {
                1int
            } else if f.format == CU_AD_FORMAT_UNSIGNED_INT32 {
                4
            } else {
                2
            };
            &&& f.bytes_per_px == element * f.num_channels
            &&& format.dxgi() != 0
            &&& 1 <= f.num_channels <= 4
        }),
{
}

/// Releasing a texture gives back everything it holds, its mapping, its import and its handle,
/// and a second time there is nothing left to give back.
pub proof fn law_textures_are_released_once(texture: SharedTexture)
    ensures
        texture.plan().mapping == texture.external.mipmap,
        texture.plan().ext_mem == texture.external.ext_mem,
        texture.plan().handle == texture.shared_handle,
        texture.released().plan() == (ReleasePlan { mapping: 0, ext_mem: 0, handle: 0 }),
        texture.released().external.cuda_array == 0,
        texture.released().external.width == texture.external.width,
        texture.released().external.height == texture.external.height,
{
}

/// The formats that are shared are described to Direct3D and to CUDA as the same thing: DXGI's
/// own number on one side, and on the other the channels, each of one byte but for the one
/// integer of four and the four halves.
pub proof fn law_formats_are_described_to_both(format: TextureFormat)
    ensures
        cuda_format(format) is None <==> format is Other,
        format.dxgi() == 42 <==> format is R32Uint,
        format.dxgi() == 61 <==> format is R8Unorm,
        format.dxgi() == 49 <==> format is Rg8Unorm,
        format.dxgi() == 28 <==> format is Rgba8Unorm,
        format.dxgi() == 10 <==> format is Rgba16Float,
        format.dxgi() == 0 <==> format is Other,
        cuda_format(format) matches Some(f) ==> {
            &&& f.num_channels == 1 <==> format is R32Uint || format is R8Unorm
            &&& f.num_channels == 2 <==> format is Rg8Unorm
            &&& f.num_channels == 4 <==> format is Rgba8Unorm || format is Rgba16Float
            &&& f.format == 3 <==> format is R32Uint
            &&& f.format == 0x10 <==> format is Rgba16Float
            &&& f.format == 1 <==> format is R8Unorm || format is Rg8Unorm || format
                is Rgba8Unorm
        },
{
}

} // verus!
