//! One allocation for both APIs: a shared D3D12 resource that CUDA imports and maps.
use crate::interop::capability::InteropTransport;
use crate::interop::cuda_context::{CudaError, CUDA_SUCCESS};
use crate::interop::external_texture::{CudaArrayFormat, TextureFormat};
use crate::text::{
    decimal, decimal_str, hex_lower, hex_lower_str, hex_padded, hex_padded_str,
};
use vstd::prelude::*;
use vstd::string::*;

verus! {

/// A handle of a D3D12 resource.
pub const CU_EXTERNAL_MEMORY_HANDLE_TYPE_D3D12_RESOURCE: u32 = 5;

/// The allocation belongs to one resource.
pub const CUDA_EXTERNAL_MEMORY_DEDICATED: u32 = 1;

/// The array can be read and written as a surface.
pub const CUDA_ARRAY3D_SURFACE_LDST: u32 = 2;

pub const D3D12_RESOURCE_DIMENSION_BUFFER: u32 = 1;

pub const D3D12_RESOURCE_DIMENSION_TEXTURE2D: u32 = 3;

/// The driver chooses the layout.
pub const D3D12_TEXTURE_LAYOUT_UNKNOWN: u32 = 0;

pub const D3D12_TEXTURE_LAYOUT_ROW_MAJOR: u32 = 1;

pub const D3D12_RESOURCE_FLAG_ALLOW_RENDER_TARGET: u32 = 1;

pub const D3D12_RESOURCE_FLAG_ALLOW_UNORDERED_ACCESS: u32 = 4;

/// The part of a D3D12 resource description that differs from one resource to another.
#[derive(Debug, Clone, Copy, PartialEq, Eq, Structural)]
pub struct ResourceDesc {
    pub dimension: u32,
    pub width: u64,
    pub height: u32,
    pub format: u32,
    pub layout: u32,
    pub flags: u32,
}

/// What CUDA is told of the memory it imports.
#[derive(Debug, Clone, Copy, PartialEq, Eq, Structural)]
pub struct ImportDesc {
    pub handle_type: u32,
    pub handle: u64,
    pub size: u64,
    pub flags: u32,
}

/// How imported memory is mapped as a device pointer.  The driver wants its reserved words
/// to be zero.
#[derive(Debug, Clone, Copy, PartialEq, Eq, Structural)]
pub struct CudaExternalMemoryBufferDesc {
    pub offset: u64,
    /// Bytes to map, at most what was imported.
    pub size: u64,
    pub flags: u32,
}

/// A CUDA array of two dimensions, for which the depth is zero.
#[derive(Debug, Clone, Copy, PartialEq, Eq, Structural)]
pub struct CudaArray3DDescriptor {
    pub width: usize,
    pub height: usize,
    pub depth: usize,
    pub format: u32,
    pub num_channels: u32,
    pub flags: u32,
}

/// How imported memory is mapped as an array.  The driver wants its reserved words to be
/// zero.
#[derive(Debug, Clone, Copy, PartialEq, Eq, Structural)]
pub struct CudaExternalMemoryMipmappedArrayDesc {
    pub offset: u64,
    pub array_desc: CudaArray3DDescriptor,
    pub num_levels: u32,
}

/// What is to be shared.
#[derive(Debug, Clone, Copy, PartialEq, Eq, Structural)]
pub enum SharedRequest {
    /// `storage` is set for a buffer that shaders write.
    Buffer { size: u64, storage: bool },
    Texture {
        width: u32,
        height: u32,
        format: TextureFormat,
        array_fmt: CudaArrayFormat,
        render_attachment: bool,
        storage: bool,
    },
}

/// What sharing has to do next.
#[derive(Debug, Clone, Copy, PartialEq, Eq, Structural)]
pub enum SharedCall {
    /// Ask the D3D12 device behind wgpu for the size of such an allocation.
    QueryAllocation { desc: ResourceDesc },
    /// Create it on a heap that can be shared.
    CreateCommitted { desc: ResourceDesc },
    CreateHandle,
    /// Hand the resource to wgpu, and its handle to CUDA.
    Import { desc: ImportDesc },
    MapBuffer { desc: CudaExternalMemoryBufferDesc },
    /// Map it as an array of one level, and take that level.
    MapArray { desc: CudaExternalMemoryMipmappedArrayDesc },
    Ready { handle: u64, ext_mem: u64, mapped: u64 },
    /// Destroy the import, then close the handle, where they are not zero, and give up.
    Failed { ext_mem: u64, handle: u64 },
}

/// What the device behind wgpu answered.
#[derive(Debug, Clone, Copy, PartialEq, Eq, Structural)]
pub enum AllocationReply {
    /// wgpu has no such escape hatch in this build.
    NoEscape,
    /// The device is not a D3D12 device.
    NotD3D12,
    Size { bytes: u64 },
}

/// What came of it.
#[derive(Debug, Clone, Copy, PartialEq, Eq, Structural)]
pub enum SharedReply {
    Allocation { reply: AllocationReply },
    Committed { hresult: i32 },
    Handle { hresult: i32, handle: u64 },
    Imported { status: i32, ext_mem: u64 },
    Mapped { status: i32, mapped: u64 },
}

/// Why sharing failed.
#[derive(Debug, Clone, Copy, PartialEq, Eq, Structural)]
pub enum SharedFault {
    NoEscape,
    NotD3D12,
    Rejected { bytes: u64 },
    Commit { hresult: i32 },
    Handle { hresult: i32 },
    /// More is to be mapped than is there.
    TooSmall { map: u64, alloc: u64 },
    /// CUDA did not import the memory.
    Import { alloc: u64 },
    /// CUDA did not map it.
    Mapping { alloc: u64 },
}

#[derive(Debug, Clone, Copy, PartialEq, Eq, Structural)]
pub enum SharedStage {
    Querying,
    Committing { alloc: u64 },
    Exporting { alloc: u64 },
    Importing { alloc: u64, handle: u64 },
    Mapping { alloc: u64, handle: u64, ext_mem: u64 },
    Ready { handle: u64, ext_mem: u64, mapped: u64 },
    Over,
}

/// An allocation on its way to both APIs.
#[derive(Debug, Clone, Copy, PartialEq, Eq, Structural)]
pub struct SharedAllocation {
    pub request: SharedRequest,
    pub stage: SharedStage,
}

/// The flags of a resource: those that wgpu would set for the same usages.
pub open spec fn flags_for(render_attachment: bool, storage: bool) -> u32 {
    if render_attachment && storage {
        5
    } else if render_attachment {
        1
    } else if storage {
        4
    } else {
        0
    }
}

/// The flags of a resource that is rendered to, or written by shaders, or both.
pub fn resource_flags(render_attachment: bool, storage: bool) -> (r: u32)
    ensures
        r == flags_for(render_attachment, storage),
{
    let mut flags: u32 = 0;
    if render_attachment {
        flags += D3D12_RESOURCE_FLAG_ALLOW_RENDER_TARGET;
    }
    if storage {
        flags += D3D12_RESOURCE_FLAG_ALLOW_UNORDERED_ACCESS;
    }
    flags
}

/// Why the transport shares nothing, if it does not.
pub open spec fn transport_defect(transport: InteropTransport, windows: bool) -> Option<Seq<char>> {
    match transport {
        InteropTransport::D3D12Win32Handle => if windows {
            None
        } else {
            Some("D3D12Win32Handle transport is Windows-only"@)
        },
        InteropTransport::VulkanOpaqueFd => Some(
            "Vulkan external-memory export is not implemented: GpuDevice does not enable VK_KHR_external_memory_fd, so no exportable VkDeviceMemory exists"@,
        ),
        InteropTransport::Unavailable => Some("No interop transport available"@),
    }
}

fn check_transport(transport: InteropTransport, windows: bool) -> (r: Result<(), CudaError>)
    ensures
        match r {
            Ok(_) => transport_defect(transport, windows) is None,
            Err(e) => e matches CudaError::Import(text) && transport_defect(transport, windows)
                == Some(text@),
        },
{
    match transport {
        InteropTransport::D3D12Win32Handle => {
            if windows {
                Ok(())
            } else {
                Err(CudaError::Import(String::from_str("D3D12Win32Handle transport is Windows-only")))
            }
        },
        InteropTransport::VulkanOpaqueFd => Err(
            CudaError::Import(
                String::from_str(
                    "Vulkan external-memory export is not implemented: GpuDevice does not enable VK_KHR_external_memory_fd, so no exportable VkDeviceMemory exists",
                ),
            ),
        ),
        InteropTransport::Unavailable => Err(
            CudaError::Import(String::from_str("No interop transport available")),
        ),
    }
}

impl SharedRequest {
    /// The D3D12 description of what is asked for.
    pub open spec fn desc(self) -> ResourceDesc {
        match self {
            SharedRequest::Buffer { size, storage } => ResourceDesc {
                dimension: D3D12_RESOURCE_DIMENSION_BUFFER,
                width: size,
                height: 1,
                format: 0,
                layout: D3D12_TEXTURE_LAYOUT_ROW_MAJOR,
                flags: flags_for(false, storage),
            },
            SharedRequest::Texture { width, height, format, render_attachment, storage, .. } =>
                ResourceDesc {
                    dimension: D3D12_RESOURCE_DIMENSION_TEXTURE2D,
                    width: width as u64,
                    height,
                    format: format.dxgi(),
                    layout: D3D12_TEXTURE_LAYOUT_UNKNOWN,
                    flags: flags_for(render_attachment, storage),
                },
        }
    }

    fn resource_desc(&self) -> (r: ResourceDesc)
        ensures
            r == self.desc(),
    {
        match self {
            SharedRequest::Buffer { size, storage } => ResourceDesc {
                dimension: D3D12_RESOURCE_DIMENSION_BUFFER,
                width: *size,
                height: 1,
                format: 0,
                layout: D3D12_TEXTURE_LAYOUT_ROW_MAJOR,
                flags: resource_flags(false, *storage),
            },
            SharedRequest::Texture { width, height, format, render_attachment, storage, .. } => {
                ResourceDesc {
                    dimension: D3D12_RESOURCE_DIMENSION_TEXTURE2D,
                    width: *width as u64,
                    height: *height,
                    format: format.dxgi_format(),
                    layout: D3D12_TEXTURE_LAYOUT_UNKNOWN,
                    flags: resource_flags(*render_attachment, *storage),
                }
            },
        }
    }
}

/// What CUDA is told of an allocation of `alloc` bytes, the padded size.
pub open spec fn import_of(handle: u64, alloc: u64) -> ImportDesc {
    ImportDesc {
        handle_type: CU_EXTERNAL_MEMORY_HANDLE_TYPE_D3D12_RESOURCE,
        handle,
        size: alloc,
        flags: CUDA_EXTERNAL_MEMORY_DEDICATED,
    }
}

/// How a buffer of `size` bytes, the logical size, is mapped.
pub open spec fn buffer_map(size: u64) -> CudaExternalMemoryBufferDesc {
    CudaExternalMemoryBufferDesc { offset: 0, size, flags: 0 }
}

/// How a texture is mapped.
pub open spec fn array_map(
    width: u32,
    height: u32,
    array_fmt: CudaArrayFormat,
) -> CudaExternalMemoryMipmappedArrayDesc {
    CudaExternalMemoryMipmappedArrayDesc {
        offset: 0,
        array_desc: CudaArray3DDescriptor {
            width: width as usize,
            height: height as usize,
            depth: 0,
            format: array_fmt.format,
            num_channels: array_fmt.num_channels,
            flags: CUDA_ARRAY3D_SURFACE_LDST,
        },
        num_levels: 1,
    }
}

impl SharedAllocation {
    pub open spec fn answers(self, reply: SharedReply) -> bool {
        match reply {
            SharedReply::Allocation { .. } => self.stage is Querying,
            SharedReply::Committed { .. } => self.stage is Committing,
            SharedReply::Handle { .. } => self.stage is Exporting,
            SharedReply::Imported { .. } => self.stage is Importing,
            SharedReply::Mapped { .. } => self.stage is Mapping,
        }
    }

    pub open spec fn at(self, stage: SharedStage) -> SharedAllocation {
        SharedAllocation { stage, ..self }
    }

    pub open spec fn fail(self, ext_mem: u64, handle: u64) -> (SharedAllocation, SharedCall) {
        (self.at(SharedStage::Over), SharedCall::Failed { ext_mem, handle })
    }

    /// More is to be mapped than `alloc` bytes.
    pub open spec fn too_small(self, alloc: u64) -> bool {
        self.request matches SharedRequest::Buffer { size, .. } && size > alloc
    }

    /// What follows `reply`.
    pub open spec fn after(self, reply: SharedReply) -> (SharedAllocation, SharedCall) {
        match (self.stage, reply) {
            (SharedStage::Querying, SharedReply::Allocation { reply }) => match reply {
                AllocationReply::Size { bytes } => if bytes == 0 || bytes == u64::MAX {
                    self.fail(0, 0)
                } else {
                    (
                        self.at(SharedStage::Committing { alloc: bytes }),
                        SharedCall::CreateCommitted { desc: self.request.desc() },
                    )
                },
                _ => self.fail(0, 0),
            },
            (SharedStage::Committing { alloc }, SharedReply::Committed { hresult }) => if hresult
                < 0 {
                self.fail(0, 0)
            } else {
                (self.at(SharedStage::Exporting { alloc }), SharedCall::CreateHandle)
            },
            (SharedStage::Exporting { alloc }, SharedReply::Handle { hresult, handle }) => if hresult
                < 0 || handle == 0 {
                self.fail(0, 0)
            } else if self.too_small(alloc) {
                self.fail(0, handle)
            } else {
                (
                    self.at(SharedStage::Importing { alloc, handle }),
                    SharedCall::Import { desc: import_of(handle, alloc) },
                )
            },
            (
                SharedStage::Importing { alloc, handle },
                SharedReply::Imported { status, ext_mem },
            ) => if status != CUDA_SUCCESS {
                self.fail(0, handle)
            } else {
                (
                    self.at(SharedStage::Mapping { alloc, handle, ext_mem }),
                    match self.request {
                        SharedRequest::Buffer { size, .. } => SharedCall::MapBuffer {
                            desc: buffer_map(size),
                        },
                        SharedRequest::Texture { width, height, array_fmt, .. } =>
                            SharedCall::MapArray { desc: array_map(width, height, array_fmt) },
                    },
                )
            },
            (
                SharedStage::Mapping { handle, ext_mem, .. },
                SharedReply::Mapped { status, mapped },
            ) => if status != CUDA_SUCCESS {
                self.fail(ext_mem, handle)
            } else {
                (
                    self.at(SharedStage::Ready { handle, ext_mem, mapped }),
                    SharedCall::Ready { handle, ext_mem, mapped },
                )
            },
            _ => self.fail(0, 0),
        }
    }

    /// Why `reply` is a failure, if it is.
    pub open spec fn fault(self, reply: SharedReply) -> Option<SharedFault> {
        match (self.stage, reply) {
            (_, SharedReply::Allocation { reply }) => match reply {
                AllocationReply::NoEscape => Some(SharedFault::NoEscape),
                AllocationReply::NotD3D12 => Some(SharedFault::NotD3D12),
                AllocationReply::Size { bytes } => if bytes == 0 || bytes == u64::MAX {
                    Some(SharedFault::Rejected { bytes })
                } else {
                    None
                },
            },
            (_, SharedReply::Committed { hresult }) => if hresult < 0 {
                Some(SharedFault::Commit { hresult })
            } else {
                None
            },
            (SharedStage::Exporting { alloc }, SharedReply::Handle { hresult, handle }) => if hresult
                < 0 || handle == 0 {
                Some(SharedFault::Handle { hresult })
            } else {
                match self.request {
                    SharedRequest::Buffer { size, .. } => if size > alloc {
                        Some(SharedFault::TooSmall { map: size, alloc })
                    } else {
                        None
                    },
                    _ => None,
                }
            },
            (SharedStage::Importing { alloc, .. }, SharedReply::Imported { status, .. }) =>
                if status != CUDA_SUCCESS {
                    Some(SharedFault::Import { alloc })
                } else {
                    None
                },
            (SharedStage::Mapping { alloc, .. }, SharedReply::Mapped { status, .. }) => if status
                != CUDA_SUCCESS {
                Some(SharedFault::Mapping { alloc })
            } else {
                None
            },
            _ => None,
        }
    }

    fn give_up(&mut self, ext_mem: u64, handle: u64, fault: SharedFault) -> (r: (
        SharedCall,
        Option<SharedFault>,
    ))
        ensures
            (*final(self), r.0) == old(self).fail(ext_mem, handle),
            r.1 == Some(fault),
    {
        self.stage = SharedStage::Over;
        (SharedCall::Failed { ext_mem, handle }, Some(fault))
    }

    /// Start sharing; the request is one that the transport serves.
    pub(crate) fn start(request: SharedRequest, transport: InteropTransport, windows: bool) -> (r: Result<
        (SharedAllocation, SharedCall),
        CudaError,
    >)
        ensures
            match r {
                Ok(begun) => {
                    &&& transport_defect(transport, windows) is None
                    &&& begun.0 == (SharedAllocation { request, stage: SharedStage::Querying })
                    &&& begun.1 == (SharedCall::QueryAllocation { desc: request.desc() })
                },
                Err(e) => e matches CudaError::Import(text) && transport_defect(transport, windows)
                    == Some(text@),
            },
    {
        match check_transport(transport, windows) {
            Err(e) => Err(e),
            Ok(_) => {
                let desc = request.resource_desc();
                Ok(
                    (
                        SharedAllocation { request, stage: SharedStage::Querying },
                        SharedCall::QueryAllocation { desc },
                    ),
                )
            },
        }
    }

    /// Take what came of the last call and say what to do next; with a failure comes its
    /// reason.
    pub fn resume(&mut self, reply: SharedReply) -> (r: (SharedCall, Option<SharedFault>))
        requires
            old(self).answers(reply),
        ensures
            (*final(self), r.0) == old(self).after(reply),
            r.1 == old(self).fault(reply),
            r.1 is Some <==> r.0 is Failed,
    {
        match (self.stage, reply) {
            (SharedStage::Querying, SharedReply::Allocation { reply }) => {
                match reply {
                    AllocationReply::NoEscape => self.give_up(0, 0, SharedFault::NoEscape),
                    AllocationReply::NotD3D12 => self.give_up(0, 0, SharedFault::NotD3D12),
                    AllocationReply::Size { bytes } => {
                        if bytes == 0 || bytes == u64::MAX {
                            return self.give_up(0, 0, SharedFault::Rejected { bytes });
                        }
                        self.stage = SharedStage::Committing { alloc: bytes };
                        let desc = self.request.resource_desc();
                        (SharedCall::CreateCommitted { desc }, None)
                    },
                }
            },
            (SharedStage::Committing { alloc }, SharedReply::Committed { hresult }) => {
                if hresult < 0 {
                    return self.give_up(0, 0, SharedFault::Commit { hresult });
                }
                self.stage = SharedStage::Exporting { alloc };
                (SharedCall::CreateHandle, None)
            },
            (SharedStage::Exporting { alloc }, SharedReply::Handle { hresult, handle }) => {
                if hresult < 0 || handle == 0 {
                    return self.give_up(0, 0, SharedFault::Handle { hresult });
                }
                if let SharedRequest::Buffer { size, .. } = self.request {
                    if size > alloc {
                        return self.give_up(
                            0,
                            handle,
                            SharedFault::TooSmall { map: size, alloc },
                        );
                    }
                }
                self.stage = SharedStage::Importing { alloc, handle };
                (
                    SharedCall::Import {
                        desc: ImportDesc {
                            handle_type: CU_EXTERNAL_MEMORY_HANDLE_TYPE_D3D12_RESOURCE,
                            handle,
                            size: alloc,
                            flags: CUDA_EXTERNAL_MEMORY_DEDICATED,
                        },
                    },
                    None,
                )
            },
            (
                SharedStage::Importing { alloc, handle },
                SharedReply::Imported { status, ext_mem },
            ) => {
                if status != CUDA_SUCCESS {
                    return self.give_up(0, handle, SharedFault::Import { alloc });
                }
                self.stage = SharedStage::Mapping { alloc, handle, ext_mem };
                let call = match self.request {
                    SharedRequest::Buffer { size, .. } => SharedCall::MapBuffer {
                        desc: CudaExternalMemoryBufferDesc { offset: 0, size, flags: 0 },
                    },
                    SharedRequest::Texture { width, height, array_fmt, .. } => {
                        SharedCall::MapArray {
                            desc: CudaExternalMemoryMipmappedArrayDesc {
                                offset: 0,
                                array_desc: CudaArray3DDescriptor {
                                    width: width as usize,
                                    height: height as usize,
                                    depth: 0,
                                    format: array_fmt.format,
                                    num_channels: array_fmt.num_channels,
                                    flags: CUDA_ARRAY3D_SURFACE_LDST,
                                },
                                num_levels: 1,
                            },
                        }
                    },
                };
                (call, None)
            },
            (
                SharedStage::Mapping { alloc, handle, ext_mem },
                SharedReply::Mapped { status, mapped },
            ) => {
                if status != CUDA_SUCCESS {
                    return self.give_up(ext_mem, handle, SharedFault::Mapping { alloc });
                }
                self.stage = SharedStage::Ready { handle, ext_mem, mapped };
                (SharedCall::Ready { handle, ext_mem, mapped }, None)
            },
            _ => {
                self.stage = SharedStage::Over;
                (SharedCall::Failed { ext_mem: 0, handle: 0 }, None)
            },
        }
    }
}

/// `HRESULT 0x` and eight digits.
pub open spec fn hresult_text(hresult: i32) -> Seq<char> {
    "HRESULT 0x"@ + hex_padded(hresult as u32 as int, 8)
}

fn append_hresult(text: &mut String, hresult: i32)
    ensures
        final(text)@ == old(text)@ + hresult_text(hresult),
{
    text.append("HRESULT 0x");
    text.append(hex_padded_str(hresult as u32, 8).as_str());
    assert(text@ =~= old(text)@ + hresult_text(hresult));
}

fn append_number(text: &mut String, n: u64)
    ensures
        final(text)@ == old(text)@ + decimal(n as int),
{
    text.append(decimal_str(n).as_str());
}

/// What a texture of that extent and format is called.
pub open spec fn texture_text(width: u32, height: u32, format: TextureFormat) -> Seq<char> {
    decimal(width as int) + "x"@ + decimal(height as int) + " "@ + format.name()
}

fn append_texture(text: &mut String, width: u32, height: u32, format: TextureFormat)
    ensures
        final(text)@ == old(text)@ + texture_text(width, height, format),
{
    append_number(text, width as u64);
    text.append("x");
    append_number(text, height as u64);
    text.append(" ");
    text.append(format.as_str());
    assert(text@ =~= old(text)@ + texture_text(width, height, format));
}

/// The reason in words; `driver` is the driver's rendering of a status.
pub open spec fn fault_text(request: SharedRequest, fault: SharedFault, driver: Seq<char>) -> Seq<char> {
    match (fault, request) {
        (SharedFault::NoEscape, _) =>
            "wgpu::Device::as_hal returned None \u{2014} this build is not using the wgpu-core backend, so the D3D12 escape hatch is unavailable"@,
        (SharedFault::NotD3D12, SharedRequest::Buffer { .. }) =>
            "the wgpu device is not a D3D12 device, so no shared buffer can be created"@,
        (SharedFault::NotD3D12, SharedRequest::Texture { .. }) =>
            "the wgpu device is not a D3D12 device, so no shared resource can be created"@,
        (SharedFault::Rejected { bytes }, SharedRequest::Buffer { size, .. }) =>
            "GetResourceAllocationInfo rejected a "@ + decimal(size as int)
                + "-byte buffer (SizeInBytes="@ + decimal(bytes as int) + ")"@,
        (SharedFault::Rejected { bytes }, SharedRequest::Texture { width, height, format, .. }) =>
            "GetResourceAllocationInfo rejected a "@ + texture_text(width, height, format)
                + " resource (SizeInBytes="@ + decimal(bytes as int) + ")"@,
        (SharedFault::Commit { hresult }, SharedRequest::Buffer { size, .. }) =>
            "CreateCommittedResource(HEAP_FLAG_SHARED, BUFFER "@ + decimal(size as int)
                + " bytes) failed: "@ + hresult_text(hresult),
        (SharedFault::Commit { hresult }, SharedRequest::Texture { width, height, format, .. }) =>
            "CreateCommittedResource(HEAP_FLAG_SHARED) for a "@ + texture_text(
                width,
                height,
                format,
            ) + " texture failed: "@ + hresult_text(hresult),
        (SharedFault::Handle { hresult }, _) => "CreateSharedHandle failed: "@ + hresult_text(
            hresult,
        ),
        (SharedFault::TooSmall { map, alloc }, _) => "cannot map "@ + decimal(map as int)
            + " bytes of a "@ + decimal(alloc as int) + "-byte allocation"@,
        (SharedFault::Import { alloc }, SharedRequest::Buffer { .. }) =>
            "cuImportExternalMemory failed for a "@ + decimal(alloc as int) + "-byte buffer: "@
                + driver,
        (SharedFault::Import { .. }, SharedRequest::Texture { .. }) =>
            "cuImportExternalMemory failed: "@ + driver,
        (SharedFault::Mapping { alloc }, SharedRequest::Buffer { size, .. }) => "mapping "@ + decimal(
            size as int,
        ) + " bytes of a "@ + decimal(alloc as int)
            + "-byte imported allocation as a CUdeviceptr failed: "@ + driver,
        (SharedFault::Mapping { .. }, SharedRequest::Texture { width, height, array_fmt, .. }) =>
            "mapping the imported memory as a "@ + decimal(width as int) + "x"@ + decimal(
                height as int,
            ) + " CUDA array (format=0x"@ + hex_lower(array_fmt.format as int) + ", "@ + decimal(
                array_fmt.num_channels as int,
            ) + " channel(s)) failed: "@ + driver,
    }
}

/// The error a failure is reported as.
pub fn shared_error(request: &SharedRequest, fault: SharedFault, driver: &str) -> (r: CudaError)
    ensures
        match r {
            CudaError::MapArray(text) => {
                &&& fault is Mapping
                &&& request is Texture
                &&& text@ == fault_text(*request, fault, driver@)
            },
            CudaError::MapBuffer(text) => {
                &&& fault is Mapping
                &&& request is Buffer
                &&& text@ == fault_text(*request, fault, driver@)
            },
            CudaError::Import(text) => {
                &&& !(fault is Mapping)
                &&& text@ == fault_text(*request, fault, driver@)
            },
            _ => false,
        },
{
    let mut text = String::from_str("");
    proof {
        reveal_strlit("");
        assert(text@ =~= Seq::empty());
    }
    match fault {
        SharedFault::NoEscape => {
            text.append(
                "wgpu::Device::as_hal returned None \u{2014} this build is not using the wgpu-core backend, so the D3D12 escape hatch is unavailable",
            );
        },
        SharedFault::NotD3D12 => {
            match request {
                SharedRequest::Buffer { .. } => text.append(
                    "the wgpu device is not a D3D12 device, so no shared buffer can be created",
                ),
                SharedRequest::Texture { .. } => text.append(
                    "the wgpu device is not a D3D12 device, so no shared resource can be created",
                ),
            }
        },
        SharedFault::Rejected { bytes } => {
            text.append("GetResourceAllocationInfo rejected a ");
            match request {
                SharedRequest::Buffer { size, .. } => {
                    append_number(&mut text, *size);
                    text.append("-byte buffer (SizeInBytes=");
                },
                SharedRequest::Texture { width, height, format, .. } => {
                    append_texture(&mut text, *width, *height, *format);
                    text.append(" resource (SizeInBytes=");
                },
            }
            append_number(&mut text, bytes);
            text.append(")");
        },
        SharedFault::Commit { hresult } => {
            match request {
                SharedRequest::Buffer { size, .. } => {
                    text.append("CreateCommittedResource(HEAP_FLAG_SHARED, BUFFER ");
                    append_number(&mut text, *size);
                    text.append(" bytes) failed: ");
                },
                SharedRequest::Texture { width, height, format, .. } => {
                    text.append("CreateCommittedResource(HEAP_FLAG_SHARED) for a ");
                    append_texture(&mut text, *width, *height, *format);
                    text.append(" texture failed: ");
                },
            }
            append_hresult(&mut text, hresult);
        },
        SharedFault::Handle { hresult } => {
            text.append("CreateSharedHandle failed: ");
            append_hresult(&mut text, hresult);
        },
        SharedFault::TooSmall { map, alloc } => {
            text.append("cannot map ");
            append_number(&mut text, map);
            text.append(" bytes of a ");
            append_number(&mut text, alloc);
            text.append("-byte allocation");
        },
        SharedFault::Import { alloc } => {
            match request {
                SharedRequest::Buffer { .. } => {
                    text.append("cuImportExternalMemory failed for a ");
                    append_number(&mut text, alloc);
                    text.append("-byte buffer: ");
                },
                SharedRequest::Texture { .. } => text.append("cuImportExternalMemory failed: "),
            }
            text.append(driver);
        },
        SharedFault::Mapping { alloc } => {
            match request {
                SharedRequest::Buffer { size, .. } => {
                    text.append("mapping ");
                    append_number(&mut text, *size);
                    text.append(" bytes of a ");
                    append_number(&mut text, alloc);
                    text.append("-byte imported allocation as a CUdeviceptr failed: ");
                },
                SharedRequest::Texture { width, height, array_fmt, .. } => {
                    text.append("mapping the imported memory as a ");
                    append_number(&mut text, *width as u64);
                    text.append("x");
                    append_number(&mut text, *height as u64);
                    text.append(" CUDA array (format=0x");
                    text.append(hex_lower_str(array_fmt.format).as_str());
                    text.append(", ");
                    append_number(&mut text, array_fmt.num_channels as u64);
                    text.append(" channel(s)) failed: ");
                },
            }
            text.append(driver);
        },
    }
    assert(text@ =~= fault_text(*request, fault, driver@));
    match (fault, request) {
        (SharedFault::Mapping { .. }, SharedRequest::Buffer { .. }) => CudaError::MapBuffer(text),
        (SharedFault::Mapping { .. }, SharedRequest::Texture { .. }) => CudaError::MapArray(text),
        _ => CudaError::Import(text),
    }
}

/// A failure is cleaned up after: the handle is closed and the import destroyed exactly
/// where they exist.
pub proof fn law_failed_sharing_releases_handle_and_import(s: SharedAllocation, reply: SharedReply)
    requires
        s.answers(reply),
        s.after(reply).1 is Failed,
    ensures
        s.fault(reply) is Some,
        s.after(reply).0.stage is Over,
        match s.stage {
            SharedStage::Importing { handle, .. } => s.after(reply).1 == (SharedCall::Failed {
                ext_mem: 0,
                handle,
            }),
            SharedStage::Mapping { handle, ext_mem, .. } => s.after(reply).1 == (SharedCall::Failed {
                ext_mem,
                handle,
            }),
            SharedStage::Exporting { alloc } => s.after(reply).1 == (SharedCall::Failed {
                ext_mem: 0,
                handle: match reply {
                    SharedReply::Handle { hresult, handle } => if hresult >= 0 {
                        handle
                    } else {
                        0
                    },
                    _ => 0,
                },
            }),
            _ => s.after(reply).1 == (SharedCall::Failed { ext_mem: 0, handle: 0 }),
        },
{
}

/// CUDA imports the whole allocation and maps no more of it than was asked for, which lies
/// within it.
pub proof fn law_mappings_lie_within_the_import(s: SharedAllocation, alloc: u64, handle: u64, hresult: i32)
    requires
        s.stage == (SharedStage::Exporting { alloc }),
        s.after(SharedReply::Handle { hresult, handle }).1 is Import,
    ensures
        s.after(SharedReply::Handle { hresult, handle }).1 == (SharedCall::Import {
            desc: import_of(handle, alloc),
        }),
        s.request matches SharedRequest::Buffer { size, .. } ==> buffer_map(size).offset
            + buffer_map(size).size <= import_of(handle, alloc).size,
{
}

/// A resource is described as what is asked for: a buffer as one row of its bytes, a texture by
/// its extent and format in a layout of the driver's; the flags allow what it is used for and
/// nothing else.
pub proof fn law_resources_are_described_as_asked(request: SharedRequest)
    ensures
        request matches SharedRequest::Buffer { size, storage } ==> {
            let desc = request.desc();
            &&& desc.dimension == 1
            &&& desc.width == size && desc.height == 1
            &&& desc.format == 0
            &&& desc.layout == 1
            &&& desc.flags == 4 <==> storage
            &&& desc.flags == 0 <==> !storage
        },
        request matches SharedRequest::Texture {
            width,
            height,
            format,
            render_attachment,
            storage,
            ..
        } ==> {
            let desc = request.desc();
            &&& desc.dimension == 3
            &&& desc.width == width && desc.height == height
            &&& desc.format == format.dxgi()
            &&& desc.layout == 0
            &&& desc.flags == (if render_attachment { 1int } else { 0 }) + (if storage {
                4int
            } else {
                0
            })
        },
{
}

/// Only Direct3D on Windows shares memory; every other transport says why it does not.
pub proof fn law_only_direct3d_shares(transport: InteropTransport, windows: bool)
    ensures
        transport_defect(transport, windows) is None <==> transport is D3D12Win32Handle && windows,
        transport is D3D12Win32Handle && !windows ==> transport_defect(transport, windows) == Some(
            "D3D12Win32Handle transport is Windows-only"@,
        ),
        transport is Unavailable ==> transport_defect(transport, windows) == Some(
            "No interop transport available"@,
        ),
{
}

/// An allocation is shared step by step: its size is asked for, it is created as it was asked
/// for, its handle made, all of it imported into CUDA, and what was asked for mapped, as bytes
/// or as an array.  What is ready is what was made on the way.
pub proof fn law_memory_is_shared_in_order(s: SharedAllocation, reply: SharedReply)
    requires
        s.answers(reply),
    ensures
        ({
            let (after, call) = s.after(reply);
            &&& after.request == s.request
            &&& match (s.stage, reply) {
                (SharedStage::Querying, SharedReply::Allocation { reply }) => {
                    let good = reply is Size && reply->bytes != 0 && reply->bytes
                        != 0xFFFF_FFFF_FFFF_FFFF;
                    &&& call is Failed <==> !good
                    &&& good ==> {
                        &&& call == (SharedCall::CreateCommitted { desc: s.request.desc() })
                        &&& after.stage == (SharedStage::Committing { alloc: reply->bytes })
                    }
                },
                (SharedStage::Committing { alloc }, SharedReply::Committed { hresult }) => {
                    &&& call is Failed <==> hresult < 0
                    &&& hresult >= 0 ==> call is CreateHandle && after.stage == (
                    SharedStage::Exporting { alloc })
                },
                (SharedStage::Exporting { alloc }, SharedReply::Handle { hresult, handle }) => {
                    let fits = s.request matches SharedRequest::Buffer { size, .. } ==> size
                        <= alloc;
                    &&& call is Failed <==> hresult < 0 || handle == 0 || !fits
                    &&& !(call is Failed) ==> {
                        &&& call is Import
                        &&& call->Import_desc.handle == handle
                        &&& call->Import_desc.size == alloc
                        &&& call->Import_desc.handle_type == 5
                        &&& call->Import_desc.flags == 1
                        &&& after.stage == (SharedStage::Importing { alloc, handle })
                    }
                },
                (
                    SharedStage::Importing { alloc, handle },
                    SharedReply::Imported { status, ext_mem },
                ) => {
                    &&& call is Failed <==> status != 0
                    &&& status == 0 ==> {
                        &&& after.stage == (SharedStage::Mapping { alloc, handle, ext_mem })
                        &&& s.request matches SharedRequest::Buffer { size, .. } ==> {
                            &&& call is MapBuffer
                            &&& call->MapBuffer_desc.offset == 0
                            &&& call->MapBuffer_desc.size == size
                            &&& call->MapBuffer_desc.flags == 0
                        }
                        &&& s.request matches SharedRequest::Texture {
                            width,
                            height,
                            array_fmt,
                            ..
                        } ==> {
                            let array = call->MapArray_desc.array_desc;
                            &&& call is MapArray
                            &&& call->MapArray_desc.offset == 0
                            &&& call->MapArray_desc.num_levels == 1
                            &&& array.width == width && array.height == height
                            &&& array.depth == 0
                            &&& array.format == array_fmt.format
                            &&& array.num_channels == array_fmt.num_channels
                            &&& array.flags == 2
                        }
                    }
                },
                (
                    SharedStage::Mapping { handle, ext_mem, .. },
                    SharedReply::Mapped { status, mapped },
                ) => {
                    &&& call is Failed <==> status != 0
                    &&& status == 0 ==> {
                        &&& call == (SharedCall::Ready { handle, ext_mem, mapped })
                        &&& after.stage == (SharedStage::Ready { handle, ext_mem, mapped })
                    }
                },
                _ => true,
            }
        }),
{
}

/// A failure has its own reason, with the number that tells what happened.
pub proof fn law_sharing_fails_for_a_reason(s: SharedAllocation, reply: SharedReply)
    requires
        s.answers(reply),
        s.after(reply).1 is Failed,
    ensures
        ({
            let fault = s.fault(reply);
            match (s.stage, reply) {
                (SharedStage::Querying, SharedReply::Allocation { reply }) => match reply {
                    AllocationReply::NoEscape => fault == Some(SharedFault::NoEscape),
                    AllocationReply::NotD3D12 => fault == Some(SharedFault::NotD3D12),
                    AllocationReply::Size { bytes } => fault == Some(
                        SharedFault::Rejected { bytes },
                    ),
                },
                (_, SharedReply::Committed { hresult }) => fault == Some(
                    SharedFault::Commit { hresult },
                ),
                (SharedStage::Exporting { alloc }, SharedReply::Handle { hresult, handle }) => {
                    &&& hresult < 0 || handle == 0 ==> fault == Some(
                        SharedFault::Handle { hresult },
                    )
                    &&& hresult >= 0 && handle != 0 ==> s.request is Buffer && fault == Some(
                        SharedFault::TooSmall { map: s.request->size, alloc },
                    )
                },
                (SharedStage::Importing { alloc, .. }, _) => fault == Some(
                    SharedFault::Import { alloc },
                ),
                (SharedStage::Mapping { alloc, .. }, _) => fault == Some(
                    SharedFault::Mapping { alloc },
                ),
                _ => true,
            }
        }),
{
}

/// What went wrong with a shared buffer, in words: the sizes in bytes, and the code or the
/// words it was reported with.
pub proof fn law_buffer_faults_are_told(
    request: SharedRequest,
    driver: Seq<char>,
    bytes: u64,
    hresult: i32,
)
    requires
        request is Buffer,
    ensures
        ({
            let told = |fault: SharedFault| fault_text(request, fault, driver);
            let code = "HRESULT 0x"@ + hex_padded(hresult as u32 as int, 8);
            let size = decimal(request->size as int);
            &&& told(SharedFault::NotD3D12)
                == "the wgpu device is not a D3D12 device, so no shared buffer can be created"@
            &&& told(SharedFault::Rejected { bytes }) == "GetResourceAllocationInfo rejected a "@ + size
                + "-byte buffer (SizeInBytes="@ + decimal(bytes as int) + ")"@
            &&& told(SharedFault::Commit { hresult })
                == "CreateCommittedResource(HEAP_FLAG_SHARED, BUFFER "@ + size
                + " bytes) failed: "@ + code
            &&& told(SharedFault::Handle { hresult }) == "CreateSharedHandle failed: "@ + code
            &&& told(SharedFault::TooSmall { map: request->size, alloc: bytes }) == "cannot map "@
                + size + " bytes of a "@ + decimal(bytes as int) + "-byte allocation"@
            &&& told(SharedFault::Import { alloc: bytes }) == "cuImportExternalMemory failed for a "@
                + decimal(bytes as int) + "-byte buffer: "@ + driver
            &&& told(SharedFault::Mapping { alloc: bytes }) == "mapping "@ + size + " bytes of a "@
                + decimal(bytes as int) + "-byte imported allocation as a CUdeviceptr failed: "@
                + driver
        }),
{
}

/// What went wrong with a shared texture, in words: its extent and format, and the code or
/// the words it was reported with.
pub proof fn law_texture_faults_are_told(
    request: SharedRequest,
    driver: Seq<char>,
    bytes: u64,
    hresult: i32,
)
    requires
        request is Texture,
    ensures
        ({
            let told = |fault: SharedFault| fault_text(request, fault, driver);
            let code = "HRESULT 0x"@ + hex_padded(hresult as u32 as int, 8);
            let extent = decimal(request->width as int) + "x"@ + decimal(request->height as int);
            let texture = extent + " "@ + request->format.name();
            let array = request->array_fmt;
            &&& told(SharedFault::NoEscape)
                == "wgpu::Device::as_hal returned None \u{2014} this build is not using the wgpu-core backend, so the D3D12 escape hatch is unavailable"@
            &&& told(SharedFault::NotD3D12)
                == "the wgpu device is not a D3D12 device, so no shared resource can be created"@
            &&& told(SharedFault::Rejected { bytes }) == "GetResourceAllocationInfo rejected a "@
                + texture + " resource (SizeInBytes="@ + decimal(bytes as int) + ")"@
            &&& told(SharedFault::Commit { hresult })
                == "CreateCommittedResource(HEAP_FLAG_SHARED) for a "@ + texture
                + " texture failed: "@ + code
            &&& told(SharedFault::Handle { hresult }) == "CreateSharedHandle failed: "@ + code
            &&& told(SharedFault::Import { alloc: bytes }) == "cuImportExternalMemory failed: "@
                + driver
            &&& told(SharedFault::Mapping { alloc: bytes }) == "mapping the imported memory as a "@
                + decimal(request->width as int) + "x"@ + decimal(request->height as int)
                + " CUDA array (format=0x"@ + hex_lower(array.format as int) + ", "@ + decimal(
                array.num_channels as int,
            ) + " channel(s)) failed: "@ + driver
        }),
{
}

} // verus!
