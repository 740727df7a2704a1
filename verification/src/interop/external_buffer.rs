//! Buffers that CUDA can read and write.
use crate::interop::capability::InteropTransport;
use crate::interop::cuda_context::{CudaError, CUDA_SUCCESS};
use crate::interop::external_memory::{
    buffer_map, import_of, transport_defect, CudaExternalMemoryBufferDesc, ImportDesc,
    SharedAllocation, SharedCall, SharedRequest, SharedStage, CUDA_EXTERNAL_MEMORY_DEDICATED,
    CU_EXTERNAL_MEMORY_HANDLE_TYPE_D3D12_RESOURCE,
};
use crate::interop::external_texture::ReleasePlan;
use crate::text::{decimal, decimal_str};
use vstd::prelude::*;
use vstd::string::*;

verus! {

/// A buffer's memory as CUDA sees it.
#[derive(Debug, Clone, Copy, PartialEq, Eq, Structural)]
pub struct ExternalBuffer {
    pub device_ptr: u64,
    pub ext_mem: u64,
    /// Bytes mapped: the logical size, not the padded one.
    pub size: u64,
}

/// A buffer that both APIs address.
#[derive(Debug, Clone, Copy, PartialEq, Eq, Structural)]
pub struct SharedBuffer {
    pub external: ExternalBuffer,
    pub shared_handle: u64,
}

impl SharedAllocation {
    /// The buffer, once it is mapped.
    pub fn buffer(self) -> (r: SharedBuffer)
        requires
            self.request is Buffer,
            self.stage is Ready,
        ensures
            r == (SharedBuffer {
                external: ExternalBuffer {
                    device_ptr: self.stage->mapped,
                    ext_mem: self.stage->Ready_ext_mem,
                    size: self.request->size,
                },
                shared_handle: self.stage->Ready_handle,
            }),
    {
        let size: u64 = match self.request {
            SharedRequest::Buffer { size, .. } => size,
            SharedRequest::Texture { .. } => 0,
        };
        let (handle, ext_mem, device_ptr): (u64, u64, u64) = match self.stage {
            SharedStage::Ready { handle, ext_mem, mapped } => (handle, ext_mem, mapped),
            _ => (0, 0, 0),
        };
        SharedBuffer {
            external: ExternalBuffer { device_ptr, ext_mem, size },
            shared_handle: handle,
        }
    }
}

impl SharedBuffer {
    /// Start allocating a buffer of `size` bytes for both APIs.
    pub fn new(transport: InteropTransport, windows: bool, size: u64, storage: bool) -> (r: Result<
        (SharedAllocation, SharedCall),
        CudaError,
    >)
        ensures
            if size == 0 {
                r matches Err(CudaError::Import(text)) && text@
                    == "a zero-byte shared buffer was requested"@
            } else {
                match r {
                    Ok(begun) => {
                        let request = SharedRequest::Buffer { size, storage };
                        &&& transport_defect(transport, windows) is None
                        &&& begun.0 == (SharedAllocation { request, stage: SharedStage::Querying })
                        &&& begun.1 == (SharedCall::QueryAllocation { desc: request.desc() })
                    },
                    Err(e) => e matches CudaError::Import(text) && transport_defect(
                        transport,
                        windows,
                    ) == Some(text@),
                }
            },
    {
        if size == 0 {
            return Err(
                CudaError::Import(String::from_str("a zero-byte shared buffer was requested")),
            );
        }
        SharedAllocation::start(SharedRequest::Buffer { size, storage }, transport, windows)
    }

    /// What releasing the buffer does.
    pub open spec fn plan(self) -> ReleasePlan {
        ReleasePlan {
            mapping: self.external.device_ptr,
            ext_mem: self.external.ext_mem,
            handle: self.shared_handle,
        }
    }

    /// The buffer once it is released.
    pub open spec fn released(self) -> SharedBuffer {
        SharedBuffer {
            external: ExternalBuffer { device_ptr: 0, ext_mem: 0, ..self.external },
            shared_handle: 0,
        }
    }

    /// Release the buffer; releasing it again does nothing.
    pub fn release(&mut self) -> (r: ReleasePlan)
        ensures
            r == old(self).plan(),
            *final(self) == old(self).released(),
    {
        let external = self.external.release();
        let handle: u64 = self.shared_handle;
        self.shared_handle = 0;
        ReleasePlan { mapping: external.mapping, ext_mem: external.ext_mem, handle }
    }
}

/// Why a handle of an allocation of `alloc` bytes cannot be imported, if it cannot.
pub open spec fn handle_defect(handle: u64, alloc: u64) -> Option<Seq<char>> {
    if handle == 0 {
        Some("CreateSharedHandle produced a NULL handle"@)
    } else if alloc == 0 {
        Some("the shared resource reports a zero allocation size"@)
    } else {
        None
    }
}

/// Whether a handle of an allocation can be imported.
pub(crate) fn check_handle(handle: u64, alloc: u64) -> (r: Result<(), CudaError>)
    ensures
        match r {
            Ok(_) => handle_defect(handle, alloc) is None,
            Err(e) => e matches CudaError::Import(text) && handle_defect(handle, alloc) == Some(
                text@,
            ),
        },
{
    if handle == 0 {
        return Err(
            CudaError::Import(String::from_str("CreateSharedHandle produced a NULL handle")),
        );
    }
    if alloc == 0 {
        return Err(
            CudaError::Import(
                String::from_str("the shared resource reports a zero allocation size"),
            ),
        );
    }
    Ok(())
}

/// `r` is how a handle of `alloc` bytes is imported and `map` of them addressed, or why not.
pub open spec fn imported_by(
    handle: u64,
    alloc: u64,
    map: u64,
    r: Result<(ImportDesc, CudaExternalMemoryBufferDesc), CudaError>,
) -> bool {
    match handle_defect(handle, alloc) {
        Some(defect) => r matches Err(CudaError::Import(text)) && text@ == defect,
        None => if map > alloc {
            r matches Err(CudaError::Import(text)) && text@ == "cannot map "@ + decimal(
                map as int,
            ) + " bytes of a "@ + decimal(alloc as int) + "-byte allocation"@
        } else {
            r == Ok::<(ImportDesc, CudaExternalMemoryBufferDesc), CudaError>(
                (import_of(handle, alloc), buffer_map(map)),
            )
        },
    }
}

impl ExternalBuffer {
    /// How a handle from elsewhere is imported and mapped: `alloc_size` bytes of memory, of
    /// which `map_size` are addressed.
    pub fn import_win32_d3d12(handle: u64, alloc_size: u64, map_size: u64) -> (r: Result<
        (ImportDesc, CudaExternalMemoryBufferDesc),
        CudaError,
    >)
        ensures
            imported_by(handle, alloc_size, map_size, r),
    {
        match check_handle(handle, alloc_size) {
            Err(e) => return Err(e),
            Ok(_) => {},
        }
        if map_size > alloc_size {
            let mut text = String::from_str("cannot map ");
            text.append(decimal_str(map_size).as_str());
            text.append(" bytes of a ");
            text.append(decimal_str(alloc_size).as_str());
            text.append("-byte allocation");
            return Err(CudaError::Import(text));
        }
        Ok(
            (
                ImportDesc {
                    handle_type: CU_EXTERNAL_MEMORY_HANDLE_TYPE_D3D12_RESOURCE,
                    handle,
                    size: alloc_size,
                    flags: CUDA_EXTERNAL_MEMORY_DEDICATED,
                },
                CudaExternalMemoryBufferDesc { offset: 0, size: map_size, flags: 0 },
            ),
        )
    }

    /// The mapped device pointer.
    pub fn device_ptr(&self) -> (r: u64)
        ensures
            r == self.device_ptr,
    {
        self.device_ptr
    }

    /// What copying the whole mapping to the host came to; `driver` is the driver's
    /// rendering of the status.
    pub fn read_to_host(&self, status: i32, driver: &str) -> (r: Result<(), CudaError>)
        ensures
            match r {
                Ok(_) => status == CUDA_SUCCESS,
                Err(e) => {
                    &&& status != CUDA_SUCCESS
                    &&& e matches CudaError::MapBuffer(text)
                    &&& text@ == "reading "@ + decimal(self.size as int)
                        + " bytes back from the shared buffer failed: "@ + driver@
                },
            },
    {
        if status != CUDA_SUCCESS {
            let mut text = String::from_str("reading ");
            text.append(decimal_str(self.size).as_str());
            text.append(" bytes back from the shared buffer failed: ");
            text.append(driver);
            return Err(CudaError::MapBuffer(text));
        }
        Ok(())
    }

    /// Whether so many bytes can be copied in: they fill the mapping exactly.
    pub fn write_from_host(&self, len: usize) -> (r: Result<(), CudaError>)
        ensures
            match r {
                Ok(_) => len == self.size,
                Err(e) => {
                    &&& len != self.size
                    &&& e matches CudaError::MapBuffer(text)
                    &&& text@ == "write_from_host was given "@ + decimal(len as int)
                        + " bytes for a "@ + decimal(self.size as int) + "-byte mapping"@
                },
            },
    {
        if len as u64 != self.size {
            let mut text = String::from_str("write_from_host was given ");
            text.append(decimal_str(len as u64).as_str());
            text.append(" bytes for a ");
            text.append(decimal_str(self.size).as_str());
            text.append("-byte mapping");
            return Err(CudaError::MapBuffer(text));
        }
        Ok(())
    }

    /// What copying them in came to.
    pub fn written(&self, status: i32, driver: &str) -> (r: Result<(), CudaError>)
        ensures
            match r {
                Ok(_) => status == CUDA_SUCCESS,
                Err(e) => {
                    &&& status != CUDA_SUCCESS
                    &&& e matches CudaError::MapBuffer(text)
                    &&& text@ == "writing "@ + decimal(self.size as int)
                        + " bytes into the shared buffer failed: "@ + driver@
                },
            },
    {
        if status != CUDA_SUCCESS {
            let mut text = String::from_str("writing ");
            text.append(decimal_str(self.size).as_str());
            text.append(" bytes into the shared buffer failed: ");
            text.append(driver);
            return Err(CudaError::MapBuffer(text));
        }
        Ok(())
    }

    /// Release CUDA's view of the buffer; releasing it again does nothing.
    pub fn release(&mut self) -> (r: ReleasePlan)
        ensures
            r == (ReleasePlan {
                mapping: old(self).device_ptr,
                ext_mem: old(self).ext_mem,
                handle: 0,
            }),
            *final(self) == (ExternalBuffer { device_ptr: 0, ext_mem: 0, ..*old(self) }),
    {
        let plan = ReleasePlan { mapping: self.device_ptr, ext_mem: self.ext_mem, handle: 0 };
        self.device_ptr = 0;
        self.ext_mem = 0;
        plan
    }
}

/// Releasing a buffer gives back everything it holds, its mapping, its import and its handle,
/// and a second time there is nothing left to give back.
pub proof fn law_buffers_are_released_once(buffer: SharedBuffer)
    ensures
        buffer.plan().mapping == buffer.external.device_ptr,
        buffer.plan().ext_mem == buffer.external.ext_mem,
        buffer.plan().handle == buffer.shared_handle,
        buffer.released().plan() == (ReleasePlan { mapping: 0, ext_mem: 0, handle: 0 }),
        buffer.released().external.size == buffer.external.size,
{
}

/// A handle is imported whole and mapped from its start, exactly when there is a handle, there
/// is memory behind it, and no more of it is mapped than there is.
pub proof fn law_handles_are_imported_whole(
    handle: u64,
    alloc: u64,
    map: u64,
    r: Result<(ImportDesc, CudaExternalMemoryBufferDesc), CudaError>,
)
    requires
        imported_by(handle, alloc, map, r),
    ensures
        r is Ok <==> handle != 0 && alloc != 0 && map <= alloc,
        r matches Ok((import, mapping)) ==> {
            &&& import.handle == handle && import.size == alloc
            &&& import.handle_type == 5 && import.flags == 1
            &&& mapping.offset == 0 && mapping.size == map && mapping.flags == 0
        },
        r is Err ==> r->Err_0 is Import,
        handle == 0 ==> r->Err_0->Import_0@ == "CreateSharedHandle produced a NULL handle"@,
        handle != 0 && alloc == 0 ==> r->Err_0->Import_0@
            == "the shared resource reports a zero allocation size"@,
        handle != 0 && alloc != 0 && map > alloc ==> r->Err_0->Import_0@ == "cannot map "@ + decimal(
            map as int,
        ) + " bytes of a "@ + decimal(alloc as int) + "-byte allocation"@,
{
}

} // verus!
