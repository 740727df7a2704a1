use nexir::interop::capability::{InteropCapability, InteropTransport};
use nexir::interop::cuda_context::{
    ContextCall, ContextDropCall, ContextReply, CudaContext, CudaError, EnterCall,
    CU_CTX_SCHED_BLOCKING_SYNC,
};
use nexir::interop::decode_interop::{
    copy_step_done, CopyDone, CopyStep, DecodeInteropTarget, NvdecSurface, CU_MEMORYTYPE_ARRAY,
    CU_MEMORYTYPE_DEVICE,
};
use nexir::interop::external_buffer::{ExternalBuffer, SharedBuffer};
use nexir::interop::external_memory::{
    resource_flags, shared_error, AllocationReply, SharedAllocation, SharedCall, SharedFault,
    SharedReply, SharedRequest,
};
use nexir::interop::external_texture::{
    CudaArrayFormat, ExternalTexture, SharedTexture, TextureFormat,
};
use nexir::interop::nv12_encode::Nv12EncodeNode;

fn capability() -> InteropCapability {
    InteropCapability {
        transport: InteropTransport::D3D12Win32Handle,
        cuda_device_ordinal: 2,
        driver_version: String::from("12.2"),
    }
}

fn acquire() -> CudaContext {
    let (mut opening, call) = CudaContext::new(&capability());
    assert!(matches!(call, ContextCall::GetDevice { ordinal: 2 }));
    let call = opening.resume(ContextReply::Device { status: 0, device: 7 });
    assert!(matches!(call, ContextCall::GetState));
    let call = opening.resume(ContextReply::State { status: 0, flags: 0, active: 0 });
    assert!(matches!(call, ContextCall::SetFlags { flags: CU_CTX_SCHED_BLOCKING_SYNC }));
    assert!(matches!(opening.resume(ContextReply::FlagsSet), ContextCall::Retain));
    let call = opening.resume(ContextReply::Retained { status: 0, context: 50 });
    assert!(matches!(call, ContextCall::GetCurrent));
    let call = opening.resume(ContextReply::Current { status: 0, context: 9 });
    assert!(matches!(call, ContextCall::Bind));
    let call = opening.resume(ContextReply::Bound { status: 0 });
    assert!(matches!(call, ContextCall::CreateStream { flags: 1 }));
    let call = opening.resume(ContextReply::Stream { status: 0, stream: 60 });
    assert!(matches!(call, ContextCall::Restore { context: 9 }));
    match opening.resume(ContextReply::Restored) {
        ContextCall::Ready { context } => context,
        _ => panic!("the context is there"),
    }
}

#[test]
fn a_context_is_retained_with_blocking_waits() {
    let context = acquire();
    assert_eq!(context.raw_context(), 50);
    let (first, last) = context.release();
    assert!(matches!(first, ContextDropCall::DestroyStream { stream: 60 }));
    assert!(matches!(last, ContextDropCall::Release { device: 7 }));
}

#[test]
fn an_active_context_keeps_its_flags() {
    let (mut opening, _) = CudaContext::new(&capability());
    let _ = opening.resume(ContextReply::Device { status: 0, device: 7 });
    let call = opening.resume(ContextReply::State { status: 0, flags: 0, active: 1 });
    assert!(matches!(call, ContextCall::Retain));
}

#[test]
fn a_failed_opening_releases_what_it_retained() {
    let (mut opening, _) = CudaContext::new(&capability());
    let error = opening.error(String::from("no device"));
    assert!(matches!(error, CudaError::DeviceGet(text) if text == "no device"));
    let call = opening.resume(ContextReply::Device { status: 101, device: 0 });
    assert!(matches!(call, ContextCall::Failed { release: false }));

    let (mut opening, _) = CudaContext::new(&capability());
    let _ = opening.resume(ContextReply::Device { status: 0, device: 7 });
    let _ = opening.resume(ContextReply::State { status: 1, flags: 0, active: 0 });
    let _ = opening.resume(ContextReply::Retained { status: 0, context: 50 });
    let _ = opening.resume(ContextReply::Current { status: 1, context: 9 });
    let error = opening.error(String::from("bad"));
    assert!(matches!(error, CudaError::CtxRetain(text)
        if text == "the primary context was retained but could not be made current: bad"));
    let call = opening.resume(ContextReply::Bound { status: 1 });
    assert!(matches!(call, ContextCall::Failed { release: true }));
}

#[test]
fn a_stream_that_fails_still_restores_the_thread() {
    let (mut opening, _) = CudaContext::new(&capability());
    let _ = opening.resume(ContextReply::Device { status: 0, device: 7 });
    let _ = opening.resume(ContextReply::State { status: 0, flags: 4, active: 0 });
    let _ = opening.resume(ContextReply::Retained { status: 0, context: 50 });
    let _ = opening.resume(ContextReply::Current { status: 0, context: 9 });
    let _ = opening.resume(ContextReply::Bound { status: 0 });
    let call = opening.resume(ContextReply::Stream { status: 2, stream: 0 });
    assert!(matches!(call, ContextCall::Restore { context: 9 }));
    let call = opening.resume(ContextReply::Restored);
    assert!(matches!(call, ContextCall::Failed { release: true }));
}

#[test]
fn threads_get_their_own_context_back() {
    let context = acquire();
    assert!(matches!(context.with_context(Some(50)), EnterCall::Run));
    assert!(matches!(context.with_context(Some(9)), EnterCall::Bind { context: 50 }));
    assert!(matches!(context.with_context(None), EnterCall::Bind { context: 50 }));
    assert_eq!(CudaContext::leave(Some(9), 0), Some(9));
    assert_eq!(CudaContext::leave(None, 0), Some(0));
    assert_eq!(CudaContext::leave(Some(9), 1), None);
}

#[test]
fn a_frame_is_copied_plane_by_plane() {
    let (y, uv) = DecodeInteropTarget::planes(1920, 1080);
    assert_eq!((y.width, y.height), (1920, 1080));
    assert_eq!((uv.width, uv.height), (960, 540));
    let target = DecodeInteropTarget::new(100, 200, 1920, 1080);
    assert_eq!((target.y_texture(), target.uv_texture()), (100, 200));
    let surface = NvdecSurface { y: 1, uv: 2, pitch: 2048 };
    let (first, luma, chroma) = match target.copy_from_nvdec_frame(&surface, 1920, 1080) {
        Ok(copies) => copies,
        Err(_) => panic!("the frame fits"),
    };
    assert_eq!((luma.src_device, luma.dst_array, luma.src_pitch), (1, 100, 2048));
    assert_eq!((luma.width_in_bytes, luma.height), (1920, 1080));
    assert_eq!((chroma.src_device, chroma.dst_array), (2, 200));
    assert_eq!((chroma.width_in_bytes, chroma.height), (1920, 540));
    assert_eq!(luma.src_member_type, CU_MEMORYTYPE_DEVICE);
    assert_eq!(luma.dst_member_type, CU_MEMORYTYPE_ARRAY);

    assert!(matches!(first, CopyStep::WaitForDecoder));
    let after = |done: CopyDone| copy_step_done(done, 0, String::new());
    assert!(matches!(after(CopyDone::DecoderWaited), CopyStep::CopyLuma));
    assert!(matches!(after(CopyDone::LumaCopied), CopyStep::CopyChroma));
    assert!(matches!(after(CopyDone::ChromaCopied), CopyStep::Synchronise));
    assert!(matches!(
        copy_step_done(CopyDone::LumaCopied, 1, String::from("lost")),
        CopyStep::Failed { error: CudaError::Import(text) } if text == "lost"
    ));
}

#[test]
fn a_frame_larger_than_its_textures_is_refused() {
    let target = DecodeInteropTarget::new(100, 200, 1920, 1080);
    let surface = NvdecSurface { y: 1, uv: 2, pitch: 2048 };
    assert!(matches!(
        target.copy_from_nvdec_frame(&surface, 1920, 1088),
        Err(CudaError::Import(text))
            if text == "a 1920x1088 frame does not fit the 1920x1080 decode target"
    ));
    assert!(target.copy_from_nvdec_frame(&surface, 1921, 1080).is_err());
    match target.copy_from_nvdec_frame(&surface, 1280, 720) {
        Ok((_, luma, chroma)) => {
            assert_eq!((luma.width_in_bytes, luma.height), (1280, 720));
            assert_eq!((chroma.width_in_bytes, chroma.height), (1280, 360));
        }
        Err(_) => panic!("a smaller frame fits"),
    }
}

#[test]
fn a_shared_buffer_is_imported_whole_and_mapped_to_size() {
    let (mut sharing, call) =
        match SharedBuffer::new(InteropTransport::D3D12Win32Handle, true, 1000, true) {
            Ok(begun) => begun,
            Err(_) => panic!("D3D12 on Windows shares buffers"),
        };
    match call {
        SharedCall::QueryAllocation { desc } => {
            assert_eq!((desc.dimension, desc.width, desc.height), (1, 1000, 1));
            assert_eq!((desc.layout, desc.flags), (1, 4));
        }
        _ => panic!("the allocation is asked for first"),
    }
    let size = AllocationReply::Size { bytes: 65_536 };
    let (call, _) = sharing.resume(SharedReply::Allocation { reply: size });
    assert!(matches!(call, SharedCall::CreateCommitted { .. }));
    let (call, _) = sharing.resume(SharedReply::Committed { hresult: 0 });
    assert!(matches!(call, SharedCall::CreateHandle));
    match sharing.resume(SharedReply::Handle { hresult: 0, handle: 77 }).0 {
        SharedCall::Import { desc } => {
            assert_eq!((desc.handle_type, desc.handle, desc.size, desc.flags), (5, 77, 65_536, 1))
        }
        _ => panic!("the handle is imported"),
    }
    match sharing.resume(SharedReply::Imported { status: 0, ext_mem: 88 }).0 {
        SharedCall::MapBuffer { desc } => assert_eq!((desc.offset, desc.size), (0, 1000)),
        _ => panic!("the buffer is mapped"),
    }
    let (call, fault) = sharing.resume(SharedReply::Mapped { status: 0, mapped: 99 });
    assert!(matches!(call, SharedCall::Ready { handle: 77, ext_mem: 88, mapped: 99 }));
    assert!(fault.is_none());
}

#[test]
fn a_failed_sharing_says_what_is_left_over() {
    let start = || {
        match SharedBuffer::new(InteropTransport::D3D12Win32Handle, true, 1000, false) {
            Ok(begun) => begun.0,
            Err(_) => panic!("D3D12 on Windows shares buffers"),
        }
    };
    let mut sharing = start();
    let (call, fault) = sharing.resume(SharedReply::Allocation { reply: AllocationReply::NoEscape });
    assert!(matches!(call, SharedCall::Failed { ext_mem: 0, handle: 0 }));
    assert!(matches!(fault, Some(SharedFault::NoEscape)));

    let mut sharing = start();
    let small = AllocationReply::Size { bytes: 10 };
    let _ = sharing.resume(SharedReply::Allocation { reply: small });
    let _ = sharing.resume(SharedReply::Committed { hresult: 0 });
    let (call, fault) = sharing.resume(SharedReply::Handle { hresult: 0, handle: 77 });
    assert!(matches!(call, SharedCall::Failed { ext_mem: 0, handle: 77 }));
    assert!(matches!(fault, Some(SharedFault::TooSmall { map: 1000, alloc: 10 })));

    let mut sharing = start();
    let size = AllocationReply::Size { bytes: 65_536 };
    let _ = sharing.resume(SharedReply::Allocation { reply: size });
    let _ = sharing.resume(SharedReply::Committed { hresult: 0 });
    let _ = sharing.resume(SharedReply::Handle { hresult: 0, handle: 77 });
    let _ = sharing.resume(SharedReply::Imported { status: 0, ext_mem: 88 });
    let (call, _) = sharing.resume(SharedReply::Mapped { status: 1, mapped: 0 });
    assert!(matches!(call, SharedCall::Failed { ext_mem: 88, handle: 77 }));
}

#[test]
fn faults_are_put_into_words() {
    let buffer = SharedRequest::Buffer { size: 1000, storage: false };
    let text = |error: CudaError| match error {
        CudaError::Import(text) | CudaError::MapBuffer(text) | CudaError::MapArray(text) => text,
        _ => panic!("sharing does not fail so"),
    };
    assert_eq!(
        text(shared_error(&buffer, SharedFault::Commit { hresult: -2147024882 }, "")),
        "CreateCommittedResource(HEAP_FLAG_SHARED, BUFFER 1000 bytes) failed: HRESULT 0x8007000E"
    );
    assert_eq!(
        text(shared_error(&buffer, SharedFault::TooSmall { map: 9, alloc: 8 }, "")),
        "cannot map 9 bytes of a 8-byte allocation"
    );
    assert!(matches!(
        shared_error(&buffer, SharedFault::Mapping { alloc: 4096 }, "CUDA 1"),
        CudaError::MapBuffer(text)
            if text == "mapping 1000 bytes of a 4096-byte imported allocation as a CUdeviceptr failed: CUDA 1"
    ));
    let texture = SharedRequest::Texture {
        width: 64,
        height: 32,
        format: TextureFormat::Rgba16Float,
        array_fmt: CudaArrayFormat { format: 0x10, num_channels: 4, bytes_per_px: 8 },
        render_attachment: true,
        storage: false,
    };
    assert!(matches!(
        shared_error(&texture, SharedFault::Mapping { alloc: 4096 }, "CUDA 1"),
        CudaError::MapArray(text)
            if text == "mapping the imported memory as a 64x32 CUDA array (format=0x10, 4 channel(s)) failed: CUDA 1"
    ));
    assert_eq!(
        text(shared_error(&texture, SharedFault::Rejected { bytes: 0 }, "")),
        "GetResourceAllocationInfo rejected a 64x32 Rgba16Float resource (SizeInBytes=0)"
    );
}

#[test]
fn only_d3d12_on_windows_shares_memory() {
    let refused = |transport, windows| match SharedBuffer::new(transport, windows, 8, false) {
        Err(CudaError::Import(text)) => text,
        _ => panic!("nothing can be shared"),
    };
    assert_eq!(
        refused(InteropTransport::D3D12Win32Handle, false),
        "D3D12Win32Handle transport is Windows-only"
    );
    assert_eq!(refused(InteropTransport::Unavailable, true), "No interop transport available");
    assert!(refused(InteropTransport::VulkanOpaqueFd, false).starts_with("Vulkan"));
    assert!(matches!(
        SharedBuffer::new(InteropTransport::D3D12Win32Handle, true, 0, false),
        Err(CudaError::Import(text)) if text == "a zero-byte shared buffer was requested"
    ));
    assert!(matches!(
        SharedTexture::new(
            InteropTransport::D3D12Win32Handle,
            true,
            8,
            8,
            TextureFormat::Other,
            "Bgra8Unorm",
            false,
            false,
        ),
        Err(CudaError::Import(text)) if text.contains("wgpu format Bgra8Unorm")
    ));
}

#[test]
fn texture_formats_are_described_alike_to_both_sides() {
    assert_eq!(TextureFormat::Rgba16Float.dxgi_format(), 10);
    assert_eq!(TextureFormat::Rg8Unorm.dxgi_format(), 49);
    assert_eq!(TextureFormat::R8Unorm.as_str(), "R8Unorm");
    let half = CudaArrayFormat::for_wgpu(TextureFormat::Rgba16Float).expect("shared");
    assert_eq!((half.format, half.num_channels, half.bytes_per_px), (0x10, 4, 8));
    let rg = CudaArrayFormat::for_wgpu(TextureFormat::Rg8Unorm).expect("shared");
    assert_eq!((rg.format, rg.num_channels, rg.bytes_per_px), (1, 2, 2));
    assert!(CudaArrayFormat::for_wgpu(TextureFormat::Other).is_none());
    assert_eq!(resource_flags(true, true), 5);
    assert_eq!(resource_flags(false, false), 0);
}

#[test]
fn handles_are_checked_before_an_import() {
    assert!(matches!(
        ExternalBuffer::import_win32_d3d12(0, 64, 64),
        Err(CudaError::Import(text)) if text == "CreateSharedHandle produced a NULL handle"
    ));
    assert!(matches!(
        ExternalBuffer::import_win32_d3d12(1, 64, 65),
        Err(CudaError::Import(text)) if text == "cannot map 65 bytes of a 64-byte allocation"
    ));
    match ExternalBuffer::import_win32_d3d12(1, 64, 60) {
        Ok((import, map)) => {
            assert_eq!(import.size, 64);
            assert_eq!(map.size, 60);
        }
        Err(_) => panic!("the handle is good"),
    }
    let format = CudaArrayFormat { format: 1, num_channels: 1, bytes_per_px: 1 };
    assert!(matches!(
        ExternalTexture::import_win32_d3d12(1, 0, 4, 4, format),
        Err(CudaError::Import(text)) if text == "the shared resource reports a zero allocation size"
    ));
    match ExternalTexture::import_win32_d3d12(1, 64, 4, 2, format) {
        Ok((_, map)) => {
            assert_eq!((map.array_desc.width, map.array_desc.height), (4, 2));
            assert_eq!((map.array_desc.depth, map.num_levels), (0, 1));
        }
        Err(_) => panic!("the handle is good"),
    }
}

#[test]
fn what_is_shared_is_what_was_asked_for() {
    let drive = |sharing: &mut SharedAllocation| {
        let size = AllocationReply::Size { bytes: 65_536 };
        let _ = sharing.resume(SharedReply::Allocation { reply: size });
        let _ = sharing.resume(SharedReply::Committed { hresult: 0 });
        let _ = sharing.resume(SharedReply::Handle { hresult: 0, handle: 77 });
        let _ = sharing.resume(SharedReply::Imported { status: 0, ext_mem: 88 });
        let (call, _) = sharing.resume(SharedReply::Mapped { status: 0, mapped: 99 });
        assert!(matches!(call, SharedCall::Ready { handle: 77, ext_mem: 88, mapped: 99 }));
    };
    let transport = InteropTransport::D3D12Win32Handle;
    let (mut sharing, _) = SharedBuffer::new(transport, true, 1000, false).expect("D3D12 shares");
    drive(&mut sharing);
    let buffer = sharing.buffer();
    assert_eq!(buffer.external.device_ptr(), 99);
    assert_eq!((buffer.external.size, buffer.external.ext_mem), (1000, 88));
    assert_eq!(buffer.shared_handle, 77);

    let format = TextureFormat::R8Unorm;
    let (mut sharing, _) =
        SharedTexture::new(transport, true, 64, 32, format, "R8Unorm", false, true)
            .expect("D3D12 shares");
    drive(&mut sharing);
    let texture = sharing.texture(5);
    assert_eq!(texture.external.cuda_array(), 5);
    assert_eq!((texture.external.mipmap, texture.external.ext_mem), (99, 88));
    assert_eq!((texture.external.width, texture.external.height), (64, 32));
    assert_eq!(texture.shared_handle, 77);
}

#[test]
fn host_copies_are_whole() {
    let buffer = ExternalBuffer { device_ptr: 5, ext_mem: 6, size: 16 };
    assert_eq!(buffer.device_ptr(), 5);
    assert!(buffer.read_to_host(0, "").is_ok());
    assert!(matches!(
        buffer.read_to_host(1, "gone"),
        Err(CudaError::MapBuffer(text))
            if text == "reading 16 bytes back from the shared buffer failed: gone"
    ));
    assert!(buffer.write_from_host(16).is_ok());
    assert!(matches!(
        buffer.write_from_host(15),
        Err(CudaError::MapBuffer(text))
            if text == "write_from_host was given 15 bytes for a 16-byte mapping"
    ));
    assert!(matches!(
        buffer.written(1, "gone"),
        Err(CudaError::MapBuffer(text))
            if text == "writing 16 bytes into the shared buffer failed: gone"
    ));
}

#[test]
fn releasing_twice_does_nothing_more() {
    let external = ExternalBuffer { device_ptr: 5, ext_mem: 6, size: 16 };
    let mut shared = SharedBuffer { external, shared_handle: 7 };
    let plan = shared.release();
    assert_eq!((plan.mapping, plan.ext_mem, plan.handle), (5, 6, 7));
    let again = shared.release();
    assert_eq!((again.mapping, again.ext_mem, again.handle), (0, 0, 0));

    let external = ExternalTexture { cuda_array: 1, mipmap: 2, ext_mem: 3, width: 4, height: 4 };
    assert_eq!(external.cuda_array(), 1);
    let mut texture = SharedTexture { external, shared_handle: 9 };
    let plan = texture.release();
    assert_eq!((plan.mapping, plan.ext_mem, plan.handle), (2, 3, 9));
    let again = texture.release();
    assert_eq!((again.mapping, again.ext_mem, again.handle), (0, 0, 0));
}

#[test]
fn an_nv12_frame_has_whole_words_and_rows() {
    assert_eq!(Nv12EncodeNode::min_pitch(1918), 1920);
    assert_eq!(Nv12EncodeNode::aligned_pitch(1920), 2048);
    assert_eq!(Nv12EncodeNode::aligned_pitch(256), 256);
    assert_eq!(Nv12EncodeNode::buffer_size(1080, 2048), 2048 * 1620);
    assert_eq!(Nv12EncodeNode::buffer_size(3, 4), 20);
    let node = Nv12EncodeNode { width: 1920, height: 1080 };
    let dispatch = node.record(2048);
    assert_eq!(dispatch.params.chroma_plane_offset, 2048 * 1080);
    assert_eq!((dispatch.luma_x, dispatch.luma_y), (60, 135));
    assert_eq!((dispatch.chroma_x, dispatch.chroma_y), (60, 68));
}
