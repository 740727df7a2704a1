use nexir::interop::capability::{
    GpuBackend, HostOs, InteropCapability, InteropTransport, ProbeFacts, NVIDIA_VENDOR,
};
use nexir::io::decoder::DecodedFrame;
use nexir::io::ffi::hw_accel::HwDeviceType;
use nexir::io::interop_decode::{
    source_geometry_is_interop_capable, BoundClip, DecodeOutcome, InteropDecode,
    InteropDecodeTargets, InteropFrame, InteropPlanes, TargetStep,
};
use nexir::timeline::{
    ColorInfo, DecodedFrameMeta, FrameLayout, PixelFormat, Rational, SourceId, VideoStreamInfo,
};

fn info(width: u32, height: u32, pixel_fmt: PixelFormat) -> VideoStreamInfo {
    VideoStreamInfo {
        width,
        height,
        frame_rate: Rational { num: 30, den: 1 },
        pixel_fmt,
        color_info: ColorInfo::bt709(),
        duration_pts: 0,
        is_vfr: false,
        time_base: Rational { num: 1, den: 90_000 },
    }
}

fn linux_facts() -> ProbeFacts {
    ProbeFacts {
        backend: GpuBackend::Vulkan,
        os: HostOs::Linux,
        vendor: NVIDIA_VENDOR,
        cuda_library: false,
        init_status: 0,
        driver_version: 12020,
        devices: vec![false, true, true],
    }
}

fn live_registry() -> InteropDecodeTargets {
    InteropDecodeTargets::with_context(InteropCapability::probe(&linux_facts()), true)
}

fn planes(first: u64) -> InteropPlanes {
    InteropPlanes { y: first, uv: first + 1 }
}

#[test]
fn a_ten_bit_source_is_refused_before_anything_is_allocated() {
    for fmt in [
        PixelFormat::P010,
        PixelFormat::Yuv420p10,
        PixelFormat::Yuv422p10,
        PixelFormat::Yuv444p10,
        PixelFormat::Yuv420p12,
    ] {
        let err = source_geometry_is_interop_capable(&info(3840, 2160, fmt))
            .expect_err("a >8-bit source must be refused: the planes are 8-bit");
        assert!(err.contains("8-bit"), "the reason must name the depth mismatch, got {err:?}");
    }
    for fmt in [PixelFormat::Nv12, PixelFormat::Yuv420p] {
        source_geometry_is_interop_capable(&info(3840, 2160, fmt))
            .expect("an 8-bit source must be allowed");
    }
}

#[test]
fn odd_or_zero_dimensions_are_refused() {
    for (w, h) in [(1921, 1080), (1920, 1081), (0, 1080), (1920, 0)] {
        source_geometry_is_interop_capable(&info(w, h, PixelFormat::Nv12))
            .expect_err(&format!("{w}x{h} must be refused"));
    }
    source_geometry_is_interop_capable(&info(1920, 1080, PixelFormat::Nv12))
        .expect("an even 8-bit source must be allowed");
}

#[test]
fn a_disabled_registry_allocates_nothing() {
    let mut targets = InteropDecodeTargets::disabled();
    assert!(!targets.is_available());
    assert_eq!(targets.live_targets(), 0);
    assert!(targets.held_frame(SourceId::new(0), 0).is_none());
    let step = targets.decode_into_target(
        SourceId::new(0),
        &info(1920, 1080, PixelFormat::Nv12),
        HwDeviceType::Cuda,
    );
    let err = match step {
        TargetStep::Unavailable(reason) => reason,
        _ => panic!("a disabled registry must reject every source"),
    };
    assert!(err.contains("CUDA"), "got {err:?}");
    assert_eq!(targets.live_targets(), 0, "nothing may be allocated");
    assert_eq!(targets.rejection_reason(SourceId::new(0)), Some(err));
}

#[test]
fn a_software_decoder_is_refused_even_with_cuda_present() {
    let mut targets = live_registry();
    assert!(targets.is_available());

    let step = targets.decode_into_target(
        SourceId::new(3),
        &info(1920, 1080, PixelFormat::Nv12),
        HwDeviceType::Software,
    );
    let err = match step {
        TargetStep::Unavailable(reason) => reason,
        _ => panic!("a software decoder must not get an interop target"),
    };
    assert!(err.contains("NVDEC"), "the reason must name the decoder, got {err:?}");
    assert_eq!(targets.live_targets(), 0, "nothing may be allocated for it");

    assert_eq!(targets.rejection_reason(SourceId::new(3)), Some(err));
    let again = targets.decode_into_target(
        SourceId::new(3),
        &info(1920, 1080, PixelFormat::Nv12),
        HwDeviceType::Cuda,
    );
    assert!(matches!(again, TargetStep::Unavailable(reason) if reason == err));
}

#[test]
fn a_sources_target_is_allocated_once_and_keeps_its_view_ids() {
    let mut targets = live_registry();
    let sid = SourceId::new(0);
    let source = info(1920, 1080, PixelFormat::Nv12);

    match targets.decode_into_target(sid, &source, HwDeviceType::Cuda) {
        TargetStep::Allocate { width, height } => assert_eq!((width, height), (1920, 1080)),
        _ => panic!("a new source needs textures"),
    }
    let first = match targets.target_allocated(sid, Some(planes(7))) {
        TargetStep::Decode { planes, wait } => {
            assert_eq!(wait, None);
            planes
        }
        _ => panic!("allocated textures are decoded into"),
    };
    assert_eq!(targets.live_targets(), 1);
    assert_ne!(first.y, first.uv, "the two planes are distinct textures");

    for frame in 0..3 {
        match targets.decode_into_target(sid, &source, HwDeviceType::Cuda) {
            TargetStep::Decode { planes, .. } => {
                assert_eq!(planes, first, "frame {frame}: the planes moved")
            }
            _ => panic!("an allocated source stays allocated"),
        }
        assert_eq!(
            targets.live_targets(),
            1,
            "frame {frame}: a second target was allocated for one source"
        );
    }

    targets.evict(sid);
    assert_eq!(targets.live_targets(), 0);
    targets.clear();
    assert_eq!(targets.live_targets(), 0);
}

#[test]
fn a_failed_allocation_is_not_tried_again() {
    let mut targets = live_registry();
    let sid = SourceId::new(5);
    let source = info(640, 480, PixelFormat::Nv12);
    let _ = targets.decode_into_target(sid, &source, HwDeviceType::Cuda);
    let refused = targets.target_allocated(sid, None);
    assert!(matches!(
        refused,
        TargetStep::Unavailable("allocating the shared Y/UV texture pair failed")
    ));
    let again = targets.decode_into_target(sid, &source, HwDeviceType::Cuda);
    assert!(matches!(again, TargetStep::Unavailable(_)));
    targets.evict(sid);
    assert_eq!(targets.rejection_reason(sid), None);
    let afresh = targets.decode_into_target(sid, &source, HwDeviceType::Cuda);
    assert!(matches!(afresh, TargetStep::Allocate { width: 640, height: 480 }));
}

fn decoded(pts: i64) -> DecodedFrame {
    DecodedFrame {
        pts,
        width: 640,
        height: 480,
        meta: DecodedFrameMeta {
            layout: FrameLayout { bit_depth: 8, semi_planar: true, msb_aligned: false },
            color: ColorInfo::bt709(),
        },
    }
}

#[test]
fn a_held_frame_is_served_until_it_is_overwritten() {
    let mut targets = live_registry();
    let sid = SourceId::new(1);
    let source = info(640, 480, PixelFormat::Nv12);
    let _ = targets.decode_into_target(sid, &source, HwDeviceType::Cuda);
    let _ = targets.target_allocated(sid, Some(planes(1)));

    let outcome = InteropDecodeTargets::frame_decoded(
        planes(1),
        DecodeOutcome::Frame(decoded(3000)),
    );
    let frame: InteropFrame = match outcome {
        InteropDecode::Decoded(frame) => frame,
        _ => panic!("a frame came out"),
    };
    assert_eq!(frame.pts, 3000);
    assert_eq!(frame.planes, planes(1));
    targets.mark_held(sid, 40, &frame);
    assert_eq!(targets.held_frame(sid, 40), Some(frame));
    assert_eq!(targets.held_frame(sid, 41), None);

    targets.mark_submitted(&vec![BoundClip { source_id: sid, from_planes: true }], 77);
    match targets.decode_into_target(sid, &source, HwDeviceType::Cuda) {
        TargetStep::Decode { wait, .. } => assert_eq!(wait, Some(77)),
        _ => panic!("the textures stay"),
    }
    assert_eq!(targets.held_frame(sid, 40), None);
    match targets.decode_into_target(sid, &source, HwDeviceType::Cuda) {
        TargetStep::Decode { wait, .. } => assert_eq!(wait, None),
        _ => panic!("the textures stay"),
    }
}

#[test]
fn a_clip_drawn_from_host_memory_is_not_waited_for() {
    let mut targets = live_registry();
    let sid = SourceId::new(1);
    let source = info(640, 480, PixelFormat::Nv12);
    let _ = targets.decode_into_target(sid, &source, HwDeviceType::Cuda);
    let _ = targets.target_allocated(sid, Some(planes(1)));
    targets.mark_submitted(&vec![BoundClip { source_id: sid, from_planes: false }], 5);
    match targets.decode_into_target(sid, &source, HwDeviceType::Cuda) {
        TargetStep::Decode { wait, .. } => assert_eq!(wait, None),
        _ => panic!("the textures stay"),
    }
}

#[test]
fn decoding_may_give_nothing_or_fail() {
    assert!(matches!(
        InteropDecodeTargets::frame_decoded(planes(1), DecodeOutcome::NoFrame),
        InteropDecode::Pending
    ));
    assert!(matches!(
        InteropDecodeTargets::frame_decoded(planes(1), DecodeOutcome::Failed),
        InteropDecode::Unavailable("the interop decode returned an error")
    ));
}

#[test]
fn invalidated_textures_hold_no_frame() {
    let mut targets = live_registry();
    let sid = SourceId::new(2);
    let source = info(640, 480, PixelFormat::Nv12);
    let _ = targets.decode_into_target(sid, &source, HwDeviceType::Cuda);
    let _ = targets.target_allocated(sid, Some(planes(9)));
    if let InteropDecode::Decoded(frame) =
        InteropDecodeTargets::frame_decoded(planes(9), DecodeOutcome::Frame(decoded(0)))
    {
        targets.mark_held(sid, 0, &frame);
    }
    assert!(targets.held_frame(sid, 0).is_some());
    targets.invalidate(sid);
    assert!(targets.held_frame(sid, 0).is_none());
    assert_eq!(targets.live_targets(), 1);
}

#[test]
fn the_probe_needs_adapter_driver_and_device() {
    let cap = InteropCapability::probe(&linux_facts());
    assert!(cap.is_available());
    assert_eq!(cap.transport, InteropTransport::VulkanOpaqueFd);
    assert_eq!(cap.cuda_device_ordinal, 1);
    assert_eq!(cap.driver_version, "12.2");

    let mut other_vendor = linux_facts();
    other_vendor.vendor = 0x1002;
    assert!(!InteropCapability::probe(&other_vendor).is_available());
    let mut no_driver = linux_facts();
    no_driver.init_status = 100;
    assert!(!InteropCapability::probe(&no_driver).is_available());
    let mut old_driver = linux_facts();
    old_driver.driver_version = 4099;
    assert!(!InteropCapability::probe(&old_driver).is_available());
    let mut no_device = linux_facts();
    no_device.devices = vec![false];
    let none = InteropCapability::probe(&no_device);
    assert!(!none.is_available());
    assert_eq!(none.cuda_device_ordinal, -1);
    assert_eq!(none.driver_version, "");
    let mut mac = linux_facts();
    mac.os = HostOs::MacOs;
    assert!(!InteropCapability::probe(&mac).is_available());
}

#[test]
fn windows_asks_for_the_driver_library() {
    let mut facts = linux_facts();
    facts.backend = GpuBackend::Dx12;
    facts.os = HostOs::Windows;
    assert!(!InteropCapability::probe(&facts).is_available());
    facts.cuda_library = true;
    let cap = InteropCapability::probe(&facts);
    assert_eq!(cap.transport, InteropTransport::D3D12Win32Handle);
    facts.driver_version = 10020;
    assert!(!InteropCapability::probe(&facts).is_available());
}
