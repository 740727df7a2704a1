use nexir::export::job::{ExportJob, VideoCodec};
use nexir::interop::cuda_context::CudaError;
use nexir::interop::encode_interop::{
    Abgr10RepackNode, DtsQueue, EncodeInterop, EncodeInteropError, EncodeSlot, NvencCall,
    NvencReply, TeardownCall, NVENC_INFLIGHT_SLOTS,
};
use nexir::interop::encode_open::{OpenCall, OpenReply, Preset, SessionOpening, EVENT_COUNT};
use nexir::interop::nvenc::{
    nvenc_api_version, PresetConfig, NV_ENC_ERR_GENERIC, NV_ENC_ERR_INVALID_CALL,
    NV_ENC_ERR_INVALID_PARAM, NV_ENC_ERR_NEED_MORE_INPUT, NV_ENC_PIC_FLAG_EOS,
    NV_ENC_PIC_TYPE_IDR, NV_ENC_PIC_TYPE_P, NV_ENC_SUCCESS,
};
use nexir::timeline::Rational;

#[test]
fn timestamps_of_reordered_packets_keep_rising() {
    let mut queue = DtsQueue::new();
    for pts in [0, 1, 2, 3] {
        queue.push_input(pts);
    }
    assert_eq!(queue.pending(), 4);
    let dts: Vec<i64> = [0, 3, 1, 2].iter().map(|pts| queue.pop_output(*pts)).collect();
    assert_eq!(dts, vec![0, 1, 2, 3]);
    assert_eq!(queue.pop_output(2), 4, "a late packet still moves on");
    assert_eq!(queue.pop_output(100), 100);
}

fn slots() -> Vec<EncodeSlot> {
    (0..NVENC_INFLIGHT_SLOTS as u64)
        .map(|i| EncodeSlot { registered: 10 + i, bitstream: 20 + i, event: 30 + i })
        .collect()
}

fn session(is_async: bool) -> EncodeInterop {
    let (mut opening, _) = open(is_async, true);
    if is_async {
        let _ = opening.resume(OpenReply::Events { created: true });
    }
    let filled = PresetConfig::new(nvenc_api_version(12, 2)).raw_bytes().clone();
    let _ = opening.resume(OpenReply::Preset { status: 0, filled });
    let mut call = opening.resume(OpenReply::Initialized { status: 0 });
    while let OpenCall::RegisterEvent { .. } = call {
        call = opening.resume(OpenReply::EventRegistered { status: 0 });
    }
    set_up_slots(&mut opening, call);
    opening.session(slots(), 99)
}

#[test]
fn timestamps_keep_rising_while_pictures_go_in() {
    let mut queue = DtsQueue::new();
    queue.push_input(0);
    queue.push_input(1);
    let first = queue.pop_output(0);
    queue.push_input(1);
    let second = queue.pop_output(5);
    let third = queue.pop_output(5);
    queue.push_input(40);
    let fourth = queue.pop_output(2);
    let fifth = queue.pop_output(7);
    assert_eq!([first, second, third, fourth, fifth], [0, 1, 2, 40, 41]);
}

#[test]
fn the_session_is_the_one_that_was_asked_for() {
    let (mut opening, call) = open(false, true);
    assert!(matches!(call, OpenCall::QueryPreset { hevc: false, .. }));
    let filled = PresetConfig::new(nvenc_api_version(12, 2)).raw_bytes().clone();
    let _ = opening.resume(OpenReply::Preset { status: 0, filled });
    let call = opening.resume(OpenReply::Initialized { status: 8 });
    assert!(matches!(call, OpenCall::Initialize { params } if !params.explicit_config));
    let call = opening.resume(OpenReply::Initialized { status: 0 });
    set_up_slots(&mut opening, call);
    assert!(!opening.state().explicit);
    let plain = opening.session(slots(), 0);
    assert!(!plain.reorder_disabled(), "the driver took its own configuration only");
    assert_eq!((plain.pitch(), plain.slot_count()), (2048, 4));
    assert!(session(true).reorder_disabled());
}

fn submit(session: &mut EncodeInterop, pts: i64, slot: usize) -> NvencCall {
    assert!(matches!(
        session.encode_frame(pts, slot),
        NvencCall::MapInput { registered } if registered == 10 + slot as u64
    ));
    let call = session.resume(NvencReply::Mapped { status: 0, mapped: 500 + slot as u64 });
    match call {
        NvencCall::Encode { pic } => {
            assert_eq!(pic.input_timestamp, pts as u64);
            assert_eq!(pic.input_buffer, 500 + slot as u64);
            assert_eq!(pic.output_bitstream, 20 + slot as u64);
            assert_eq!((pic.input_width, pic.input_height, pic.input_pitch), (1920, 1080, 2048));
            assert_eq!(pic.version, 0xF207_000C);
        }
        _ => panic!("the picture is submitted"),
    }
    session.resume(NvencReply::Encoded { status: NV_ENC_ERR_NEED_MORE_INPUT })
}

fn locked(timestamp: u64, picture_type: u32) -> NvencReply {
    NvencReply::Locked { bytes: vec![timestamp as u8], timestamp, picture_type }
}

#[test]
fn a_synchronous_session_hands_out_packets_when_a_slot_comes_round() {
    let mut s = session(false);
    assert_eq!(s.slot_count(), 4);
    assert_eq!(s.pitch(), 2048);
    assert!(s.reorder_disabled());
    for i in 0..4 {
        assert!(matches!(submit(&mut s, i as i64, i), NvencCall::Done));
        assert!(s.take_packets().is_empty());
    }
    match s.encode_frame(4, 4) {
        NvencCall::Retrieve { output, wait } => {
            assert_eq!(output.slot, 0);
            assert_eq!(output.mapped_input, 500);
            assert!(!wait);
        }
        _ => panic!("the slot is taken"),
    }
    assert!(s.has_dts_room());
    let call = s.resume(locked(0, NV_ENC_PIC_TYPE_IDR));
    assert!(matches!(call, NvencCall::MapInput { registered: 10 }));
    let _ = s.resume(NvencReply::Mapped { status: 0, mapped: 600 });
    assert!(matches!(s.resume(NvencReply::Encoded { status: NV_ENC_SUCCESS }), NvencCall::Done));
    let packets = s.take_packets();
    assert_eq!(packets.len(), 1);
    assert!(packets[0].is_keyframe);
    assert_eq!((packets[0].pts, packets[0].dts), (0, 0));
}

#[test]
fn an_asynchronous_session_takes_what_is_ready() {
    let mut s = session(true);
    assert!(matches!(submit(&mut s, 0, 0), NvencCall::Probe { event: 30 }));
    match s.resume(NvencReply::Probed { ready: true }) {
        NvencCall::Retrieve { wait, .. } => assert!(wait),
        _ => panic!("a ready output is taken"),
    }
    assert!(matches!(s.resume(locked(0, NV_ENC_PIC_TYPE_P)), NvencCall::Done));
    assert_eq!(s.take_packets().len(), 1);
    assert!(matches!(s.drain_completed(), NvencCall::Done));
    assert!(matches!(submit(&mut s, 1, 1), NvencCall::Probe { event: 31 }));
    assert!(matches!(s.resume(NvencReply::Probed { ready: false }), NvencCall::Done));
    assert!(s.take_packets().is_empty());
}

#[test]
fn a_flush_recovers_every_packet() {
    let mut s = session(true);
    for i in 0..3 {
        let _ = submit(&mut s, i as i64, i);
        let _ = s.resume(NvencReply::Probed { ready: false });
    }
    match s.flush() {
        NvencCall::Encode { pic } => {
            assert_eq!(pic.encode_pic_flags, NV_ENC_PIC_FLAG_EOS);
            assert_eq!(pic.completion_event, 99);
            assert_eq!(pic.input_buffer, 0);
        }
        _ => panic!("the end is submitted"),
    }
    assert!(matches!(
        s.resume(NvencReply::Encoded { status: NV_ENC_SUCCESS }),
        NvencCall::WaitEos { event: 99 }
    ));
    let mut call = s.resume(NvencReply::EosWaited);
    for pts in [0, 2, 1] {
        assert!(matches!(call, NvencCall::Retrieve { .. }));
        call = s.resume(locked(pts, NV_ENC_PIC_TYPE_P));
    }
    assert!(matches!(call, NvencCall::Done));
    let times: Vec<(i64, i64)> = s.take_packets().iter().map(|p| (p.pts, p.dts)).collect();
    assert_eq!(times, vec![(0, 0), (2, 1), (1, 2)]);
    assert!(matches!(s.flush(), NvencCall::Done));
    assert!(matches!(s.encode_frame(9, 0), NvencCall::Done), "nothing follows the end");
}

#[test]
fn a_failure_poisons_the_session() {
    let mut s = session(false);
    let _ = s.encode_frame(0, 0);
    match s.resume(NvencReply::Mapped { status: NV_ENC_ERR_INVALID_PARAM, mapped: 0 }) {
        NvencCall::Failed { error, unmap } => {
            assert_eq!(unmap, 0);
            assert_eq!(
                error.message(""),
                "nvEncMapInputResource failed: NV_ENC_ERR_INVALID_PARAM (8)"
            );
        }
        _ => panic!("mapping failed"),
    }
    assert!(s.is_poisoned());
    assert!(matches!(
        s.encode_frame(1, 1),
        NvencCall::Failed { error: EncodeInteropError::Encode(NV_ENC_ERR_INVALID_CALL), unmap: 0 }
    ));
    assert!(matches!(s.flush(), NvencCall::Done));
    assert!(matches!(s.reclaim_slot(0), NvencCall::Done));
    assert_eq!(
        s.teardown().iter().filter(|c| matches!(c, TeardownCall::DestroyEncoder)).count(),
        1
    );
}

#[test]
fn a_refused_picture_is_unmapped() {
    let mut s = session(false);
    let _ = s.encode_frame(0, 2);
    let _ = s.resume(NvencReply::Mapped { status: 0, mapped: 502 });
    assert!(matches!(
        s.resume(NvencReply::Encoded { status: NV_ENC_ERR_GENERIC }),
        NvencCall::Failed { error: EncodeInteropError::Encode(NV_ENC_ERR_GENERIC), unmap: 502 }
    ));
}

#[test]
fn a_lock_that_fails_unmaps_its_input() {
    let mut s = session(false);
    let _ = submit(&mut s, 0, 1);
    assert!(matches!(s.reclaim_slot(1), NvencCall::Retrieve { .. }));
    assert!(matches!(
        s.resume(NvencReply::LockFailed { status: 10 }),
        NvencCall::Failed { error: EncodeInteropError::Lock(10), unmap: 501 }
    ));
    let mut s = session(true);
    let _ = submit(&mut s, 0, 1);
    let _ = s.resume(NvencReply::Probed { ready: true });
    assert!(matches!(
        s.resume(NvencReply::WaitFailed),
        NvencCall::Failed { error: EncodeInteropError::Encode(NV_ENC_ERR_GENERIC), unmap: 0 }
    ));
}

#[test]
fn reclaiming_leaves_other_slots_alone() {
    let mut s = session(false);
    let _ = submit(&mut s, 0, 0);
    let _ = submit(&mut s, 1, 1);
    assert!(matches!(s.reclaim_slot(2), NvencCall::Done));
    assert!(matches!(s.reclaim_slot(1), NvencCall::Retrieve { output, .. } if output.slot == 0));
    assert!(matches!(
        s.resume(locked(0, NV_ENC_PIC_TYPE_P)),
        NvencCall::Retrieve { output, .. } if output.slot == 1
    ));
    assert!(matches!(s.resume(locked(1, NV_ENC_PIC_TYPE_P)), NvencCall::Done));
}

#[test]
fn errors_are_put_into_words() {
    assert_eq!(EncodeInteropError::ApiLoad.message(""), "NvEncodeAPICreateInstance failed");
    assert_eq!(
        EncodeInteropError::SessionOpen(15).message(""),
        "nvEncOpenEncodeSessionEx failed: NV_ENC_ERR_INVALID_VERSION (15)"
    );
    assert_eq!(
        EncodeInteropError::Cuda(CudaError::Import(String::from("x"))).message("import: x"),
        "CUDA interop failed: import: x"
    );
    assert_eq!(
        EncodeInteropError::Lock(-3).message(""),
        "nvEncLockBitstream failed: NV_ENC_ERR_<unknown> (-3)"
    );
}

fn job() -> ExportJob {
    ExportJob::web_h264(
        String::from("out.mp4"),
        0,
        30_000,
        1920,
        1080,
        Rational::new(30, 1),
        Rational::new(1, 90_000),
        8,
    )
}

fn open(windows: bool, has_preset_query: bool) -> (SessionOpening, OpenCall) {
    let (mut opening, call) = EncodeInterop::open(&job(), VideoCodec::H264, None, windows);
    assert!(matches!(call, OpenCall::CreateInstance { version: 0x7202_000C }));
    let call = opening.resume(OpenReply::Instance { status: 0, has_open: true, has_preset_query });
    assert!(matches!(
        call,
        OpenCall::OpenSession { version: 0x7201_000C, device_type: 1, api_version: 0x0200_000C }
    ));
    let call = opening.resume(OpenReply::Session { status: 0 });
    (opening, call)
}

fn set_up_slots(opening: &mut SessionOpening, mut call: OpenCall) {
    for i in 0..NVENC_INFLIGHT_SLOTS {
        assert!(matches!(call, OpenCall::AllocateSlot { slot, size: 3_317_760 } if slot == i));
        match opening.resume(OpenReply::Slot { result: Ok(()) }) {
            OpenCall::RegisterResource { slot, params } => {
                assert_eq!(slot, i);
                assert_eq!((params.width, params.height, params.pitch), (1920, 1080, 2048));
                assert_eq!(params.version, 0x7205_000C);
            }
            _ => panic!("the buffer is registered"),
        }
        let bitstream = opening.resume(OpenReply::Registered { status: 0 });
        assert!(matches!(bitstream, OpenCall::CreateBitstream { version: 0x7201_000C, .. }));
        call = opening.resume(OpenReply::Bitstream { status: 0 });
    }
    assert!(matches!(call, OpenCall::Ready));
}

#[test]
fn a_synchronous_session_opens_without_events() {
    let (mut opening, call) = open(false, false);
    match call {
        OpenCall::Initialize { params } => {
            assert_eq!(params.enable_encode_async, 0);
            assert_eq!(params.enable_ptd, 1);
            assert!(!params.explicit_config);
            assert!(!params.hevc);
            assert_eq!(params.version, 0xF207_000C);
            assert!(matches!(params.preset, Preset::P4));
        }
        _ => panic!("the session is initialised"),
    }
    let call = opening.resume(OpenReply::Initialized { status: 0 });
    set_up_slots(&mut opening, call);
    assert!(!opening.state().is_async);
}

#[test]
fn an_asynchronous_session_registers_every_event() {
    let (mut opening, call) = open(true, false);
    assert!(matches!(call, OpenCall::CreateEvents { count: EVENT_COUNT }));
    let call = opening.resume(OpenReply::Events { created: true });
    assert!(matches!(call, OpenCall::Initialize { params } if params.enable_encode_async == 1));
    let mut call = opening.resume(OpenReply::Initialized { status: 0 });
    for i in 0..EVENT_COUNT {
        assert!(matches!(call, OpenCall::RegisterEvent { index, version: 0x7202_000C } if index == i));
        call = opening.resume(OpenReply::EventRegistered { status: 0 });
    }
    set_up_slots(&mut opening, call);
    assert!(opening.state().is_async);
}

#[test]
fn an_event_that_does_not_register_reopens_the_session() {
    let (mut opening, _) = open(true, false);
    let _ = opening.resume(OpenReply::Events { created: true });
    let _ = opening.resume(OpenReply::Initialized { status: 0 });
    let _ = opening.resume(OpenReply::EventRegistered { status: 0 });
    let call = opening.resume(OpenReply::EventRegistered { status: 12 });
    assert!(matches!(call, OpenCall::CloseEvents { unregister: 1, destroy_session: true }));
    let call = opening.resume(OpenReply::EventsClosed);
    assert!(matches!(call, OpenCall::OpenSession { .. }));
    let call = opening.resume(OpenReply::Session { status: 0 });
    assert!(matches!(call, OpenCall::Initialize { params } if params.enable_encode_async == 0));
}

#[test]
fn presets_are_tried_from_the_patched_one_down() {
    let (mut opening, call) = open(false, true);
    assert!(matches!(call, OpenCall::QueryPreset { preset: Preset::P4, tuning_info: 1, .. }));
    let filled = PresetConfig::new(0x0200_000C).raw_bytes().clone();
    let call = opening.resume(OpenReply::Preset { status: 0, filled: filled.clone() });
    assert!(matches!(call, OpenCall::Initialize { params } if params.explicit_config));
    assert_eq!(opening.config().expect("the configuration is in use").frame_interval_p(), 1);
    let call = opening.resume(OpenReply::Initialized { status: 8 });
    assert!(matches!(call, OpenCall::Initialize { params } if !params.explicit_config));
    assert!(opening.config().is_none());
    let call = opening.resume(OpenReply::Initialized { status: 8 });
    assert!(matches!(call, OpenCall::QueryPreset { preset: Preset::P1, tuning_info: 1, .. }));
    let call = opening.resume(OpenReply::Preset { status: 8, filled });
    assert!(matches!(call, OpenCall::Initialize { params } if !params.explicit_config));
    let call = opening.resume(OpenReply::Initialized { status: 8 });
    assert!(matches!(
        call,
        OpenCall::Failed { error: EncodeInteropError::Initialize(8), destroy_session: true }
    ));
}

#[test]
fn a_session_that_cannot_open_leaves_nothing_behind() {
    let (mut opening, _) = EncodeInterop::open(&job(), VideoCodec::H265, Some((13, 0)), true);
    let call =
        opening.resume(OpenReply::Instance { status: 0, has_open: false, has_preset_query: true });
    assert!(matches!(
        call,
        OpenCall::Failed { error: EncodeInteropError::ApiLoad, destroy_session: false }
    ));

    let (mut opening, call) = EncodeInterop::open(&job(), VideoCodec::H265, Some((13, 0)), true);
    assert!(matches!(call, OpenCall::CreateInstance { version: 0x7002_000D }));
    let _ = opening.resume(OpenReply::Instance {
        status: 0,
        has_open: true,
        has_preset_query: false,
    });
    assert!(matches!(
        opening.resume(OpenReply::Session { status: 15 }),
        OpenCall::Failed { error: EncodeInteropError::SessionOpen(15), destroy_session: false }
    ));

    let (mut opening, _) = open(false, false);
    let _ = opening.resume(OpenReply::Initialized { status: 0 });
    let lost = CudaError::Import(String::from("lost"));
    assert!(matches!(
        opening.resume(OpenReply::Slot { result: Err(lost) }),
        OpenCall::Failed {
            error: EncodeInteropError::Cuda(CudaError::Import(_)),
            destroy_session: true
        }
    ));

    let (mut opening, _) = open(false, false);
    let _ = opening.resume(OpenReply::Initialized { status: 0 });
    let _ = opening.resume(OpenReply::Slot { result: Ok(()) });
    assert!(matches!(
        opening.resume(OpenReply::Registered { status: 8 }),
        OpenCall::Failed { error: EncodeInteropError::Register(8), destroy_session: true }
    ));
}

#[test]
fn slots_are_used_in_turn() {
    let enc = session(true);
    let turns: Vec<usize> = (0..6).map(|slot| enc.nv12_buffer_for_slot(slot)).collect();
    assert_eq!(turns, vec![0, 1, 2, 3, 0, 1]);
}

#[test]
fn repack_covers_the_frame() {
    assert_eq!(Abgr10RepackNode::record(1920, 1080), (240, 135));
    assert_eq!(Abgr10RepackNode::record(1921, 1), (241, 1));
    assert_eq!(Abgr10RepackNode::record(0, 0), (0, 0));
}
