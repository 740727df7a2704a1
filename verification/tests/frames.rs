use nexir::interop::capability::{InteropCapability, InteropTransport};
use nexir::io::decoder::DecodedFrame;
use nexir::io::demuxer::Packet;
use nexir::io::ffi::hw_accel::HwDeviceType;
use nexir::io::frame_cache::FrameCache;
use nexir::io::interop_decode::{DecodeOutcome, InteropDecodeTargets, InteropPlanes};
use nexir::io::io_layer::{DecodeRun, IoCall, IoLayer, IoReply, SourceFacts, MAX_PACKETS};
use nexir::io::prefetch::{
    serving_order, PrefetchCall, PrefetchEvent, PrefetchRequest, PrefetchWorker, PREFETCH_DEPTH,
};
use nexir::io::slot_pool::{FrameSlotId, FrameSlotPool, SlotTier};
use nexir::timeline::{
    ColorInfo, DecodedFrameMeta, FrameLayout, PixelFormat, Rational, SourceId, VideoStreamInfo,
};

#[test]
fn a_tier_hands_out_each_slot_once() {
    let mut tier = SlotTier::new(16, 3);
    let mut taken: Vec<u16> = Vec::new();
    while let Some(id) = tier.acquire(1) {
        assert_eq!(id.tier, 1);
        assert!(!taken.contains(&id.index()));
        taken.push(id.index());
    }
    assert_eq!(taken.len(), 3);
    tier.release(FrameSlotId { tier: 1, index: 2 });
    assert_eq!(tier.acquire(1), Some(FrameSlotId { tier: 1, index: 2 }));
    assert_eq!(tier.acquire(1), None);
}

#[test]
fn buffers_keep_what_is_written() {
    let mut tier = SlotTier::new(4, 2);
    let n = tier.with_buffer_mut(1, |buffer: &mut [u8]| {
        buffer[0] = 7;
        buffer.len()
    });
    assert_eq!(n, 4);
    assert_eq!(tier.with_buffer_read(1, |buffer: &[u8]| buffer.to_vec()), vec![7, 0, 0, 0]);
    assert_eq!(tier.with_buffer_read(0, |buffer: &[u8]| buffer.to_vec()), vec![0, 0, 0, 0]);
}

#[test]
fn the_pool_picks_the_smallest_tier_that_fits() {
    let mut pool = FrameSlotPool::new();
    assert_eq!(pool.tier_for(0), Some(0));
    assert_eq!(pool.tier_for(3_110_400), Some(0));
    assert_eq!(pool.tier_for(3_110_401), Some(1));
    assert_eq!(pool.tier_for(12_441_600), Some(2));
    assert_eq!(pool.tier_for(49_766_400), Some(3));
    assert_eq!(pool.tier_for(49_766_401), None);

    let first = pool.acquire(40_000_000).expect("a slot is free");
    assert_eq!(first.tier, 3);
    let second = pool.acquire(40_000_000).expect("a slot is free");
    assert_ne!(first, second);
    assert_eq!(pool.acquire(40_000_000), None, "a full tier does not borrow from another");
    pool.release(first);
    assert_eq!(pool.acquire(40_000_000), Some(first));
    assert_eq!(pool.acquire(50_000_000), None);

    pool.with_buffer_mut(second, |buffer: &mut [u8]| buffer[9] = 3);
    assert_eq!(pool.with_buffer_read(second, |buffer: &[u8]| buffer[9]), 3);
}

#[test]
fn a_slot_is_zero_until_written_and_keeps_what_was_written() {
    let mut pool = FrameSlotPool::new();
    let a = FrameSlotId { tier: 0, index: 3 };
    let b = FrameSlotId { tier: 0, index: 4 };
    assert!(pool.contains(a));
    assert!(!pool.contains(FrameSlotId { tier: 0, index: 32 }));
    assert!(!pool.contains(FrameSlotId { tier: 4, index: 0 }));
    pool.with_buffer_mut(b, |buffer: &mut [u8]| buffer.fill(7));
    let zeros = pool.with_buffer_read(a, |buffer: &[u8]| {
        buffer.len() == 3_110_400 && buffer.iter().all(|byte| *byte == 0)
    });
    assert!(zeros);
    pool.with_buffer_mut(a, |buffer: &mut [u8]| buffer.fill(9));
    pool.with_buffer_mut(b, |buffer: &mut [u8]| buffer.fill(8));
    let held = pool.acquire(100).expect("a slot is free");
    pool.release(held);
    let kept = pool.with_buffer_read(a, |buffer: &[u8]| {
        buffer.len() == 3_110_400 && buffer.iter().all(|byte| *byte == 9)
    });
    assert!(kept);
}

const A: SourceId = SourceId { id: 1 };
const B: SourceId = SourceId { id: 2 };

fn nv12() -> DecodedFrameMeta {
    DecodedFrameMeta {
        layout: FrameLayout { bit_depth: 8, semi_planar: true, msb_aligned: false },
        color: ColorInfo::bt709(),
    }
}

fn planar() -> DecodedFrameMeta {
    DecodedFrameMeta {
        layout: FrameLayout { bit_depth: 8, semi_planar: false, msb_aligned: false },
        color: ColorInfo::bt709(),
    }
}

fn slot(pool: &mut FrameSlotPool) -> FrameSlotId {
    pool.acquire(20_000_000).expect("a slot is free")
}

#[test]
fn the_cache_gives_back_what_was_inserted() {
    let mut pool = FrameSlotPool::new();
    let mut cache = FrameCache::new(4);
    assert_eq!(cache.len(), 0);
    let id = slot(&mut pool);
    cache.insert(&mut pool, A, 100, id, nv12());
    assert_eq!(cache.get(A, 100), Some((id, nv12())));
    assert_eq!(cache.get(A, 101), None);
    assert_eq!(cache.get(B, 100), None);
    assert_eq!(cache.touch(A, 100), Some((id, nv12())));
    assert_eq!(cache.len(), 1);
}

#[test]
fn a_full_cache_drops_the_least_recently_used_frame() {
    let mut pool = FrameSlotPool::new();
    let mut cache = FrameCache::new(2);
    let small = |pool: &mut FrameSlotPool| pool.acquire(10).expect("a slot is free");
    let first = small(&mut pool);
    let second = small(&mut pool);
    let third = small(&mut pool);
    cache.insert(&mut pool, A, 1, first, planar());
    cache.insert(&mut pool, A, 2, second, planar());
    let _ = cache.touch(A, 1);
    cache.insert(&mut pool, B, 3, third, nv12());
    assert_eq!(cache.get(A, 2), None, "the one not used lately went");
    assert_eq!(cache.get(A, 1), Some((first, planar())));
    assert_eq!(cache.get(B, 3), Some((third, nv12())));
    assert_eq!(cache.len(), 2);
    assert_eq!(pool.acquire(10), Some(second), "its slot is free again");
}

#[test]
fn looking_without_touching_keeps_the_order() {
    let mut pool = FrameSlotPool::new();
    let mut cache = FrameCache::new(2);
    for pts in [1, 2] {
        let id = pool.acquire(10).expect("a slot is free");
        cache.insert(&mut pool, A, pts, id, planar());
    }
    let _ = cache.get(A, 1);
    let id = pool.acquire(10).expect("a slot is free");
    cache.insert(&mut pool, A, 3, id, planar());
    assert!(cache.get(A, 1).is_none());
    assert!(cache.get(A, 2).is_some());
}

#[test]
fn a_frame_inserted_twice_frees_the_older_slot() {
    let mut pool = FrameSlotPool::new();
    let mut cache = FrameCache::new(4);
    let first = slot(&mut pool);
    let second = slot(&mut pool);
    assert_eq!(pool.acquire(20_000_000), None);
    cache.insert(&mut pool, A, 5, first, planar());
    cache.insert(&mut pool, A, 5, second, nv12());
    assert_eq!(cache.len(), 1);
    assert_eq!(cache.get(A, 5), Some((second, nv12())));
    assert_eq!(pool.acquire(20_000_000), Some(first));
}

#[test]
fn eviction_frees_slots() {
    let mut pool = FrameSlotPool::new();
    let mut cache = FrameCache::new(8);
    assert!(!cache.evict_one(&mut pool));
    let first = slot(&mut pool);
    let second = slot(&mut pool);
    cache.insert(&mut pool, A, 1, first, planar());
    cache.insert(&mut pool, B, 1, second, planar());
    assert!(cache.evict_one(&mut pool));
    assert_eq!(cache.get(A, 1), None);
    assert_eq!(pool.acquire(20_000_000), Some(first));
    cache.evict_source(&mut pool, A);
    assert_eq!(cache.len(), 1);
    cache.evict_source(&mut pool, B);
    assert_eq!(cache.len(), 0);
    assert_eq!(pool.acquire(20_000_000), Some(second));
}

#[test]
fn clearing_returns_every_slot() {
    let mut pool = FrameSlotPool::new();
    let mut cache = FrameCache::new(8);
    for pts in 0..2 {
        let id = slot(&mut pool);
        cache.insert(&mut pool, A, pts, id, planar());
    }
    cache.clear_all(&mut pool);
    assert_eq!(cache.len(), 0);
    assert!(cache.get(A, 0).is_none());
    assert!(pool.acquire(20_000_000).is_some());
    assert!(pool.acquire(20_000_000).is_some());
}

fn info() -> VideoStreamInfo {
    VideoStreamInfo {
        width: 1920,
        height: 1080,
        frame_rate: Rational { num: 30, den: 1 },
        pixel_fmt: PixelFormat::Nv12,
        color_info: ColorInfo::bt709(),
        duration_pts: 0,
        is_vfr: false,
        time_base: Rational { num: 1, den: 90_000 },
    }
}

fn facts(id: u32) -> SourceFacts {
    SourceFacts {
        source_id: SourceId::new(id),
        resolved: SourceId::new(id),
        still: false,
        resolved_still: false,
        has_path: true,
        frame_bytes: Some(3_110_400),
        info: Some(info()),
    }
}

fn layer(capacity: usize) -> IoLayer {
    IoLayer::new(
        FrameSlotPool::new(),
        FrameCache::new(capacity),
        InteropDecodeTargets::disabled(),
        Rational::new(1, 90_000),
    )
}

fn packet(pts: i64) -> Packet {
    Packet { handle: pts as u64, stream_index: 0, pts, duration: 3000 }
}

fn frame(pts: i64) -> DecodedFrame {
    DecodedFrame {
        pts,
        width: 1920,
        height: 1080,
        meta: nv12(),
    }
}

fn open(layer: &mut IoLayer, run: &mut DecodeRun, call: IoCall) -> IoCall {
    assert!(matches!(call, IoCall::OpenDemuxer { .. }));
    let call = run.resume(layer, IoReply::Opened { handle: Some(10) });
    assert!(matches!(call, IoCall::OpenDecoder { demuxer: 10, software: false, .. }));
    run.resume(layer, IoReply::Opened { handle: Some(20) })
}

fn position(layer: &mut IoLayer, run: &mut DecodeRun, target: i64) -> IoCall {
    run.resume(layer, IoReply::Positioned { target: Some(target), hw: HwDeviceType::Cuda })
}

fn decode(layer: &mut IoLayer, id: u32, pts: i64) -> IoCall {
    let (mut run, mut call) = layer.decode_blocking(facts(id), pts);
    if matches!(call, IoCall::OpenDemuxer { .. }) {
        call = open(layer, &mut run, call);
    }
    if matches!(call, IoCall::Position { .. }) {
        call = position(layer, &mut run, pts);
        assert!(matches!(call, IoCall::ReadPacket { demuxer: 10 }));
        let _ = run.resume(layer, IoReply::Packet { packet: Some(packet(pts)) });
        call = run.resume(layer, IoReply::Decoded { frame: Some(frame(pts)) });
    }
    call
}

#[test]
fn a_frame_is_decoded_once_and_found_again() {
    let mut layer = layer(8);
    match layer.get_or_decode(A, 3000) {
        Err(request) => {
            assert_eq!((request.source_id, request.pts, request.priority), (A, 3000, 0))
        }
        Ok(_) => panic!("nothing is cached yet"),
    }
    let slot = match decode(&mut layer, 1, 3000) {
        IoCall::Cached { slot, meta } => {
            assert_eq!(meta, nv12());
            slot
        }
        _ => panic!("the frame is decoded"),
    };
    assert!(matches!(layer.get_or_decode(A, 3000), Ok((s, meta)) if s == slot && meta == nv12()));
    let (_, again) = layer.decode_blocking(facts(1), 3000);
    assert!(matches!(again, IoCall::Cached { slot: s, .. } if s == slot));
}

#[test]
fn playing_forward_does_not_seek() {
    let mut layer = layer(8);
    let (mut run, call) = layer.decode_blocking(facts(1), 3000);
    let call = open(&mut layer, &mut run, call);
    assert!(matches!(call, IoCall::Position { pts: 3000, seek: true, flush: true, .. }));
    let _ = position(&mut layer, &mut run, 3000);
    let _ = run.resume(&mut layer, IoReply::Packet { packet: Some(packet(3000)) });
    let _ = run.resume(&mut layer, IoReply::Decoded { frame: Some(frame(3000)) });

    let (_, call) = layer.decode_blocking(facts(1), 6000);
    assert!(matches!(call, IoCall::Position { pts: 6000, seek: false, flush: false, .. }));
    let (_, call) = layer.decode_blocking(facts(1), 0);
    assert!(matches!(call, IoCall::Position { seek: true, .. }), "backwards");
    let (_, call) = layer.decode_blocking(facts(1), 3000 + 450_001);
    assert!(matches!(call, IoCall::Position { seek: true, .. }), "far ahead");
}

#[test]
fn frames_before_the_target_are_passed_over() {
    let mut layer = layer(8);
    let (mut run, call) = layer.decode_blocking(facts(1), 6000);
    let _ = open(&mut layer, &mut run, call);
    let _ = position(&mut layer, &mut run, 6000);
    let _ = run.resume(&mut layer, IoReply::Packet { packet: Some(packet(0)) });
    let call = run.resume(&mut layer, IoReply::Decoded { frame: Some(frame(3000)) });
    assert!(matches!(call, IoCall::ReadPacket { .. }));
    let _ = run.resume(&mut layer, IoReply::Packet { packet: Some(packet(6000)) });
    let call = run.resume(&mut layer, IoReply::Decoded { frame: Some(frame(0)) });
    assert!(matches!(call, IoCall::Cached { .. }), "a frame without a time goes by its packet's");
}

#[test]
fn the_end_of_the_file_is_drained() {
    let mut layer = layer(8);
    let (mut run, call) = layer.decode_blocking(facts(1), 6000);
    let _ = open(&mut layer, &mut run, call);
    let _ = position(&mut layer, &mut run, 6000);
    let call = run.resume(&mut layer, IoReply::Packet { packet: None });
    assert!(matches!(call, IoCall::Drain { decoder: 20, .. }));
    let call = run.resume(&mut layer, IoReply::Decoded { frame: Some(frame(3000)) });
    assert!(matches!(call, IoCall::Drain { .. }));
    let call = run.resume(&mut layer, IoReply::Decoded { frame: None });
    assert!(matches!(call, IoCall::NoFrame));
    assert_eq!(layer.cache.len(), 0);
    assert_eq!(layer.pool.acquire(3_110_400), Some(FrameSlotId { tier: 0, index: 31 }));
}

#[test]
fn past_the_end_the_last_frame_is_shown_again() {
    let mut layer = layer(8);
    let last = match decode(&mut layer, 1, 3000) {
        IoCall::Cached { slot, .. } => slot,
        _ => panic!("the frame is decoded"),
    };
    let (mut run, _) = layer.decode_blocking(facts(1), 6000);
    let _ = position(&mut layer, &mut run, 6000);
    let _ = run.resume(&mut layer, IoReply::Packet { packet: None });
    let call = run.resume(&mut layer, IoReply::Decoded { frame: None });
    assert!(matches!(call, IoCall::Cached { slot, .. } if slot == last));
}

#[test]
fn reading_is_bounded() {
    let mut layer = layer(8);
    let (mut run, call) = layer.decode_blocking(facts(1), 6000);
    let _ = open(&mut layer, &mut run, call);
    let mut call = position(&mut layer, &mut run, 6000);
    let mut packets: u32 = 0;
    while matches!(call, IoCall::ReadPacket { .. }) {
        packets += 1;
        let _ = run.resume(&mut layer, IoReply::Packet { packet: Some(packet(0)) });
        call = run.resume(&mut layer, IoReply::Decoded { frame: None });
    }
    assert_eq!(packets, MAX_PACKETS);
    assert!(matches!(call, IoCall::NoFrame));
}

#[test]
fn the_cache_makes_room_for_a_slot() {
    let mut layer = layer(64);
    let mut big = facts(1);
    big.frame_bytes = Some(40_000_000);
    for i in 0..3i64 {
        let (mut run, mut call) = layer.decode_blocking(big, i * 3000);
        if i == 0 {
            call = open(&mut layer, &mut run, call);
        }
        assert!(matches!(call, IoCall::Position { .. }));
        let _ = position(&mut layer, &mut run, i * 3000);
        let _ = run.resume(&mut layer, IoReply::Packet { packet: Some(packet(i * 3000)) });
        let call = run.resume(&mut layer, IoReply::Decoded { frame: Some(frame(i * 3000)) });
        assert!(matches!(call, IoCall::Cached { slot, .. } if slot.tier == 3));
    }
    assert_eq!(layer.cache.len(), 2);
    assert!(layer.cache.get(A, 0).is_none());
}

#[test]
fn a_still_image_is_opened_afresh_and_not_sought() {
    let mut layer = layer(8);
    let mut still = facts(1);
    still.still = true;
    still.resolved_still = true;
    let (mut run, call) = layer.decode_blocking(still, 9000);
    assert!(matches!(call, IoCall::Close { demuxer: None, decoder: None }));
    let call = run.resume(&mut layer, IoReply::Closed);
    assert!(matches!(call, IoCall::OpenDemuxer { .. }));
    let call = run.resume(&mut layer, IoReply::Opened { handle: Some(10) });
    assert!(matches!(call, IoCall::OpenDecoder { software: true, .. }));
    let call = run.resume(&mut layer, IoReply::Opened { handle: Some(20) });
    assert!(matches!(call, IoCall::Position { pts: 0, seek: false, flush: true, .. }));
    let (_, call) = layer.decode_blocking(still, 12_000);
    assert!(matches!(call, IoCall::Close { demuxer: Some(10), decoder: Some(20) }));
}

#[test]
fn what_cannot_be_opened_gives_no_frame() {
    let mut layer = layer(8);
    let mut missing = facts(1);
    missing.has_path = false;
    assert!(matches!(layer.decode_blocking(missing, 0).1, IoCall::NoFrame));
    let (mut run, _) = layer.decode_blocking(facts(1), 0);
    assert!(matches!(
        run.resume(&mut layer, IoReply::Opened { handle: None }),
        IoCall::NoFrame
    ));
    let (mut run, _) = layer.decode_blocking(facts(1), 0);
    let _ = run.resume(&mut layer, IoReply::Opened { handle: Some(10) });
    assert!(matches!(
        run.resume(&mut layer, IoReply::Opened { handle: None }),
        IoCall::NoFrame
    ));
    let mut unknown = facts(2);
    unknown.frame_bytes = None;
    let (mut run, call) = layer.decode_blocking(unknown, 0);
    let _ = open(&mut layer, &mut run, call);
    assert!(matches!(position(&mut layer, &mut run, 0), IoCall::NoFrame));
}

#[test]
fn a_new_project_starts_with_nothing() {
    let mut layer = layer(8);
    let _ = decode(&mut layer, 1, 3000);
    let _ = decode(&mut layer, 2, 0);
    layer.reset_for_new_project();
    assert_eq!(layer.cache.len(), 0);
    let (_, call) = layer.decode_blocking(facts(1), 3000);
    assert!(matches!(call, IoCall::OpenDemuxer { .. }));
}

#[test]
fn an_export_primes_time_by_time() {
    let requests = IoLayer::prime_export_prefetch(&vec![A, B], &vec![0, 3000]);
    let wanted: Vec<(u32, i64, u8)> =
        requests.iter().map(|r| (r.source_id.id, r.pts, r.priority)).collect();
    assert_eq!(wanted, vec![(1, 0, 0), (2, 0, 0), (1, 3000, 0), (2, 3000, 0)]);
}

fn texture_layer() -> IoLayer {
    let capability = InteropCapability {
        transport: InteropTransport::D3D12Win32Handle,
        cuda_device_ordinal: 0,
        driver_version: String::from("12.2"),
    };
    IoLayer::new(
        FrameSlotPool::new(),
        FrameCache::new(8),
        InteropDecodeTargets::new(capability, true),
        Rational::new(1, 90_000),
    )
}

#[test]
fn frames_are_decoded_into_textures_where_they_can_be() {
    let mut layer = texture_layer();
    assert!(layer.interop().is_available());
    let (mut run, call) = layer.decode_interop(facts(1), 3000);
    let _ = open(&mut layer, &mut run, call);
    let call = position(&mut layer, &mut run, 3000);
    assert!(matches!(call, IoCall::ReadPacket { .. }));
    let call = run.resume(&mut layer, IoReply::Packet { packet: Some(packet(3000)) });
    assert!(matches!(call, IoCall::AllocateTextures { width: 1920, height: 1080 }));
    let planes = InteropPlanes { y: 1, uv: 2 };
    let call = run.resume(&mut layer, IoReply::Allocated { planes: Some(planes) });
    assert!(matches!(call, IoCall::DecodeTextures { decoder: 20, wait: None, .. }));
    let outcome = DecodeOutcome::Frame(frame(3000));
    match run.resume(&mut layer, IoReply::Outcome { outcome }) {
        IoCall::Resident { frame } => assert_eq!(frame.planes, planes),
        _ => panic!("the frame is in the textures"),
    }
    let (_, again) = layer.decode_interop(facts(1), 3000);
    assert!(matches!(again, IoCall::Resident { .. }));
    assert_eq!(layer.cache.len(), 0);
}

#[test]
fn textures_are_not_tried_in_vain() {
    let plain = layer(8);
    assert!(matches!(plain.decode_interop(facts(1), 0).1, IoCall::NoFrame));
    let textures = texture_layer();
    let mut still = facts(1);
    still.resolved_still = true;
    assert!(matches!(textures.decode_interop(still, 0).1, IoCall::NoFrame));
    let mut unknown = facts(1);
    unknown.info = None;
    assert!(matches!(textures.decode_interop(unknown, 0).1, IoCall::NoFrame));

    let mut layer = texture_layer();
    let (mut run, call) = layer.decode_interop(facts(1), 0);
    let _ = open(&mut layer, &mut run, call);
    let _ = position(&mut layer, &mut run, 0);
    let _ = run.resume(&mut layer, IoReply::Packet { packet: Some(packet(0)) });
    let call = run.resume(&mut layer, IoReply::Allocated { planes: None });
    assert!(matches!(call, IoCall::NoFrame));
    assert!(matches!(layer.decode_interop(facts(1), 0).1, IoCall::NoFrame));
}

fn request(id: u32, pts: i64, priority: u8) -> PrefetchRequest {
    PrefetchRequest { source_id: SourceId::new(id), pts, priority }
}

#[test]
fn the_most_urgent_request_is_served_first() {
    assert_eq!(PREFETCH_DEPTH, 8);
    let order = serving_order(&vec![
        request(1, 0, 0),
        request(2, 0, 5),
        request(3, 0, 2),
        request(3, 0, 2),
    ]);
    let ids: Vec<u32> = order.iter().map(|r| r.source_id.id).collect();
    assert_eq!(ids, vec![2, 3, 1]);
    assert!(serving_order(&vec![]).is_empty());
}

#[test]
fn the_prefetcher_decodes_what_is_not_cached() {
    let (mut worker, call) = PrefetchWorker::new();
    assert!(matches!(call, PrefetchCall::CheckShutdown));
    let call = worker.run(PrefetchEvent::Shutdown { set: false });
    assert!(matches!(call, PrefetchCall::Poll));
    let requests = vec![request(1, 0, 9), request(2, 0, 0)];
    let call = worker.run(PrefetchEvent::Polled { requests, connected: true });
    assert!(matches!(call, PrefetchCall::CheckShutdown));
    match worker.run(PrefetchEvent::Shutdown { set: false }) {
        PrefetchCall::CheckCache { request } => assert_eq!(request.source_id.id, 2),
        _ => panic!("the cache is asked first"),
    }
    match worker.run(PrefetchEvent::Cached { hit: false }) {
        PrefetchCall::Decode { request } => assert_eq!(request.source_id.id, 2),
        _ => panic!("the frame is decoded"),
    }
    let _ = worker.run(PrefetchEvent::Decoded);
    match worker.run(PrefetchEvent::Shutdown { set: false }) {
        PrefetchCall::CheckCache { request } => assert_eq!(request.source_id.id, 1),
        _ => panic!("the next request follows"),
    }
    let call = worker.run(PrefetchEvent::Cached { hit: true });
    assert!(matches!(call, PrefetchCall::CheckShutdown));
    let _ = worker.run(PrefetchEvent::Shutdown { set: false });
    let call = worker.run(PrefetchEvent::Polled { requests: vec![], connected: true });
    assert!(matches!(call, PrefetchCall::Sleep));
    let _ = worker.run(PrefetchEvent::Slept);
    let _ = worker.run(PrefetchEvent::Shutdown { set: false });
    let call = worker.run(PrefetchEvent::Polled { requests: vec![], connected: false });
    assert!(matches!(call, PrefetchCall::Stop));
}

#[test]
fn shutting_down_interrupts_a_round() {
    let (mut worker, _) = PrefetchWorker::new();
    let _ = worker.run(PrefetchEvent::Shutdown { set: false });
    let requests = vec![request(1, 0, 0)];
    let _ = worker.run(PrefetchEvent::Polled { requests, connected: true });
    assert!(matches!(worker.run(PrefetchEvent::Shutdown { set: true }), PrefetchCall::Stop));
}
