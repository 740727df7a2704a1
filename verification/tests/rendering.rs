use nexir::export::decode_worker::{
    build_work_items, DecodeSync, ExportDecodeWorker, WorkerCall, WorkerEvent, DECODE_LOOKAHEAD,
};
use nexir::export::job::{ExportJob, VideoCodec};
use nexir::export::partitioner::{ExportSegment, SegmentPartitioner};
use nexir::export::queue::{EncoderQueue, QueueItem, QUEUE_DEPTH};
use nexir::export::readback::{FrameReadback, ROW_ALIGNMENT};
use nexir::export::renderer::{
    ExportBackend, ExportRenderer, RawFrame, RenderCall, RenderError, RenderEvent,
};
use nexir::timeline::{Rational, SourceId};

fn job(frames: i64, threads: usize) -> ExportJob {
    let mut j = ExportJob::web_h264(
        String::from("out.mp4"),
        0,
        frames * 3000,
        1920,
        1080,
        Rational::new(30, 1),
        Rational::new(1, 90_000),
        2,
    );
    j.render_threads = threads;
    j.video_codec = VideoCodec::H264;
    j
}

#[test]
fn segments_cover_the_job_without_gaps() {
    let j = job(10, 4);
    let segments = SegmentPartitioner::partition(&j);
    let bounds: Vec<(usize, usize)> =
        segments.iter().map(|s| (s.frame_start, s.frame_end)).collect();
    assert_eq!(bounds, vec![(0, 3), (3, 6), (6, 9), (9, 10)]);
    for pair in segments.windows(2) {
        assert!(SegmentPartitioner::are_contiguous(&pair[0], &pair[1]));
    }
    assert_eq!(segments[0].pts_start, j.pts_in);
    assert_eq!(segments[1].pts_start, 9000);
    assert_eq!(segments[3].pts_end, j.pts_out);
    assert_eq!(segments.iter().map(|s| s.frame_count()).sum::<usize>(), 10);
}

#[test]
fn there_are_no_empty_segments() {
    let few = SegmentPartitioner::partition(&job(3, 8));
    assert_eq!(few.len(), 3);
    let uneven = SegmentPartitioner::partition(&job(9, 6));
    let bounds: Vec<(usize, usize)> = uneven.iter().map(|s| (s.frame_start, s.frame_end)).collect();
    assert_eq!(bounds, vec![(0, 2), (2, 4), (4, 6), (6, 8), (8, 9)]);
}

#[test]
fn segments_apart_are_not_contiguous() {
    let a = ExportSegment { index: 0, frame_start: 0, frame_end: 3, pts_start: 0, pts_end: 9000 };
    let b = ExportSegment { index: 1, frame_start: 3, frame_end: 6, pts_start: 9001, pts_end: 1 };
    assert!(!SegmentPartitioner::are_contiguous(&a, &b));
}

fn raw(frame_index: usize) -> RawFrame {
    RawFrame { frame_index, pts: frame_index as i64 * 3000, data: vec![frame_index as u8] }
}

#[test]
fn the_queue_is_first_in_first_out_and_bounded() {
    let mut queue = EncoderQueue::new();
    assert!(queue.is_empty());
    assert!(queue.try_pop().is_none());
    for i in 0..QUEUE_DEPTH {
        assert!(!queue.is_full());
        queue.push(QueueItem::Frame(raw(i)));
    }
    assert!(queue.is_full());
    assert!(matches!(queue.pop(), Some(QueueItem::Frame(f)) if f.frame_index == 0));
    queue.push(QueueItem::SegmentDone { segment_index: 4 });
    for i in 1..QUEUE_DEPTH {
        assert!(matches!(queue.try_pop(), Some(QueueItem::Frame(f)) if f.frame_index == i));
    }
    assert!(matches!(queue.pop(), Some(QueueItem::SegmentDone { segment_index: 4 })));
    assert!(queue.is_empty());
}

#[test]
fn items_leave_in_the_order_they_came() {
    let mut queue = EncoderQueue::new();
    let mut taken: Vec<usize> = Vec::new();
    let mut next = 0;
    for round in [3, 1, 4, 2] {
        for _ in 0..round {
            queue.push(QueueItem::SegmentDone { segment_index: next });
            next += 1;
        }
        for _ in 0..2 {
            match queue.try_pop() {
                Some(QueueItem::SegmentDone { segment_index }) => taken.push(segment_index),
                _ => panic!("there is an item"),
            }
        }
    }
    assert_eq!(taken, (0..8).collect::<Vec<usize>>());
    assert!(!queue.is_empty(), "two are still in line");
}

#[test]
fn the_end_marker_is_reported_as_the_end() {
    let mut queue = EncoderQueue::new();
    queue.push(QueueItem::AllDone);
    assert!(matches!(queue.pop(), None | Some(QueueItem::AllDone)));
    assert!(queue.is_empty());
}

#[test]
fn work_is_sorted_by_source() {
    let frames = vec![
        (0, SourceId::new(5), 0i64),
        (0, SourceId::new(2), 100),
        (1, SourceId::new(5), 3000),
        (2, SourceId::new(2), 6100),
    ];
    let work = build_work_items(&frames);
    assert_eq!(work.len(), 2);
    assert_eq!(work[&5], vec![(0, 0i64), (1, 3000)]);
    assert_eq!(work[&2], vec![(0, 100i64), (2, 6100)]);
    assert!(build_work_items(&vec![]).is_empty());
}

#[test]
fn decoding_runs_ahead_only_so_far() {
    let mut sync = DecodeSync::new();
    assert!(!sync.must_wait(DECODE_LOOKAHEAD - 1));
    assert!(sync.must_wait(DECODE_LOOKAHEAD + 1));
    sync.advance_cursor(4);
    assert_eq!(sync.render_cursor, 5);
    sync.advance_cursor(2);
    assert_eq!(sync.render_cursor, 5, "the cursor does not go back");
}

#[test]
fn a_worker_decodes_what_is_not_cached() {
    let mut worker = ExportDecodeWorker::new(SourceId::new(1), vec![(0, 10), (40, 20)]);
    assert!(matches!(
        worker.run(WorkerEvent::Cursor { render_cursor: 0 }),
        WorkerCall::LookUp { pts: 10 }
    ));
    assert!(matches!(worker.run(WorkerEvent::Cached { hit: false }), WorkerCall::Decode { pts: 10 }));
    assert!(matches!(worker.run(WorkerEvent::Decoded), WorkerCall::CheckCursor));
    assert!(matches!(worker.run(WorkerEvent::Cursor { render_cursor: 0 }), WorkerCall::Wait));
    assert!(matches!(
        worker.run(WorkerEvent::Cursor { render_cursor: 30 }),
        WorkerCall::LookUp { pts: 20 }
    ));
    assert!(matches!(worker.run(WorkerEvent::Cached { hit: true }), WorkerCall::CheckCursor));
    assert!(matches!(worker.run(WorkerEvent::Cursor { render_cursor: 41 }), WorkerCall::Finished));
}

#[test]
fn rows_are_padded_as_little_as_possible() {
    let readback = FrameReadback::new(100, 3);
    assert_eq!(readback.bytes_per_row, 1024);
    assert_eq!(readback.buffer_size, 3072);
    assert_eq!(readback.bytes_per_row % ROW_ALIGNMENT, 0);
    let exact = FrameReadback::new(32, 1);
    assert_eq!(exact.bytes_per_row, 256);
}

#[test]
fn padding_is_stripped() {
    let mut readback = FrameReadback::new(2, 3);
    assert_eq!(readback.bytes_per_row, 256);
    let mut padded = vec![0xEEu8; 768];
    for row in 0..3usize {
        for i in 0..16usize {
            padded[row * 256 + i] = (row * 16 + i) as u8;
        }
    }
    readback.strip_padding(&padded);
    let expected: Vec<u8> = (0..48).collect();
    assert_eq!(readback.strip_buf, expected);
    readback.strip_padding(&padded);
    assert_eq!(readback.strip_buf, expected, "nothing is left of the frame before");
    assert_eq!(readback.strip_padding(&padded[..512 + 16]), expected, "the last row unpadded");
    assert!(FrameReadback::new(2, 0).strip_padding(&[]).is_empty());
}

fn segment(frame_start: usize, frame_end: usize) -> ExportSegment {
    ExportSegment {
        index: 0,
        frame_start,
        frame_end,
        pts_start: frame_start as i64 * 3000,
        pts_end: frame_end as i64 * 3000,
    }
}

#[test]
fn a_cpu_segment_delivers_its_frames_in_order() {
    let j = job(3, 1);
    let mut renderer = ExportRenderer::new(j.clone(), ExportBackend::Cpu);
    let (mut run, mut call) = renderer.render_segment(&segment(0, 3));
    let mut delivered: Vec<(usize, i64)> = Vec::new();
    let mut done = false;
    for _ in 0..200 {
        let event = match call {
            RenderCall::CheckControl => RenderEvent::Control { cancelled: false, paused: false },
            RenderCall::Render { .. } => RenderEvent::Rendered { ok: true },
            RenderCall::ReadBack { frame_idx, .. } => {
                RenderEvent::ReadBack { data: Some(vec![frame_idx as u8]) }
            }
            RenderCall::Deliver { frame, frames_done } => {
                assert_eq!(frame.data, vec![frame.frame_index as u8]);
                delivered.push((frame.frame_index, frame.pts));
                assert_eq!(frames_done, delivered.len());
                RenderEvent::Delivered
            }
            RenderCall::SegmentDone { segment_index } => {
                assert_eq!(segment_index, 0);
                done = true;
                break;
            }
            RenderCall::Finished => {
                done = true;
                break;
            }
            _ => panic!("nothing else is asked for"),
        };
        call = run.resume(&j, event);
    }
    assert!(done);
    assert_eq!(delivered, vec![(0, 0), (1, 3000), (2, 6000)]);
    renderer.segment_over(&run);
    assert_eq!(renderer.frames_done, 3);
}

#[test]
fn a_gpu_segment_reclaims_its_slots() {
    let j = job(5, 1);
    let renderer = ExportRenderer::new(j.clone(), ExportBackend::GpuNvenc { slots: 2 });
    let (mut run, mut call) = renderer.render_segment(&segment(0, 5));
    let mut submitted: Vec<(usize, usize)> = Vec::new();
    let mut finished = false;
    for _ in 0..400 {
        let event = match call {
            RenderCall::CheckControl => RenderEvent::Control { cancelled: false, paused: false },
            RenderCall::Reclaim { .. } => RenderEvent::Reclaimed { ok: true },
            RenderCall::Render { .. } => RenderEvent::Rendered { ok: true },
            RenderCall::Submit { frame_idx, slot, .. } => {
                submitted.push((frame_idx, slot));
                RenderEvent::Submitted { ok: true }
            }
            RenderCall::Report { .. } => RenderEvent::Reported,
            RenderCall::Finished => {
                finished = true;
                break;
            }
            _ => panic!("nothing else is asked for"),
        };
        call = run.resume(&j, event);
    }
    assert!(finished);
    assert_eq!(submitted, vec![(0, 0), (1, 1), (2, 0), (3, 1), (4, 0)]);
}

#[test]
fn pausing_waits_and_cancelling_stops() {
    let j = job(2, 1);
    let renderer = ExportRenderer::new(j.clone(), ExportBackend::Cpu);
    let (mut run, call) = renderer.render_segment(&segment(0, 2));
    assert!(matches!(call, RenderCall::CheckControl));
    let paused = run.resume(&j, RenderEvent::Control { cancelled: false, paused: true });
    assert!(matches!(paused, RenderCall::Paused { frames_done: 0 }));
    let cancelled = run.resume(&j, RenderEvent::Control { cancelled: true, paused: true });
    assert!(matches!(cancelled, RenderCall::Cancelled { frames_done: 0 }));
}

#[test]
fn a_graph_that_does_not_compile_fails_the_segment() {
    let j = job(2, 1);
    let renderer = ExportRenderer::new(j.clone(), ExportBackend::Cpu);
    let (mut run, _) = renderer.render_segment(&segment(0, 2));
    let _ = run.resume(&j, RenderEvent::Control { cancelled: false, paused: false });
    let failed = run.resume(&j, RenderEvent::Rendered { ok: false });
    assert!(matches!(failed, RenderCall::Failed { error: RenderError::GraphOutput }));
}

#[test]
fn an_empty_gpu_segment_is_finished_at_once() {
    let renderer = ExportRenderer::new(job(2, 1), ExportBackend::GpuNvenc { slots: 2 });
    let (_, call) = renderer.render_segment(&segment(2, 2));
    assert!(matches!(call, RenderCall::Finished));
}
