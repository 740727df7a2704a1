use nexir::engine::playback::{
    PlaybackCall, PlaybackEngine, PlaybackEvent, PresentAction, SeekStep, VSYNC_NS,
};
use nexir::export::engine::{
    panic_message, Conclusion, DispatchCall, DispatchEvent, DispatchRun, EncoderCall, EncoderEvent,
    EncoderRun, ExportEngine, ExportError, FinishCall, FinishEvent, RenderOutcome, StartCall,
    StartReply, WorkerOutcome,
};
use nexir::export::job::{ExportJob, JobError};
use nexir::export::muxer::MuxError;
use nexir::export::progress::ExportPhase;
use nexir::export::queue::QueueItem;
use nexir::export::renderer::RawFrame;
use nexir::export::video_encoder::EncodeError;
use nexir::interop::capability::{InteropCapability, InteropTransport};
use nexir::timeline::Rational;

fn job() -> ExportJob {
    let mut j = ExportJob::web_h264(
        String::from("out.mp4"),
        0,
        30_000,
        1920,
        1080,
        Rational::new(30, 1),
        Rational::new(1, 90_000),
        8,
    );
    j.render_threads = 3;
    j
}

fn d3d12() -> InteropCapability {
    InteropCapability {
        transport: InteropTransport::D3D12Win32Handle,
        cuda_device_ordinal: 0,
        driver_version: String::from("12.2"),
    }
}

#[test]
fn a_cpu_export_starts_step_by_step() {
    let mut engine = ExportEngine::new(job(), InteropCapability::none(), false, false);
    assert!(matches!(engine.start(true, true), StartCall::OpenFfmpeg));
    assert!(matches!(engine.resume(StartReply::Encoder { result: Ok(()) }), StartCall::OpenAudio));
    match engine.resume(StartReply::Encoder { result: Ok(()) }) {
        StartCall::OpenMuxer { video_tb, audio_tb } => {
            assert_eq!((video_tb.num, video_tb.den), (1, 30));
            assert_eq!((audio_tb.num, audio_tb.den), (1, 48_000));
        }
        _ => panic!("the file is opened next"),
    }
    assert!(matches!(
        engine.resume(StartReply::Muxer { result: Ok(()) }),
        StartCall::CreateReadback { width: 1920, height: 1080 }
    ));
    assert!(matches!(
        engine.resume(StartReply::Readback { result: Ok(()) }),
        StartCall::SpawnEncoder
    ));
    assert!(matches!(engine.resume(StartReply::Spawned { result: Ok(()) }), StartCall::SpawnAudio));
    match engine.resume(StartReply::Spawned { result: Ok(()) }) {
        StartCall::SpawnDispatch { segments, total_frames } => {
            assert_eq!(total_frames, 10);
            assert_eq!(segments.len(), 3);
        }
        _ => panic!("rendering is started next"),
    }
    assert!(matches!(engine.resume(StartReply::Spawned { result: Ok(()) }), StartCall::Started));
}

#[test]
fn a_direct_session_needs_no_encoder_thread() {
    let mut engine = ExportEngine::new(job(), d3d12(), true, false);
    assert!(matches!(engine.start(true, true), StartCall::OpenInterop));
    assert!(matches!(engine.resume(StartReply::Interop { opened: true }), StartCall::OpenParams));
    let _ = engine.resume(StartReply::Encoder { result: Ok(()) });
    let _ = engine.resume(StartReply::Encoder { result: Ok(()) });
    assert!(matches!(
        engine.resume(StartReply::Muxer { result: Ok(()) }),
        StartCall::BuildNv12 { .. }
    ));
    assert!(matches!(engine.resume(StartReply::Built), StartCall::SpawnAudio));
}

#[test]
fn a_session_that_does_not_open_falls_back() {
    let mut engine = ExportEngine::new(job(), d3d12(), true, false);
    let _ = engine.start(true, true);
    assert!(matches!(engine.resume(StartReply::Interop { opened: false }), StartCall::OpenFfmpeg));
    let mut forced = ExportEngine::new(job(), d3d12(), true, true);
    assert!(matches!(forced.start(true, true), StartCall::OpenFfmpeg));
}

#[test]
fn what_keeps_an_export_from_starting_is_reported() {
    let mut bad = job();
    bad.width = 0;
    let mut engine = ExportEngine::new(bad, InteropCapability::none(), false, false);
    assert!(matches!(
        engine.start(true, true),
        StartCall::Failed { error: ExportError::JobInvalid(JobError::ZeroDimension) }
    ));

    let mut engine = ExportEngine::new(job(), InteropCapability::none(), false, false);
    let _ = engine.start(true, true);
    assert!(matches!(
        engine.resume(StartReply::Encoder { result: Err(EncodeError::Alloc) }),
        StartCall::Failed { error: ExportError::EncoderOpen(EncodeError::Alloc) }
    ));

    let mut engine = ExportEngine::new(job(), InteropCapability::none(), false, false);
    let _ = engine.start(true, true);
    let _ = engine.resume(StartReply::Encoder { result: Ok(()) });
    let _ = engine.resume(StartReply::Encoder { result: Ok(()) });
    assert!(matches!(
        engine.resume(StartReply::Muxer { result: Err(MuxError::AddStream) }),
        StartCall::Failed { error: ExportError::MuxerOpen(MuxError::AddStream) }
    ));

    let mut engine = ExportEngine::new(job(), InteropCapability::none(), false, false);
    let _ = engine.start(true, true);
    let _ = engine.resume(StartReply::Encoder { result: Ok(()) });
    let _ = engine.resume(StartReply::Encoder { result: Ok(()) });
    let _ = engine.resume(StartReply::Muxer { result: Ok(()) });
    let _ = engine.resume(StartReply::Readback { result: Ok(()) });
    assert!(matches!(
        engine.resume(StartReply::Spawned { result: Err(String::from("no threads")) }),
        StartCall::Failed { error: ExportError::ThreadSpawn(text) } if text == "no threads"
    ));
}

#[test]
fn segments_are_rendered_one_after_the_other() {
    let (mut run, mut call) = DispatchRun::start(3);
    let mut order = Vec::new();
    loop {
        let event = match call {
            DispatchCall::CheckCancelled => DispatchEvent::Cancelled { set: false },
            DispatchCall::RenderSegment { index } => {
                order.push(index);
                DispatchEvent::Rendered { ok: true }
            }
            DispatchCall::Finished => break,
            DispatchCall::Failed { .. } => panic!("nothing failed"),
        };
        call = run.resume(event);
    }
    assert_eq!(order, vec![0, 1, 2]);

    let (mut run, _) = DispatchRun::start(3);
    let _ = run.resume(DispatchEvent::Cancelled { set: false });
    assert!(matches!(
        run.resume(DispatchEvent::Rendered { ok: false }),
        DispatchCall::Failed { index: 0 }
    ));
    let (mut run, _) = DispatchRun::start(3);
    assert!(matches!(run.resume(DispatchEvent::Cancelled { set: true }), DispatchCall::Finished));
    assert!(matches!(DispatchRun::start(0).1, DispatchCall::Finished));
}

#[test]
fn a_finished_export_reports_every_frame() {
    let (mut end, call) =
        Conclusion::start(RenderOutcome::Finished { frames_done: 10 }, false, true, 10);
    assert!(matches!(call, FinishCall::FinishQueue));
    assert!(matches!(end.resume(FinishEvent::Queued), FinishCall::JoinVideo));
    assert!(matches!(
        end.resume(FinishEvent::Joined { outcome: WorkerOutcome::Finished }),
        FinishCall::JoinAudio
    ));
    assert!(matches!(
        end.resume(FinishEvent::Joined { outcome: WorkerOutcome::Finished }),
        FinishCall::Finalise
    ));
    assert!(matches!(
        end.resume(FinishEvent::Finalised { error: None }),
        FinishCall::CheckCancelled
    ));
    assert!(matches!(
        end.resume(FinishEvent::Cancelled { set: false }),
        FinishCall::Report { frames_done: 10, phase: ExportPhase::Done }
    ));
}

#[test]
fn the_first_error_is_the_one_reported() {
    let outcome = RenderOutcome::Failed { index: 2, error: String::from("GpuTimeout") };
    let (mut end, _) = Conclusion::start(outcome, false, true, 10);
    let _ = end.resume(FinishEvent::Queued);
    let _ = end.resume(FinishEvent::Joined {
        outcome: WorkerOutcome::Failed { error: String::from("video") },
    });
    let _ = end.resume(FinishEvent::Joined { outcome: WorkerOutcome::Panicked { payload: None } });
    let _ = end.resume(FinishEvent::Finalised { error: Some(String::from("trailer")) });
    match end.resume(FinishEvent::Cancelled { set: true }) {
        FinishCall::Report { frames_done: 0, phase: ExportPhase::Failed(text) } => {
            assert_eq!(text, "render_segment 2 failed: GpuTimeout")
        }
        _ => panic!("an error is reported before a cancellation"),
    }
}

#[test]
fn every_later_error_has_its_text() {
    let report = |mut end: Conclusion| match end.resume(FinishEvent::Cancelled { set: false }) {
        FinishCall::Report { phase: ExportPhase::Failed(text), .. } => text,
        _ => panic!("there was an error"),
    };
    let (mut end, _) =
        Conclusion::start(RenderOutcome::Finished { frames_done: 1 }, true, false, 1);
    assert!(matches!(end.resume(FinishEvent::Queued), FinishCall::FlushNvenc));
    let _ = end.resume(FinishEvent::Flushed { error: None, mux_error: Some(String::from("full")) });
    let _ = end.resume(FinishEvent::Joined { outcome: WorkerOutcome::Finished });
    let _ = end.resume(FinishEvent::Finalised { error: None });
    assert_eq!(report(end), "NVENC flush mux write failed: full");

    let (mut end, _) =
        Conclusion::start(RenderOutcome::Finished { frames_done: 1 }, false, false, 1);
    assert!(matches!(end.resume(FinishEvent::Queued), FinishCall::JoinAudio));
    let _ = end.resume(FinishEvent::Joined { outcome: WorkerOutcome::Finished });
    let _ = end.resume(FinishEvent::Finalised { error: None });
    assert_eq!(report(end), "missing CPU video worker");

    let (mut end, _) =
        Conclusion::start(RenderOutcome::Finished { frames_done: 1 }, false, true, 1);
    let _ = end.resume(FinishEvent::Queued);
    let _ = end.resume(FinishEvent::Joined { outcome: WorkerOutcome::Finished });
    let _ = end.resume(FinishEvent::Joined {
        outcome: WorkerOutcome::Panicked { payload: Some(String::from("boom")) },
    });
    let _ = end.resume(FinishEvent::Finalised { error: None });
    assert_eq!(report(end), "audio worker panicked: boom");
    assert_eq!(panic_message(None), "(unknown panic payload)");
}

#[test]
fn the_encoder_thread_ends_with_a_flush() {
    let (mut run, call) = EncoderRun::start();
    assert!(matches!(call, EncoderCall::Pop));
    let frame = RawFrame { frame_index: 0, pts: 0, data: vec![] };
    assert!(matches!(
        run.resume(EncoderEvent::Popped { item: Some(QueueItem::Frame(frame)) }),
        EncoderCall::Encode { .. }
    ));
    assert!(matches!(
        run.resume(EncoderEvent::Encoded { error: None, mux_error: None }),
        EncoderCall::Report { frames_encoded: 1 }
    ));
    assert!(matches!(run.resume(EncoderEvent::Reported), EncoderCall::Pop));
    let done = QueueItem::SegmentDone { segment_index: 0 };
    assert!(matches!(run.resume(EncoderEvent::Popped { item: Some(done) }), EncoderCall::Pop));
    assert!(matches!(run.resume(EncoderEvent::Popped { item: None }), EncoderCall::Flush));
    assert!(matches!(
        run.resume(EncoderEvent::Flushed { error: None, mux_error: None }),
        EncoderCall::Done { result: Ok(()) }
    ));
}

#[test]
fn an_encoding_error_ends_the_thread() {
    let (mut run, _) = EncoderRun::start();
    let frame = RawFrame { frame_index: 0, pts: 0, data: vec![] };
    let _ = run.resume(EncoderEvent::Popped { item: Some(QueueItem::Frame(frame)) });
    match run.resume(EncoderEvent::Encoded {
        error: Some(String::from("bad")),
        mux_error: Some(String::from("full")),
    }) {
        EncoderCall::Done { result: Err(text) } => assert_eq!(text, "encode_frame failed: bad"),
        _ => panic!("the thread ends"),
    }
}

#[test]
fn a_due_frame_is_scheduled_and_shown() {
    let (mut engine, call) = PlaybackEngine::new();
    assert!(matches!(call, PlaybackCall::CheckShutdown));
    assert!(matches!(engine.run(PlaybackEvent::Shutdown { set: false }), PlaybackCall::Decide));
    let decided =
        PlaybackEvent::Decided { action: PresentAction::Present, next_pts: 3000, drift_ns: 0 };
    assert!(matches!(engine.run(decided), PlaybackCall::Schedule { pts: 3000 }));
    assert!(matches!(engine.run(PlaybackEvent::Scheduled), PlaybackCall::AcquireSurface));
    assert!(matches!(
        engine.run(PlaybackEvent::Surface { ok: true }),
        PlaybackCall::Present { pts: 3000 }
    ));
    assert!(matches!(engine.run(PlaybackEvent::Presented), PlaybackCall::CheckShutdown));
    assert!(matches!(engine.run(PlaybackEvent::Shutdown { set: true }), PlaybackCall::Stop));
}

#[test]
fn early_frames_are_held_and_late_ones_dropped() {
    let hold = |drift_ns: i64| {
        let (mut engine, _) = PlaybackEngine::new();
        let _ = engine.run(PlaybackEvent::Shutdown { set: false });
        let action = PresentAction::Hold;
        match engine.run(PlaybackEvent::Decided { action, next_pts: 0, drift_ns }) {
            PlaybackCall::Sleep { ns } => ns,
            _ => panic!("a held frame is slept for"),
        }
    };
    assert_eq!(hold(1000), 1000);
    assert_eq!(hold(-1000), 1000);
    assert_eq!(hold(i64::MIN), VSYNC_NS as u64);
    assert_eq!(hold(50_000_000), 16_666_667);

    let (mut engine, _) = PlaybackEngine::new();
    let _ = engine.run(PlaybackEvent::Shutdown { set: false });
    let dropped =
        PlaybackEvent::Decided { action: PresentAction::Drop, next_pts: 7, drift_ns: 0 };
    assert!(matches!(engine.run(dropped), PlaybackCall::Schedule { pts: 7 }));
    assert!(matches!(engine.run(PlaybackEvent::Scheduled), PlaybackCall::CheckShutdown));
}

#[test]
fn a_seek_moves_the_clock_before_it_clears_the_ring() {
    let steps = PlaybackEngine::seek(42);
    assert!(matches!(steps[0], SeekStep::SeekClock { pts: 42 }));
    assert!(matches!(steps[1], SeekStep::ResetCorrector));
    assert!(matches!(steps[2], SeekStep::RequestSeek { pts: 42 }));
    assert!(matches!(steps[3], SeekStep::ClearRing));
}
