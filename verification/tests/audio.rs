use nexir::export::audio::{channel_layout, offset_samples, select_clips, total_samples, AudioClip};
use nexir::export::audio_run::{AudioCall, AudioEvent, AudioFailure, AudioRun};
use nexir::io::ffi::avutil::{AVERROR_EAGAIN, AVERROR_EOF};
use nexir::timeline::SourceId;

fn clip(position: usize, t_in: i64, t_out: i64) -> AudioClip {
    AudioClip {
        position,
        source_id: SourceId::new(position as u32),
        t_in,
        t_out,
        source_in: 0,
        has_audio: true,
        track_active: true,
        muted: false,
    }
}

#[test]
fn only_audible_clips_of_the_range_are_mixed() {
    let mut silent = clip(1, 0, 100);
    silent.has_audio = false;
    let mut off = clip(2, 0, 100);
    off.track_active = false;
    let clips = vec![clip(0, 50, 100), silent, off, clip(3, 10, 60), clip(4, 50, 70), clip(5, 100, 200), clip(6, -20, 0)];
    let chosen = select_clips(&clips, 0, 100);
    let positions: Vec<usize> = chosen.iter().map(|c| c.position).collect();
    assert_eq!(positions, vec![3, 0, 4]);
}

#[test]
fn samples_are_rounded_apart() {
    assert_eq!(total_samples(90_000, 90_000), 48_000);
    assert_eq!(total_samples(1, 90_000), 1);
    assert_eq!(offset_samples(1, 90_000), 0);
    assert_eq!(offset_samples(3000, 90_000), 1600);
    assert_eq!(total_samples(0, 90_000), 0);
}

#[test]
fn a_missing_layout_is_guessed_from_the_channels() {
    assert_eq!(channel_layout(0x3F, 6), 0x3F);
    assert_eq!(channel_layout(0, 1), 4);
    assert_eq!(channel_layout(0, 2), 3);
}

struct Trace {
    mixes: Vec<(usize, usize)>,
    chunks: Vec<(usize, usize, i64)>,
    failure: Option<AudioFailure>,
    opened: usize,
}

fn drive(clips: Vec<AudioClip>, ticks: i64, frames_per_source: usize, cancel_after: usize) -> Trace {
    let (mut run, mut call) = AudioRun::start(clips, 0, ticks, 48_000, 100);
    let mut trace = Trace { mixes: Vec::new(), chunks: Vec::new(), failure: None, opened: 0 };
    let mut controls = 0;
    let mut given = 0;
    let mut received = true;
    for _ in 0..5000 {
        let event = match call {
            AudioCall::CheckControl => {
                controls += 1;
                AudioEvent::Control { cancelled: controls > cancel_after }
            }
            AudioCall::OpenSource { .. } => {
                trace.opened += 1;
                given = 0;
                AudioEvent::SourceOpened { has_audio: true }
            }
            AudioCall::OpenDecoder => AudioEvent::DecoderOpened { layout: 0, channels: 2 },
            AudioCall::AllocateResampler { layout, .. } => {
                assert_eq!(layout, 3);
                AudioEvent::ResamplerAllocated { in_rate: 48_000, ok: true }
            }
            AudioCall::InitResampler => AudioEvent::ResamplerReady { ok: true },
            AudioCall::AllocateFrame => AudioEvent::FrameAllocated { ok: true },
            AudioCall::ScaleTimes { .. } => AudioEvent::TimesScaled { from: 0, to: 0 },
            AudioCall::Seek { pts } => {
                assert_eq!(pts, 0);
                AudioEvent::Sought { ok: true }
            }
            AudioCall::Rescale { .. } => {
                AudioEvent::Rescaled { stream_seek: 0, stream_end: i64::MAX }
            }
            AudioCall::ReadPacket => {
                if given == frames_per_source {
                    AudioEvent::EndOfSource
                } else {
                    given += 1;
                    AudioEvent::Packet { pts: 0 }
                }
            }
            AudioCall::SendPacket => {
                received = false;
                AudioEvent::Sent { status: 0 }
            }
            AudioCall::SendDrain => {
                received = true;
                AudioEvent::Sent { status: 0 }
            }
            AudioCall::ReceiveFrame => {
                if received {
                    AudioEvent::Received { status: AVERROR_EAGAIN, samples: 0 }
                } else {
                    received = true;
                    AudioEvent::Received { status: 0, samples: 64 }
                }
            }
            AudioCall::Resample { samples, out_max } => {
                assert_eq!(out_max, samples as usize + 32);
                AudioEvent::Resampled { converted: samples }
            }
            AudioCall::Mix { position, count, .. } => {
                trace.mixes.push((position, count));
                AudioEvent::Mixed
            }
            AudioCall::QueryDelay => AudioEvent::Delay { samples: 0 },
            AudioCall::FlushResampler { .. } => AudioEvent::Resampled { converted: 0 },
            AudioCall::Limit => AudioEvent::Limited,
            AudioCall::EncodeChunk { start, count, pts } => {
                trace.chunks.push((start, count, pts));
                AudioEvent::Encoded { ok: true }
            }
            AudioCall::FlushEncoder => AudioEvent::EncoderFlushed { ok: true, mux_failed: false },
            AudioCall::Finished => return trace,
            AudioCall::Failed { failure } => {
                trace.failure = Some(failure);
                return trace;
            }
        };
        call = run.resume(event);
    }
    panic!("the worker does not end");
}

#[test]
fn the_program_is_encoded_in_frames() {
    let trace = drive(vec![clip(0, 0, 250)], 250, 3, usize::MAX);
    assert!(trace.failure.is_none());
    assert_eq!(trace.mixes, vec![(0, 64), (64, 64), (128, 64)]);
    assert_eq!(trace.chunks, vec![(0, 100, 0), (100, 100, 100), (200, 50, 200)]);
}

#[test]
fn a_program_of_whole_frames_has_no_frame_too_many() {
    let trace = drive(vec![], 300, 0, usize::MAX);
    assert_eq!(trace.chunks, vec![(0, 100, 0), (100, 100, 100), (200, 100, 200)]);
    let trace = drive(vec![], 301, 0, usize::MAX);
    assert_eq!(trace.chunks.len(), 4);
    assert_eq!(trace.chunks[3], (300, 1, 300));
}

#[test]
fn mixing_stops_at_the_end_of_the_window() {
    let trace = drive(vec![clip(0, 50, 150)], 250, 10, usize::MAX);
    assert_eq!(trace.mixes, vec![(50, 64), (114, 36)]);
    assert_eq!(trace.chunks.len(), 3);
}

#[test]
fn muted_clips_are_not_opened() {
    let mut muted = clip(0, 0, 250);
    muted.muted = true;
    let trace = drive(vec![muted, clip(1, 0, 250)], 250, 1, usize::MAX);
    assert_eq!(trace.opened, 1);
}

#[test]
fn cancelling_is_no_failure() {
    let trace = drive(vec![clip(0, 0, 250)], 250, 3, 0);
    assert!(trace.failure.is_none());
    assert!(trace.chunks.is_empty());
}

/// The answers that open a source, in the order they are asked for.
fn opening() -> Vec<AudioEvent> {
    vec![
        AudioEvent::Control { cancelled: false },
        AudioEvent::SourceOpened { has_audio: true },
        AudioEvent::DecoderOpened { layout: 0x3F, channels: 6 },
        AudioEvent::ResamplerAllocated { in_rate: 44_100, ok: true },
        AudioEvent::ResamplerReady { ok: true },
        AudioEvent::FrameAllocated { ok: true },
        AudioEvent::TimesScaled { from: 20, to: 220 },
        AudioEvent::Sought { ok: true },
        AudioEvent::Rescaled { stream_seek: 30, stream_end: 99 },
    ]
}

/// A worker that has been given the first `steps` of those answers, and what it asks for.
fn opened(clip: AudioClip, steps: usize) -> (AudioRun, AudioCall) {
    let (mut run, mut call) = AudioRun::start(vec![clip], 0, 250, 48_000, 100);
    for event in opening().into_iter().take(steps) {
        call = run.resume(event);
    }
    (run, call)
}

#[test]
fn a_source_is_opened_step_by_step() {
    let mut c = clip(0, -10, 100);
    c.source_in = 1000;
    let calls: Vec<AudioCall> = (0..10).map(|steps| opened(c, steps).1).collect();
    assert_eq!(
        calls,
        vec![
            AudioCall::CheckControl,
            AudioCall::OpenSource { clip: 0 },
            AudioCall::OpenDecoder,
            AudioCall::AllocateResampler { clip: 0, layout: 0x3F },
            AudioCall::InitResampler,
            AudioCall::AllocateFrame,
            AudioCall::ScaleTimes { clip: 0, from: 10, to: 110 },
            AudioCall::Seek { pts: 1020 },
            AudioCall::Rescale { seek: 1020, end: 1220 },
            AudioCall::ReadPacket,
        ]
    );
}

#[test]
fn packets_before_the_heard_part_are_skipped() {
    let mut c = clip(0, 0, 250);
    c.source_in = 1000;
    let (mut run, _) = opened(c, 9);
    assert_eq!(run.resume(AudioEvent::Packet { pts: 29 }), AudioCall::ReadPacket);
    assert_eq!(run.resume(AudioEvent::Packet { pts: 30 }), AudioCall::CheckControl);
    let sent = run.resume(AudioEvent::Control { cancelled: false });
    assert_eq!(sent, AudioCall::SendPacket);
    assert_eq!(run.resume(AudioEvent::Sent { status: 0 }), AudioCall::ReceiveFrame);
    let none = AudioEvent::Received { status: AVERROR_EAGAIN, samples: 0 };
    assert_eq!(run.resume(none), AudioCall::CheckControl);
    assert_eq!(run.resume(AudioEvent::Control { cancelled: false }), AudioCall::ReadPacket);
    assert_eq!(run.resume(AudioEvent::Packet { pts: 100 }), AudioCall::CheckControl);
    assert_eq!(run.resume(AudioEvent::Control { cancelled: false }), AudioCall::SendDrain);
}

#[test]
fn a_clip_without_extent_is_passed_over() {
    let (_, call) = opened(clip(0, 60, 40), 6);
    assert_eq!(call, AudioCall::Limit);
}

#[test]
fn each_failure_is_named() {
    let failing = |steps: usize, event: AudioEvent| {
        let (mut run, _) = opened(clip(0, 0, 250), steps);
        match run.resume(event) {
            AudioCall::Failed { failure } => failure,
            _ => panic!("the step failed"),
        }
    };
    let none = AudioEvent::ResamplerAllocated { in_rate: 44_100, ok: false };
    assert_eq!(failing(1, AudioEvent::NoPath), AudioFailure::NoPath);
    assert_eq!(failing(1, AudioEvent::OpenFailed), AudioFailure::Open);
    assert_eq!(failing(1, AudioEvent::SourceOpened { has_audio: false }), AudioFailure::NoStream);
    assert_eq!(failing(2, AudioEvent::DecoderFailed), AudioFailure::DecoderOpen);
    assert_eq!(failing(3, none), AudioFailure::ResamplerAlloc);
    assert_eq!(failing(4, AudioEvent::ResamplerReady { ok: false }), AudioFailure::ResamplerInit);
    assert_eq!(failing(5, AudioEvent::FrameAllocated { ok: false }), AudioFailure::FrameAlloc);
    assert_eq!(failing(7, AudioEvent::Sought { ok: false }), AudioFailure::Seek);
    assert_eq!(failing(9, AudioEvent::DemuxFailed), AudioFailure::Demux);

    let (mut run, _) = opened(clip(0, 0, 250), 9);
    assert_eq!(run.resume(AudioEvent::Packet { pts: 30 }), AudioCall::CheckControl);
    assert_eq!(run.resume(AudioEvent::Control { cancelled: false }), AudioCall::SendPacket);
    assert_eq!(
        run.resume(AudioEvent::Sent { status: AVERROR_EOF }),
        AudioCall::Failed { failure: AudioFailure::Submit(AVERROR_EOF) }
    );
}

#[test]
fn audio_failures_name_their_source() {
    let path = "/media/a.wav";
    let text = |failure: AudioFailure| failure.message(path, "Why");
    assert_eq!(
        AudioFailure::NoPath.message("", "SourceId(3)"),
        "audio source SourceId(3) has no path"
    );
    assert_eq!(text(AudioFailure::Open), "failed to open audio source /media/a.wav: Why");
    assert_eq!(text(AudioFailure::NoStream), "audio source /media/a.wav has no audio stream");
    assert_eq!(
        text(AudioFailure::DecoderOpen),
        "failed to open audio decoder for /media/a.wav: Why"
    );
    assert_eq!(
        text(AudioFailure::ResamplerAlloc),
        "failed to allocate audio resampler for /media/a.wav"
    );
    assert_eq!(
        text(AudioFailure::ResamplerInit),
        "failed to initialize audio resampler for /media/a.wav"
    );
    assert_eq!(text(AudioFailure::FrameAlloc), "failed to allocate audio decode frame");
    assert_eq!(text(AudioFailure::Seek), "audio seek failed for /media/a.wav: Why");
    assert_eq!(AudioFailure::Demux.message(path, "Read"), "audio demux failed for /media/a.wav: Read");
    assert_eq!(
        AudioFailure::Submit(-22).message(path, ""),
        "audio packet submit failed for /media/a.wav: FFmpeg error -22"
    );
    assert_eq!(
        AudioFailure::Decode(-5).message(path, ""),
        "audio decode failed for /media/a.wav: FFmpeg error -5"
    );
    assert_eq!(
        AudioFailure::Resample(-1).message(path, ""),
        "audio resample failed for /media/a.wav: FFmpeg error -1"
    );
    assert_eq!(
        AudioFailure::Drain(-11).message(path, ""),
        "audio decoder drain failed for /media/a.wav: FFmpeg error -11"
    );
    assert_eq!(AudioFailure::Encode.message(path, "Alloc"), "audio encode failed: Alloc");
    assert_eq!(AudioFailure::EncoderFlush.message(path, "Alloc"), "audio encoder flush failed: Alloc");
    assert_eq!(AudioFailure::Mux.message(path, "Write"), "audio mux write failed: Write");
}
