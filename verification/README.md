# nexir

The export and playback core of a video editor: what is decoded, rendered, encoded and
written, in which order, and what happens when a step fails.

- `src/` is the library. It makes every decision on plain values and is verified with Verus:
  each function states what it returns, and the promises that span several functions are
  proved as `law_*` functions next to the types they speak of.
- `tests/` runs the library on concrete values.
- `app/` makes the calls the library asks for: FFmpeg, CUDA, NVENC, D3D12, wgpu and threads.

## How the pieces meet

Work that alternates with the outside world is a state machine. A constructor returns the
machine and its first call; the application performs the call and hands the outcome to
`resume` (or `run`), which returns the next call. Handles of the outside world travel through
the library as integers.

## Modules

| Module | What it holds |
| --- | --- |
| `timeline` | ratios, source ids, colour descriptions, frame layouts |
| `text`, `arith` | numbers as text, rounding divisions |
| `export` | jobs, segments, the frame queue, render plans, encoders, muxer, audio program, progress |
| `interop` | capability probing, CUDA contexts, shared memory, NVENC sessions |
| `io` | demuxer, decoder, frame cache, staging slots, prefetching, decode targets |
| `engine` | the playback loop |
