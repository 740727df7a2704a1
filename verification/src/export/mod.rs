//! Export: jobs, partitioning, encoders and the export pipeline.
pub mod audio;
pub mod audio_encoder;
pub mod audio_run;
pub mod decode_worker;
pub mod engine;
pub mod graph;
pub mod job;
pub mod muxer;
pub mod partitioner;
pub mod progress;
pub mod queue;
pub mod readback;
pub mod renderer;
pub mod video_encoder;
