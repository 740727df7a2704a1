//! Nexir: the decision core of a video export and playback engine.
//!
//! The crate holds the part of the engine that can be stated and proved: export
//! jobs and their partitioning, the encoder sessions, the decode pipeline, the
//! frame cache and the bookkeeping of the GPU/CUDA interop path.  Everything that
//! touches a device, a file or a thread lives in the application around it and
//! exchanges plain values with these modules.
pub mod arith;
pub mod engine;
pub mod export;
pub mod interop;
pub mod io;
pub mod text;
pub mod timeline;
