//! Decode side: demuxing, decoding, the frame cache and its staging slots.
pub mod decoder;
pub mod demuxer;
pub mod ffi;
pub mod frame_cache;
pub mod interop_decode;
pub mod io_layer;
pub mod prefetch;
pub mod slot_pool;
