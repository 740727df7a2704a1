//! CUDA interop: shared allocations, NVDEC targets and the NVENC session.
pub mod capability;
pub mod cuda_context;
pub mod decode_interop;
pub mod encode_interop;
pub mod encode_open;
pub mod external_buffer;
pub mod external_memory;
pub mod external_texture;
pub mod nv12_encode;
pub mod nvenc;
