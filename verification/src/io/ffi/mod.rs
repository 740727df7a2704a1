//! Values shared with FFmpeg.
pub mod avutil;
pub mod hw_accel;
