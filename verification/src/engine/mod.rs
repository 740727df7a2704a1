//! Playing a timeline back.
pub mod playback;
