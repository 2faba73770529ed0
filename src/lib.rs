//! Two-pass transcode planning: solve a video bitrate that keeps the output
//! under a size ceiling, then sequence the encoder's two passes.
pub mod bitrate;
pub mod decimal;
pub mod encode;
pub mod error;
pub mod naming;
pub mod orchestrate;
pub mod probe;
