//! The audio pipelines: what is decided around capture and playback, and the
//! encodings of samples.

pub mod player;
pub mod quantize;
pub mod recorder;
pub mod sample;
pub mod wav;
