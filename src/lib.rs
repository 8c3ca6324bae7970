//! Control logic of a live-broadcast recorder: chapter tracking from polled
//! live-status snapshots, the chapter sidecar document, capture-pipeline
//! arguments and the recording-session state machine.

pub mod time;
pub mod status;
pub mod chapter;
pub mod sidecar;
pub mod session;
pub mod config;
pub mod ffmpeg;
pub mod ffprobe;
