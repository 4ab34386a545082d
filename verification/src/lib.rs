//! Verified core of a push-to-talk dictation pipeline.
//!
//! Live microphone audio is downmixed, metered, buffered, resampled and
//! encoded as little-endian PCM16, then routed to one of two speech-to-text
//! backends: a buffered batch uploader or a duplex streaming session, all
//! under an explicit recording lifecycle with cancellation.
//!
//! Samples are carried as fixed-point integers (full scale = 32768) so that
//! the numeric pipeline is verified end to end; the hosting shell converts
//! device floats at the boundary.

pub mod aggregate;
pub mod batch;
pub mod capture;
pub mod device;
pub mod errors;
pub mod lifecycle;
pub mod local;
pub mod media;
pub mod pcm;
pub mod pipeline;
pub mod process;
pub mod progress;
pub mod retry;
pub mod rules;
pub mod stream;
pub mod text;
pub mod wav;
