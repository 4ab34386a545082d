//! Error taxonomy of the recording core.
//!
//! No condition here is process-fatal: device failures leave no stream
//! behind, a rejected append leaves the buffer unchanged, and transcription
//! failures carry what the backend reported.

use vstd::prelude::*;

verus! {

/// Failure to select or open an input device; non-fatal, no stream is
/// created, and the caller may retry with a different device.
#[derive(Debug, Clone, PartialEq, Eq, Structural)]
pub enum DeviceError {
    /// No device matched and no default input device exists.
    NoInputDevice,
    /// The platform audio layer refused to build or start the stream.
    StreamBuild,
}

/// An append that would exceed the aggregation cap; the buffer is unchanged.
#[derive(Debug, Clone, PartialEq, Eq, Structural)]
pub enum BufferError {
    Overflow,
}

/// Failure of a batch transcription request.
#[derive(Debug, Clone)]
pub enum TranscribeError {
    /// The endpoint answered outside the 2xx range; carries status and body.
    Http { status: u16, body: String },
    /// The request never completed (connect, send or receive failure).
    Transport { detail: String },
    /// A 2xx answer whose body did not hold a transcript.
    Parse,
}

} // verus!
