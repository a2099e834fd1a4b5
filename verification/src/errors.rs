//! The error taxonomy of the recording and transcription pipeline.

use vstd::prelude::*;

verus! {

/// Everything that can go wrong while recording or transcribing.
///
/// State-machine violations (`AlreadyRecording`, `NotRecording`) and missing
/// resources (`ModelNotFound`) are returned synchronously and are not retried;
/// I/O and device failures surface the failing step to the caller.
#[derive(Clone, Copy, Debug, PartialEq, Eq, Structural)]
pub enum RecorderError {
    /// No default input device is available.
    DeviceUnavailable,
    /// `start` was called while a recording is already active.
    AlreadyRecording,
    /// `stop` was called while no recording is active.
    NotRecording,
    /// The capture context died before signalling readiness.
    StartTimeout,
    /// Creating, writing or finalizing the audio container failed.
    IoError,
    /// Transcription was attempted before the model artifact was provisioned.
    ModelNotFound,
    /// The audio container could not be read or does not have the fixed format.
    UnreadableAudio,
    /// The speech engine failed to decode the sample buffer.
    ProcessingError,
}

} // verus!
