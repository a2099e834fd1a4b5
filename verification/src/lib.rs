//! Core logic of a voice-note recorder: a start/stop recording state machine,
//! a codec for the fixed-format audio container that recordings are persisted
//! in, assembly of transcription output segments into the final text, and the
//! decision rules of the transcription pipeline and of model provisioning.
//!
//! Everything here is pure logic over plain values; the surrounding runtime
//! (audio device, files, network, speech engine) feeds results in as values.

pub mod errors;
pub mod model;
pub mod notes;
pub mod pipeline;
pub mod recorder;
pub mod timefmt;
pub mod transcript;
pub mod wav;
