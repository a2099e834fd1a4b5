//! Decision rules of the transcription pipeline: which error each failing
//! step surfaces, what a successful run returns, and when the source
//! container may be deleted.  The runtime performs the file reads, runs the
//! speech engine, and feeds the results in as values.

use vstd::prelude::*;

use crate::errors::RecorderError;
use crate::transcript::assemble_transcript;
use crate::transcript::seg_views;
use crate::transcript::transcript;
use crate::wav::decode_wav;
use crate::wav::decoded_samples;
use crate::wav::valid_wav;

verus! {

/// How a full decoding pass of the speech engine went: the text segments it
/// produced, in index order, or a failure.
pub enum EngineRun {
    Completed(Vec<String>),
    Failed,
}

/// The samples to hand the engine, or the error the caller sees.
///
/// Transcription is refused with `ModelNotFound` before the container is
/// even opened when the model artifact is absent; a container that could not
/// be read (`None`) or does not hold the fixed format fails with
/// `UnreadableAudio`; otherwise every persisted sample is reconstructed.
pub fn prepare_samples(model_exists: bool, container: &Option<Vec<u8>>) -> (r: Result<
    Vec<i16>,
    RecorderError,
>)
    ensures
        !model_exists ==> r == Err::<Vec<i16>, RecorderError>(RecorderError::ModelNotFound),
        model_exists ==> match *container {
            None => r == Err::<Vec<i16>, RecorderError>(RecorderError::UnreadableAudio),
            Some(b) => if valid_wav(b@) {
                r matches Ok(s) && s@ == decoded_samples(b@)
            } else {
                r == Err::<Vec<i16>, RecorderError>(RecorderError::UnreadableAudio)
            },
        },
{
    if !model_exists {
        return Err(RecorderError::ModelNotFound);
    }
    match container {
        Some(bytes) => decode_wav(bytes),
        None => Err(RecorderError::UnreadableAudio),
    }
}

/// The text of a completed engine run, or `ProcessingError`.
///
/// A completed run yields the segments assembled in index order with single
/// spaces and the trailing whitespace trimmed; a failed run returns no text
/// at all, never a partial transcript.
pub fn finish_transcript(run: &EngineRun) -> (r: Result<String, RecorderError>)
    ensures
        (*run) matches EngineRun::Completed(segs) ==> (r matches Ok(t) && t@ == transcript(
            seg_views(segs@),
        )),
        (*run) is Failed ==> r == Err::<String, RecorderError>(RecorderError::ProcessingError),
{
    match run {
        EngineRun::Completed(segs) => Ok(assemble_transcript(segs)),
        EngineRun::Failed => Err(RecorderError::ProcessingError),
    }
}

/// The source container is deleted only after a transcription that
/// succeeded; after any failure it is kept.
pub fn should_delete_source(outcome: &Result<String, RecorderError>) -> (r: bool)
    ensures
        r == (*outcome) is Ok,
{
    match outcome {
        Ok(_) => true,
        Err(_) => false,
    }
}

} // verus!
