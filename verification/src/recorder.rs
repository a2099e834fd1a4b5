//! The recording controller: a two-state machine (idle / recording) that owns
//! the active flag and the pending output path.
//!
//! The controller is pure: launching the capture session, opening the device
//! and creating the container are done by the surrounding runtime, which
//! reports how the launch went as a [`StartOutcome`].  The controller decides
//! the transition and which error, if any, the caller sees.

use vstd::prelude::*;

use crate::errors::RecorderError;

verus! {

/// How launching the capture session went, as reported by the runtime that
/// owns the audio device.
#[derive(Clone, Copy, Debug, PartialEq, Eq, Structural)]
pub enum StartOutcome {
    /// The device stream is open and accepting samples (the one-shot
    /// readiness signal arrived).
    Ready,
    /// No default input device exists.
    NoInputDevice,
    /// The audio container could not be created at the requested path.
    ContainerCreateFailed,
    /// The capture context died before signalling readiness.
    SessionClosed,
}

/// The recording controller's state: the active flag and, while a recording
/// exists that `stop` has not yet claimed, the path it is being written to.
pub struct AudioRecorder {
    pub is_recording: bool,
    pub recorded_file: Option<String>,
}

impl AudioRecorder {
    /// The controller is well formed when the active flag and the pending
    /// path agree: a path is held exactly while a recording is active.
    pub open spec fn wf(self) -> bool {
        self.is_recording <==> self.recorded_file is Some
    }

    /// The error `start` returns for each state and launch outcome, or `Ok`.
    pub open spec fn spec_start_result(
        self,
        session: StartOutcome,
    ) -> Result<(), RecorderError> {
        if self.is_recording {
            Err(RecorderError::AlreadyRecording)
        } else {
            match session {
                StartOutcome::Ready => Ok(()),
                StartOutcome::NoInputDevice => Err(RecorderError::DeviceUnavailable),
                StartOutcome::ContainerCreateFailed => Err(RecorderError::IoError),
                StartOutcome::SessionClosed => Err(RecorderError::StartTimeout),
            }
        }
    }

    /// The state `start` leaves behind: unchanged unless the controller was
    /// idle and the capture session signalled readiness.
    pub open spec fn spec_start_next(
        self,
        output_path: String,
        session: StartOutcome,
    ) -> AudioRecorder {
        if !self.is_recording && session is Ready {
            AudioRecorder { is_recording: true, recorded_file: Some(output_path) }
        } else {
            self
        }
    }

    /// What `stop` returns: the pending path if one exists, else `NotRecording`.
    pub open spec fn spec_stop_result(self) -> Result<String, RecorderError> {
        match self.recorded_file {
            Some(path) => Ok(path),
            None => Err(RecorderError::NotRecording),
        }
    }

    /// The state `stop` leaves behind: always idle with no pending path.
    pub open spec fn spec_stop_next(self) -> AudioRecorder {
        AudioRecorder { is_recording: false, recorded_file: None }
    }

    /// A fresh controller: idle, with no pending recording.
    pub fn new() -> (r: AudioRecorder)
        ensures
            r.wf(),
            !r.is_recording,
            r.recorded_file is None,
    {
        AudioRecorder { is_recording: false, recorded_file: None }
    }

    /// Whether a recording is currently active.  The runtime consults this
    /// before launching a capture session, so that a rejected `start` has no
    /// side effect (no device opened, no file created).
    pub fn recording_active(&self) -> (r: bool)
        ensures
            r == self.is_recording,
    {
        self.is_recording
    }

    /// Start a recording that the runtime will write to `output_path`.
    ///
    /// Fails with `AlreadyRecording`, changing nothing, when a recording is
    /// active.  Otherwise the transition is decided by how the launch went:
    /// on readiness the controller records the path and becomes active; on a
    /// launch failure it stays idle and maps the outcome to the error the
    /// caller sees.
    pub fn start_recording(
        &mut self,
        output_path: String,
        session: StartOutcome,
    ) -> (r: Result<(), RecorderError>)
        requires
            old(self).wf(),
        ensures
            final(self).wf(),
            r == old(self).spec_start_result(session),
            *final(self) == old(self).spec_start_next(output_path, session),
    {
        if self.is_recording {
            return Err(RecorderError::AlreadyRecording);
        }
        match session {
            StartOutcome::Ready => {
                self.is_recording = true;
                self.recorded_file = Some(output_path);
                Ok(())
            },
            StartOutcome::NoInputDevice => Err(RecorderError::DeviceUnavailable),
            StartOutcome::ContainerCreateFailed => Err(RecorderError::IoError),
            StartOutcome::SessionClosed => Err(RecorderError::StartTimeout),
        }
    }

    /// Stop the active recording and claim its output path.
    ///
    /// Clears the active flag (the capture context observes the cleared flag
    /// and finalizes the container), hands back the pending path, and returns
    /// the controller to idle.  Fails with `NotRecording` when no recording
    /// is pending.
    pub fn stop_recording(&mut self) -> (r: Result<String, RecorderError>)
        requires
            old(self).wf(),
        ensures
            final(self).wf(),
            r == old(self).spec_stop_result(),
            *final(self) == old(self).spec_stop_next(),
    {
        self.is_recording = false;
        let taken = self.recorded_file.take();
        match taken {
            Some(path) => Ok(path),
            None => Err(RecorderError::NotRecording),
        }
    }
}

/// For every idle controller and requested path: starting succeeds once the
/// capture session is ready, and the stop that follows hands back exactly the
/// requested path — one recording, one path — returning the controller to
/// idle.
pub proof fn lemma_start_stop_pair(s: AudioRecorder, output_path: String)
    requires
        s.wf(),
        !s.is_recording,
    ensures
        s.spec_start_result(StartOutcome::Ready) == Ok::<(), RecorderError>(()),
        s.spec_start_next(output_path, StartOutcome::Ready).is_recording,
        s.spec_start_next(output_path, StartOutcome::Ready).spec_stop_result() == Ok::<
            String,
            RecorderError,
        >(output_path),
        !s.spec_start_next(output_path, StartOutcome::Ready).spec_stop_next().is_recording,
        s.spec_start_next(output_path, StartOutcome::Ready).spec_stop_next().recorded_file
            is None,
{
}

/// Starting while a recording is active fails with `AlreadyRecording` and
/// changes nothing, whatever the launch outcome.
pub proof fn lemma_start_while_recording_rejected(
    s: AudioRecorder,
    output_path: String,
    session: StartOutcome,
)
    requires
        s.wf(),
        s.is_recording,
    ensures
        s.spec_start_result(session) == Err::<(), RecorderError>(
            RecorderError::AlreadyRecording,
        ),
        s.spec_start_next(output_path, session) == s,
{
}

/// Stopping while idle fails with `NotRecording`.
pub proof fn lemma_stop_while_idle(s: AudioRecorder)
    requires
        s.wf(),
        !s.is_recording,
    ensures
        s.spec_stop_result() == Err::<String, RecorderError>(RecorderError::NotRecording),
{
}

} // verus!
