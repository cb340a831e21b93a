//! The dictation runtime's work slot: which session owns the capture or the
//! finalized audio at each step, so that work of a replaced or cancelled
//! session can neither take nor clear the work of the current one. The audio
//! itself is held by the caller next to this slot.
use vstd::prelude::*;

use crate::audio::AudioFailure;
use crate::coordinator::{SessionCoordinatorError, SessionSnapshot};
use crate::pipeline::{spec_operation_for_state, operation_for_state, RuntimeOperation};
use crate::recording::DictationPipelineError;
use crate::session::{FailureStage, SessionId, SessionState};

verus! {

broadcast use crate::session::lemma_session_id_view_injective;

/// Which work the runtime holds, and for which session.
#[derive(Debug, Clone, Copy, PartialEq, Eq, Structural)]
pub enum WorkPhase {
    Empty,
    Arming(SessionId),
    Recording(SessionId),
    Finalizing(SessionId),
    Finalized(SessionId),
    Transcribing(SessionId),
}

pub open spec fn phase_session(p: WorkPhase) -> Option<SessionId> {
    match p {
        WorkPhase::Empty => None,
        WorkPhase::Arming(id) => Some(id),
        WorkPhase::Recording(id) => Some(id),
        WorkPhase::Finalizing(id) => Some(id),
        WorkPhase::Finalized(id) => Some(id),
        WorkPhase::Transcribing(id) => Some(id),
    }
}

/// The kinds of failure of the capture-to-recognition pipeline.
#[derive(Debug, Clone, Copy, PartialEq, Eq, Structural)]
pub enum PipelineErrorKind {
    InvalidConfiguration,
    Capture,
    InvalidCaptureRead,
    CaptureIntegrity,
    Processing,
    EmptyUtterance,
    SpeechDetection,
    InvalidAsrAudio,
    Recognition,
}

pub open spec fn spec_capture_failure_stage(kind: PipelineErrorKind) -> FailureStage {
    match kind {
        PipelineErrorKind::EmptyUtterance | PipelineErrorKind::SpeechDetection => FailureStage::SpeechDetection,
        PipelineErrorKind::InvalidConfiguration => FailureStage::Internal,
        PipelineErrorKind::Capture | PipelineErrorKind::InvalidCaptureRead
        | PipelineErrorKind::CaptureIntegrity | PipelineErrorKind::Processing => FailureStage::AudioCapture,
        PipelineErrorKind::InvalidAsrAudio | PipelineErrorKind::Recognition => FailureStage::Internal,
    }
}

/// The lifecycle stage a pipeline failure is recorded under.
pub fn capture_failure_stage(kind: PipelineErrorKind) -> (stage: FailureStage)
    ensures
        stage == spec_capture_failure_stage(kind),
{
    match kind {
        PipelineErrorKind::EmptyUtterance | PipelineErrorKind::SpeechDetection => FailureStage::SpeechDetection,
        PipelineErrorKind::InvalidConfiguration => FailureStage::Internal,
        PipelineErrorKind::Capture | PipelineErrorKind::InvalidCaptureRead
        | PipelineErrorKind::CaptureIntegrity | PipelineErrorKind::Processing => FailureStage::AudioCapture,
        PipelineErrorKind::InvalidAsrAudio | PipelineErrorKind::Recognition => FailureStage::Internal,
    }
}

#[derive(Debug, Clone)]
pub enum RuntimeError {
    Session(SessionCoordinatorError),
    CaptureStart(AudioFailure),
    Pipeline(DictationPipelineError),
    WorkInvalidated { session_id: SessionId, operation: RuntimeOperation },
}

impl RuntimeError {
    /// The text a user is shown for this error; a capture that could not start
    /// is described by the capture failure's own message.
    pub open spec fn spec_message(&self) -> Seq<char> {
        match self {
            RuntimeError::Session(error) => error.spec_message(),
            RuntimeError::CaptureStart(failure) => "could not start microphone capture: "@
                + failure.message@,
            RuntimeError::Pipeline(error) => error.spec_message(),
            RuntimeError::WorkInvalidated { session_id, operation } => "dictation session "@
                + crate::text::decimal(session_id@ as nat) + " can no longer "@ + match operation {
                RuntimeOperation::StartRecording => "start recording"@,
                RuntimeOperation::PumpRecording => "pump recording"@,
                RuntimeOperation::FinalizeRecording => "finalize recording"@,
                RuntimeOperation::Transcribe => "transcribe finalized audio"@,
            },
        }
    }

    pub fn message(&self) -> (message: String)
        ensures
            message@ == self.spec_message(),
    {
        match self {
            RuntimeError::Session(error) => error.message(),
            RuntimeError::CaptureStart(failure) => {
                let mut message = String::from_str("could not start microphone capture: ");
                message.append(failure.message.as_str());
                message
            },
            RuntimeError::Pipeline(error) => error.message(),
            RuntimeError::WorkInvalidated { session_id, operation } => {
                let mut message = String::from_str("dictation session ");
                message.append(crate::text::u64_to_decimal(session_id.get()).as_str());
                message.append(" can no longer ");
                message.append(operation.name());
                message
            },
        }
    }
}

#[derive(Debug)]
pub struct RuntimeWork {
    phase: WorkPhase,
}

impl View for RuntimeWork {
    type V = WorkPhase;

    closed spec fn view(&self) -> WorkPhase {
        self.phase
    }
}

impl RuntimeWork {
    pub fn new() -> (work: Self)
        ensures
            work@ == WorkPhase::Empty,
    {
        RuntimeWork { phase: WorkPhase::Empty }
    }

    pub fn phase(&self) -> (phase: WorkPhase)
        ensures
            phase == self@,
    {
        self.phase
    }

    pub fn session_id(&self) -> (id: Option<SessionId>)
        ensures
            id == phase_session(self@),
    {
        match self.phase {
            WorkPhase::Empty => None,
            WorkPhase::Arming(id) => Some(id),
            WorkPhase::Recording(id) => Some(id),
            WorkPhase::Finalizing(id) => Some(id),
            WorkPhase::Finalized(id) => Some(id),
            WorkPhase::Transcribing(id) => Some(id),
        }
    }

    /// Reserves the empty slot for arming the capture of `session_id`.
    pub fn reserve_arming(&mut self, session_id: SessionId) -> (reserved: bool)
        ensures
            reserved == (old(self)@ == WorkPhase::Empty),
            final(self)@ == (if reserved {
                WorkPhase::Arming(session_id)
            } else {
                old(self)@
            }),
    {
        match self.phase {
            WorkPhase::Empty => {
                self.phase = WorkPhase::Arming(session_id);
                true
            },
            _ => false,
        }
    }

    /// The capture armed for `session_id` records.
    pub fn store_recording(&mut self, session_id: SessionId) -> (stored: bool)
        ensures
            stored == (old(self)@ == WorkPhase::Arming(session_id)),
            final(self)@ == (if stored {
                WorkPhase::Recording(session_id)
            } else {
                old(self)@
            }),
    {
        match self.phase {
            WorkPhase::Arming(owned) => {
                if owned.same_as(session_id) {
                    self.phase = WorkPhase::Recording(session_id);
                    return true;
                }
                false
            },
            _ => false,
        }
    }

    /// Takes the recording of `session_id` for finalization.
    pub fn take_recording_for_finalization(&mut self, session_id: SessionId) -> (result: Result<(), RuntimeError>)
        ensures
            match result {
                Ok(()) => old(self)@ == WorkPhase::Recording(session_id) && final(self)@
                    == WorkPhase::Finalizing(session_id),
                Err(e) => {
                    &&& old(self)@ != WorkPhase::Recording(session_id)
                    &&& final(self)@ == old(self)@
                    &&& e matches RuntimeError::WorkInvalidated { session_id: s, operation: o }
                    &&& s == session_id
                    &&& o == RuntimeOperation::FinalizeRecording
                },
            },
    {
        match self.phase {
            WorkPhase::Recording(owned) => {
                if owned.same_as(session_id) {
                    self.phase = WorkPhase::Finalizing(session_id);
                    return Ok(());
                }
            },
            _ => {},
        }
        Err(
            RuntimeError::WorkInvalidated {
                session_id,
                operation: RuntimeOperation::FinalizeRecording,
            },
        )
    }

    /// The audio of `session_id` is finalized.
    pub fn store_finalized(&mut self, session_id: SessionId) -> (stored: bool)
        ensures
            stored == (old(self)@ == WorkPhase::Finalizing(session_id)),
            final(self)@ == (if stored {
                WorkPhase::Finalized(session_id)
            } else {
                old(self)@
            }),
    {
        match self.phase {
            WorkPhase::Finalizing(owned) => {
                if owned.same_as(session_id) {
                    self.phase = WorkPhase::Finalized(session_id);
                    return true;
                }
                false
            },
            _ => false,
        }
    }

    /// Takes the finalized audio of `session_id` for recognition.
    pub fn take_finalized_for_transcription(&mut self, session_id: SessionId) -> (result: Result<(), RuntimeError>)
        ensures
            match result {
                Ok(()) => old(self)@ == WorkPhase::Finalized(session_id) && final(self)@
                    == WorkPhase::Transcribing(session_id),
                Err(e) => {
                    &&& old(self)@ != WorkPhase::Finalized(session_id)
                    &&& final(self)@ == old(self)@
                    &&& e matches RuntimeError::WorkInvalidated { session_id: s, operation: o }
                    &&& s == session_id
                    &&& o == RuntimeOperation::Transcribe
                },
            },
    {
        match self.phase {
            WorkPhase::Finalized(owned) => {
                if owned.same_as(session_id) {
                    self.phase = WorkPhase::Transcribing(session_id);
                    return Ok(());
                }
            },
            _ => {},
        }
        Err(RuntimeError::WorkInvalidated { session_id, operation: RuntimeOperation::Transcribe })
    }

    /// Recognition of `session_id` failed: its finalized audio is kept for a retry.
    pub fn restore_finalized(&mut self, session_id: SessionId) -> (restored: bool)
        ensures
            restored == (old(self)@ == WorkPhase::Transcribing(session_id)),
            final(self)@ == (if restored {
                WorkPhase::Finalized(session_id)
            } else {
                old(self)@
            }),
    {
        match self.phase {
            WorkPhase::Transcribing(owned) => {
                if owned.same_as(session_id) {
                    self.phase = WorkPhase::Finalized(session_id);
                    return true;
                }
                false
            },
            _ => false,
        }
    }

    /// Recognition of `session_id` is over: its reservation is released.
    pub fn clear_transcribing_reservation(&mut self, session_id: SessionId) -> (cleared: bool)
        ensures
            cleared == (old(self)@ == WorkPhase::Transcribing(session_id)),
            final(self)@ == (if cleared {
                WorkPhase::Empty
            } else {
                old(self)@
            }),
    {
        match self.phase {
            WorkPhase::Transcribing(owned) => {
                if owned.same_as(session_id) {
                    self.phase = WorkPhase::Empty;
                    return true;
                }
                false
            },
            _ => false,
        }
    }

    /// Drops whatever work `session_id` holds.
    pub fn clear_work(&mut self, session_id: SessionId)
        ensures
            final(self)@ == (if phase_session(old(self)@) == Some(session_id) {
                WorkPhase::Empty
            } else {
                old(self)@
            }),
    {
        match self.session_id() {
            Some(owned) => {
                if owned.same_as(session_id) {
                    self.phase = WorkPhase::Empty;
                }
            },
            None => {},
        }
    }
}

/// Work on `session_id` expecting state `expected` may proceed only when it is
/// the current session and in that state.
pub fn ensure_state(
    current: Option<SessionSnapshot>,
    session_id: SessionId,
    expected: SessionState,
) -> (result: Result<SessionSnapshot, RuntimeError>)
    ensures
        match current {
            None => result matches Err(RuntimeError::Session(e)) && e
                == SessionCoordinatorError::NoActiveSession,
            Some(c) => if c.id != session_id {
                result matches Err(RuntimeError::Session(e)) && e
                    == (SessionCoordinatorError::StaleSession { supplied: session_id, active: c.id })
            } else if c.state != expected {
                result matches Err(RuntimeError::WorkInvalidated { session_id: s, operation: o })
                    && s == session_id && o == spec_operation_for_state(expected)
            } else {
                result matches Ok(snapshot) && snapshot == c
            },
        },
{
    match current {
        None => Err(RuntimeError::Session(SessionCoordinatorError::NoActiveSession)),
        Some(c) => {
            if !c.id.same_as(session_id) {
                Err(
                    RuntimeError::Session(
                        SessionCoordinatorError::StaleSession { supplied: session_id, active: c.id },
                    ),
                )
            } else if c.state != expected {
                Err(
                    RuntimeError::WorkInvalidated {
                        session_id,
                        operation: operation_for_state(expected),
                    },
                )
            } else {
                Ok(c)
            }
        },
    }
}

/// Text may be inserted for `session_id` only while it is the current session
/// and in its insertion state.
pub fn can_insert(current: Option<SessionSnapshot>, session_id: SessionId) -> (allowed: bool)
    ensures
        allowed == (current matches Some(c) && c.id == session_id && c.state == SessionState::Inserting),
{
    match current {
        Some(c) => c.id.same_as(session_id) && c.state == SessionState::Inserting,
        None => false,
    }
}

/// A failure of `session_id` is recorded only while it is the current,
/// unfinished session.
pub fn should_record_failure(current: Option<SessionSnapshot>, session_id: SessionId) -> (record: bool)
    ensures
        record == (current matches Some(c) && c.id == session_id && !c.state.spec_is_terminal()),
{
    match current {
        Some(c) => c.id.same_as(session_id) && !c.is_terminal(),
        None => false,
    }
}

} // verus!
