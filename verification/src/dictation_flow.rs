//! The decisions of the desktop dictation service between its outside steps.
//! Starting a dictation prepares the recognizer before recording: the slot is
//! claimed, the recognizer is taken from the cache or loaded, then capture is
//! started. Finishing finalizes the capture, runs speech detection and
//! recognition, and hands the recognizer back to the cache on every path.
//! The caller performs each action and reports the outcome as the next event.
use vstd::prelude::*;

use crate::desktop::{
    map_capture_error, spec_dictation_kind_of_capture, DesktopCaptureError, DesktopCaptureErrorKind,
    DesktopDictationError, DesktopDictationErrorKind,
};
use crate::dictation_slot::{
    busy_message, slot_state_name, spec_request_problem, validate_request, DesktopDictationRequest,
    DictationSlot, DictationSlotState,
};
use crate::session::SessionId;
use crate::text::str_eq;

verus! {

/// Identifies a loaded model: its resolved path, the file's length and its
/// modification time as `(at or after the epoch, seconds, nanoseconds)` from
/// the epoch, each absent where the file system did not report it.
#[derive(Debug, Clone)]
pub struct RecognizerCacheKey {
    pub model_path: String,
    pub file_len: Option<u64>,
    pub modified: Option<(bool, u64, u32)>,
}

impl View for RecognizerCacheKey {
    type V = (Seq<char>, Option<u64>, Option<(bool, u64, u32)>);

    open spec fn view(&self) -> Self::V {
        (self.model_path@, self.file_len, self.modified)
    }
}

impl RecognizerCacheKey {
    /// Two keys name the same model file in the same version.
    pub fn same_as(&self, other: &RecognizerCacheKey) -> (same: bool)
        ensures
            same == (self@ == other@),
    {
        if !str_eq(self.model_path.as_str(), other.model_path.as_str()) {
            return false;
        }
        let same_len = match (self.file_len, other.file_len) {
            (Some(a), Some(b)) => a == b,
            (None, None) => true,
            _ => false,
        };
        let same_modified = match (self.modified, other.modified) {
            (Some(a), Some(b)) => a.0 == b.0 && a.1 == b.1 && a.2 == b.2,
            (None, None) => true,
            _ => false,
        };
        same_len && same_modified
    }
}

/// The one recognizer kept between dictations, with the key of its model.
pub struct RecognizerCache<R> {
    entry: Option<(RecognizerCacheKey, R)>,
}

impl<R> View for RecognizerCache<R> {
    type V = Option<((Seq<char>, Option<u64>, Option<(bool, u64, u32)>), R)>;

    closed spec fn view(&self) -> Self::V {
        match self.entry {
            Some((key, recognizer)) => Some((key@, recognizer)),
            None => None,
        }
    }
}

impl<R> RecognizerCache<R> {
    pub fn new() -> (cache: Self)
        ensures
            cache@ is None,
    {
        RecognizerCache { entry: None }
    }

    /// Empties the cache, handing back its recognizer when it was loaded from
    /// the model that `key` names; a recognizer of another model is dropped.
    pub fn take_for(&mut self, key: &RecognizerCacheKey) -> (cached: Option<R>)
        ensures
            final(self)@ is None,
            cached == match old(self)@ {
                Some((cached_key, recognizer)) => if cached_key == key@ {
                    Some(recognizer)
                } else {
                    None
                },
                None => None,
            },
    {
        match self.entry.take() {
            Some((cached_key, recognizer)) => {
                if cached_key.same_as(key) {
                    Some(recognizer)
                } else {
                    None
                }
            },
            None => None,
        }
    }

    /// Keeps `recognizer` for the next dictation, replacing what was cached.
    pub fn recycle(&mut self, key: RecognizerCacheKey, recognizer: R)
        ensures
            final(self)@ == Some((key@, recognizer)),
    {
        self.entry = Some((key, recognizer));
    }
}

/// What happened in the outside step of starting a dictation.
#[derive(Debug, Clone)]
pub enum StartEvent {
    /// The recognizer is ready, taken from the cache or loaded.
    RecognizerReady,
    /// Loading the recognizer failed with this message.
    RecognizerFailed(String),
    /// Capture of this session started.
    CaptureStarted(SessionId),
    CaptureFailed(DesktopCaptureError),
}

/// What the caller does next while starting a dictation.
#[derive(Debug, Clone)]
pub enum StartAction {
    /// Start capturing audio with the prepared recognizer held aside.
    StartCapture,
    /// The dictation records this session; the recognizer stays with it.
    Started(SessionId),
    /// The start failed: hand the recognizer back to the cache when asked,
    /// cancel the capture when one is named, and report the error.
    Failed { recycle_recognizer: bool, cancel_capture: Option<SessionId>, error: DesktopDictationError },
}

/// The message of a start whose preparation was taken away meanwhile.
pub open spec fn invalidated_message() -> Seq<char> {
    "dictation preparation was invalidated before recording started"@
}

/// Checks a request and claims the idle slot for it.
pub fn begin_start(slot: &mut DictationSlot, request: &DesktopDictationRequest) -> (result: Result<
    (),
    DesktopDictationError,
>)
    ensures
        ({
            let problem = spec_request_problem(
                request.model_path@,
                crate::settings::string_opt_view(request.recognition.language_hint),
            );
            match result {
                Ok(()) => problem is None && old(slot)@ == DictationSlotState::Idle && final(slot)@
                    == DictationSlotState::Preparing,
                Err(e) => final(slot)@ == old(slot)@ && if problem is Some {
                    e.spec_kind() == DesktopDictationErrorKind::InvalidConfiguration
                        && e.spec_message() == problem->0
                } else {
                    old(slot)@ != DictationSlotState::Idle && e.spec_kind()
                        == DesktopDictationErrorKind::Busy && e.spec_message() == busy_message(
                        slot_state_name(old(slot)@),
                    )
                },
            }
        }),
{
    validate_request(request)?;
    slot.begin_preparing()
}

/// The decision after one outside step of a start. Capture is started only
/// for a slot still preparing once the recognizer is ready; a recognizer that
/// failed to load leaves nothing to hand back; a capture that failed or came
/// after the preparation was taken away hands the recognizer back (and the
/// late capture is cancelled). Every failure leaves the slot idle.
pub fn start_step(slot: &mut DictationSlot, event: StartEvent) -> (action: StartAction)
    ensures
        match event {
            StartEvent::RecognizerReady => if old(slot)@ == DictationSlotState::Preparing {
                action is StartCapture && final(slot)@ == old(slot)@
            } else {
                action matches StartAction::Failed { recycle_recognizer, cancel_capture, error }
                    && recycle_recognizer && cancel_capture is None && error.spec_kind()
                    == DesktopDictationErrorKind::Busy && error.spec_message() == invalidated_message()
                    && final(slot)@ == DictationSlotState::Idle
            },
            StartEvent::RecognizerFailed(message) => action matches StartAction::Failed {
                recycle_recognizer,
                cancel_capture,
                error,
            } && !recycle_recognizer && cancel_capture is None && error.spec_kind()
                == DesktopDictationErrorKind::RecognizerLoad && error.spec_message()
                == "could not load dictation model: "@ + message@ && final(slot)@
                == DictationSlotState::Idle,
            StartEvent::CaptureFailed(e) => action matches StartAction::Failed {
                recycle_recognizer,
                cancel_capture,
                error,
            } && recycle_recognizer && cancel_capture is None && error.spec_kind()
                == spec_dictation_kind_of_capture(e.spec_kind()) && error.spec_message()
                == e.spec_message() && final(slot)@ == DictationSlotState::Idle,
            StartEvent::CaptureStarted(session) => if old(slot)@ == DictationSlotState::Preparing {
                action == StartAction::Started(session) && final(slot)@
                    == DictationSlotState::Recording(session)
            } else {
                action matches StartAction::Failed { recycle_recognizer, cancel_capture, error }
                    && recycle_recognizer && cancel_capture == Some(session) && error.spec_kind()
                    == DesktopDictationErrorKind::Busy && error.spec_message() == invalidated_message()
                    && final(slot)@ == DictationSlotState::Idle
            },
        },
{
    match event {
        StartEvent::RecognizerReady => {
            if slot.state() == DictationSlotState::Preparing {
                StartAction::StartCapture
            } else {
                slot.reset();
                StartAction::Failed {
                    recycle_recognizer: true,
                    cancel_capture: None,
                    error: invalidated_error(),
                }
            }
        },
        StartEvent::RecognizerFailed(message) => {
            slot.reset();
            let mut text = String::from_str("could not load dictation model: ");
            text.append(message.as_str());
            StartAction::Failed {
                recycle_recognizer: false,
                cancel_capture: None,
                error: DesktopDictationError::new(DesktopDictationErrorKind::RecognizerLoad, text),
            }
        },
        StartEvent::CaptureFailed(e) => {
            slot.reset();
            StartAction::Failed {
                recycle_recognizer: true,
                cancel_capture: None,
                error: map_capture_error(e),
            }
        },
        StartEvent::CaptureStarted(session) => {
            match slot.recording_started(session) {
                Ok(()) => StartAction::Started(session),
                Err(error) => {
                    slot.reset();
                    StartAction::Failed {
                        recycle_recognizer: true,
                        cancel_capture: Some(session),
                        error,
                    }
                },
            }
        },
    }
}

fn invalidated_error() -> (error: DesktopDictationError)
    ensures
        error.spec_kind() == DesktopDictationErrorKind::Busy,
        error.spec_message() == invalidated_message(),
{
    DesktopDictationError::new(
        DesktopDictationErrorKind::Busy,
        String::from_str("dictation preparation was invalidated before recording started"),
    )
}

/// What happened in the outside step of finishing a dictation.
#[derive(Debug, Clone)]
pub enum FinishEvent {
    /// The recording was finalized.
    CaptureFinished,
    CaptureFailed(DesktopCaptureError),
    /// Speech detection found no speech.
    NoSpeech,
    /// The speech was transcribed.
    Transcribed,
    /// Speech detection or recognition failed.
    ProcessingFailed(DesktopCaptureError),
}

/// Which failure the capture side records for a failed processing.
#[derive(Debug, Clone, Copy, PartialEq, Eq, Structural)]
pub enum ProcessingFailure {
    SpeechDetection,
    Recognition,
}

#[derive(Debug, Clone, Copy, PartialEq, Eq, Structural)]
pub enum FinishKind {
    NoSpeech,
    Transcribed,
}

/// What the caller does next while finishing a dictation.
#[derive(Debug)]
pub enum FinishAction {
    /// Run speech detection and recognition on the finalized recording.
    Transcribe,
    /// The finish is over: hand the recognizer back when asked, record the
    /// processing failure with the capture side when one is named, and report
    /// the result.
    Done {
        recycle_recognizer: bool,
        record_failure: Option<ProcessingFailure>,
        result: Result<FinishKind, DesktopDictationError>,
    },
}

/// The decision after one outside step of finishing `session_id`, whose slot
/// was claimed for finalization. Every finish that is over hands the
/// recognizer back; a failed speech detection is reported as such and any
/// other processing failure as a transcription failure; no speech returns the
/// slot to idle and a transcript waits for insertion.
pub fn finish_step(slot: &mut DictationSlot, session_id: SessionId, event: FinishEvent) -> (action:
    FinishAction)
    ensures
        action matches FinishAction::Done { recycle_recognizer, .. } ==> recycle_recognizer,
        match event {
            FinishEvent::CaptureFinished => action is Transcribe && final(slot)@ == old(slot)@,
            FinishEvent::CaptureFailed(e) => action matches FinishAction::Done {
                record_failure,
                result: Err(error),
                ..
            } && record_failure is None && error.spec_kind() == spec_dictation_kind_of_capture(
                e.spec_kind(),
            ) && error.spec_message() == e.spec_message() && final(slot)@
                == DictationSlotState::Idle,
            FinishEvent::ProcessingFailed(e) => {
                let detection = e.spec_kind() == DesktopCaptureErrorKind::SpeechDetection;
                &&& action matches FinishAction::Done { record_failure, result: Err(error), .. }
                    && record_failure == Some(
                    if detection {
                        ProcessingFailure::SpeechDetection
                    } else {
                        ProcessingFailure::Recognition
                    },
                ) && error.spec_kind() == (if detection {
                    DesktopDictationErrorKind::SpeechDetection
                } else {
                    DesktopDictationErrorKind::Transcription
                }) && error.spec_message() == "dictation processing failed: "@ + e.spec_message()
                &&& final(slot)@ == DictationSlotState::Idle
            },
            FinishEvent::NoSpeech => action matches FinishAction::Done {
                record_failure,
                result: Ok(kind),
                ..
            } && record_failure is None && kind == FinishKind::NoSpeech && final(slot)@
                == DictationSlotState::Idle,
            FinishEvent::Transcribed => action matches FinishAction::Done {
                record_failure,
                result: Ok(kind),
                ..
            } && record_failure is None && kind == FinishKind::Transcribed && final(slot)@
                == DictationSlotState::AwaitingInsertion(session_id),
        },
{
    match event {
        FinishEvent::CaptureFinished => FinishAction::Transcribe,
        FinishEvent::CaptureFailed(e) => {
            slot.reset();
            FinishAction::Done {
                recycle_recognizer: true,
                record_failure: None,
                result: Err(map_capture_error(e)),
            }
        },
        FinishEvent::ProcessingFailed(e) => {
            slot.reset();
            let detection = match e.kind() {
                DesktopCaptureErrorKind::SpeechDetection => true,
                _ => false,
            };
            let mut message = String::from_str("dictation processing failed: ");
            message.append(e.message());
            let (record, kind) = if detection {
                (ProcessingFailure::SpeechDetection, DesktopDictationErrorKind::SpeechDetection)
            } else {
                (ProcessingFailure::Recognition, DesktopDictationErrorKind::Transcription)
            };
            FinishAction::Done {
                recycle_recognizer: true,
                record_failure: Some(record),
                result: Err(DesktopDictationError::new(kind, message)),
            }
        },
        FinishEvent::NoSpeech => {
            slot.reset();
            FinishAction::Done {
                recycle_recognizer: true,
                record_failure: None,
                result: Ok(FinishKind::NoSpeech),
            }
        },
        FinishEvent::Transcribed => {
            slot.transcribed(session_id);
            FinishAction::Done {
                recycle_recognizer: true,
                record_failure: None,
                result: Ok(FinishKind::Transcribed),
            }
        },
    }
}

/// A failure of the capture side to record the end of an insertion.
pub fn insertion_transition_error(action: &str, error: DesktopCaptureError) -> (mapped: DesktopDictationError)
    ensures
        mapped.spec_kind() == DesktopDictationErrorKind::Insertion,
        mapped.spec_message() == "could not "@ + action@ + " dictation insertion lifecycle: "@
            + error.spec_message(),
{
    let mut message = String::from_str("could not ");
    message.append(action);
    message.append(" dictation insertion lifecycle: ");
    message.append(error.message());
    DesktopDictationError::new(DesktopDictationErrorKind::Insertion, message)
}

} // verus!
