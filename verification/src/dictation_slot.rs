//! The desktop dictation slot: at most one dictation at a time, moving from
//! preparation through recording, finalization and insertion, with stale
//! session identifiers refused at every step. The recognizer, capture and
//! insertion work that happens between the steps is left to the caller.
use vstd::prelude::*;

use crate::asr::RecognitionOptions;
use crate::audio::AudioDeviceId;
use crate::coordinator::SessionSnapshot;
use crate::desktop::{DesktopDictationError, DesktopDictationErrorKind};
use crate::pipeline::FinalizationReport;
use crate::session::SessionId;
use crate::text::{decimal, is_blank, is_blank_str, u64_to_decimal};

verus! {

broadcast use crate::session::lemma_session_id_view_injective;

/// What a dictation is started with.
#[derive(Debug, Clone)]
pub struct DesktopDictationRequest {
    pub device_id: AudioDeviceId,
    pub model_path: String,
    pub recognition: RecognitionOptions,
}

/// The outcome of a dictation in which no speech was detected.
#[derive(Debug, Clone, PartialEq, Eq)]
pub struct DesktopNoSpeechReport {
    pub finalized: FinalizationReport,
    pub terminal_session: SessionSnapshot,
    pub vad_backend: String,
    pub engine_id: String,
    pub model_id: String,
    pub backend_name: String,
}

/// Where the single dictation slot stands.
#[derive(Debug, Clone, Copy, PartialEq, Eq, Structural)]
pub enum DictationSlotState {
    Idle,
    Preparing,
    Recording(SessionId),
    Finalizing(SessionId),
    AwaitingInsertion(SessionId),
    Inserting(SessionId),
}

pub open spec fn slot_session(s: DictationSlotState) -> Option<SessionId> {
    match s {
        DictationSlotState::Recording(id) => Some(id),
        DictationSlotState::Finalizing(id) => Some(id),
        DictationSlotState::AwaitingInsertion(id) => Some(id),
        DictationSlotState::Inserting(id) => Some(id),
        _ => None,
    }
}

pub open spec fn slot_state_name(s: DictationSlotState) -> Seq<char> {
    match s {
        DictationSlotState::Idle => "idle"@,
        DictationSlotState::Preparing => "preparing"@,
        DictationSlotState::Recording(_) => "recording"@,
        DictationSlotState::Finalizing(_) => "finalizing"@,
        DictationSlotState::AwaitingInsertion(_) => "awaitingInsertion"@,
        DictationSlotState::Inserting(_) => "inserting"@,
    }
}

impl DictationSlotState {
    pub fn session_id(&self) -> (id: Option<SessionId>)
        ensures
            id == slot_session(*self),
    {
        match self {
            DictationSlotState::Recording(id) => Some(*id),
            DictationSlotState::Finalizing(id) => Some(*id),
            DictationSlotState::AwaitingInsertion(id) => Some(*id),
            DictationSlotState::Inserting(id) => Some(*id),
            _ => None,
        }
    }

    pub fn state_name(&self) -> (name: &'static str)
        ensures
            name@ == slot_state_name(*self),
    {
        match self {
            DictationSlotState::Idle => "idle",
            DictationSlotState::Preparing => "preparing",
            DictationSlotState::Recording(_) => "recording",
            DictationSlotState::Finalizing(_) => "finalizing",
            DictationSlotState::AwaitingInsertion(_) => "awaitingInsertion",
            DictationSlotState::Inserting(_) => "inserting",
        }
    }
}

pub open spec fn busy_message(state: Seq<char>) -> Seq<char> {
    "dictation service is busy in state "@ + state
}

pub open spec fn stale_message(supplied: SessionId, active: SessionId) -> Seq<char> {
    "dictation session "@ + decimal(supplied@ as nat) + " is stale; active session is "@ + decimal(
        active@ as nat,
    )
}

pub fn busy_error(state: &str) -> (error: DesktopDictationError)
    ensures
        error.spec_kind() == DesktopDictationErrorKind::Busy,
        error.spec_message() == busy_message(state@),
{
    let mut message = String::from_str("dictation service is busy in state ");
    message.append(state);
    DesktopDictationError::new(DesktopDictationErrorKind::Busy, message)
}

pub fn stale_error(supplied: SessionId, active: SessionId) -> (error: DesktopDictationError)
    ensures
        error.spec_kind() == DesktopDictationErrorKind::StaleSession,
        error.spec_message() == stale_message(supplied, active),
{
    let mut message = String::from_str("dictation session ");
    message.append(u64_to_decimal(supplied.get()).as_str());
    message.append(" is stale; active session is ");
    message.append(u64_to_decimal(active.get()).as_str());
    DesktopDictationError::new(DesktopDictationErrorKind::StaleSession, message)
}

/// The error for a step on `supplied` that the slot is not ready for: stale
/// when another session holds the slot, busy otherwise.
pub open spec fn spec_slot_error(s: DictationSlotState, supplied: SessionId) -> (DesktopDictationErrorKind, Seq<char>) {
    match slot_session(s) {
        Some(active) => if active != supplied {
            (DesktopDictationErrorKind::StaleSession, stale_message(supplied, active))
        } else {
            (DesktopDictationErrorKind::Busy, busy_message(slot_state_name(s)))
        },
        None => (DesktopDictationErrorKind::Busy, busy_message(slot_state_name(s))),
    }
}

pub fn slot_error(slot: &DictationSlotState, supplied: SessionId) -> (error: DesktopDictationError)
    ensures
        (error.spec_kind(), error.spec_message()) == spec_slot_error(*slot, supplied),
{
    match slot.session_id() {
        Some(active) => {
            if !active.same_as(supplied) {
                stale_error(supplied, active)
            } else {
                busy_error(slot.state_name())
            }
        },
        None => busy_error(slot.state_name()),
    }
}

/// Whether a request may start a dictation: it needs a model path and, when
/// it has a language hint, a non-blank one.
pub open spec fn spec_request_problem(model_path: Seq<char>, language_hint: Option<Seq<char>>) -> Option<Seq<char>> {
    if model_path.len() == 0 {
        Some("dictation model path cannot be empty"@)
    } else if language_hint matches Some(h) && is_blank(h) {
        Some("dictation language hint cannot be empty"@)
    } else {
        None
    }
}

pub fn validate_request(request: &DesktopDictationRequest) -> (result: Result<(), DesktopDictationError>)
    ensures
        match result {
            Ok(()) => spec_request_problem(
                request.model_path@,
                crate::settings::string_opt_view(request.recognition.language_hint),
            ) is None,
            Err(e) => e.spec_kind() == DesktopDictationErrorKind::InvalidConfiguration && spec_request_problem(
                request.model_path@,
                crate::settings::string_opt_view(request.recognition.language_hint),
            ) == Some(e.spec_message()),
        },
{
    if request.model_path.as_str().is_empty() {
        return Err(
            DesktopDictationError::new(
                DesktopDictationErrorKind::InvalidConfiguration,
                String::from_str("dictation model path cannot be empty"),
            ),
        );
    }
    if let Some(language) = &request.recognition.language_hint {
        if is_blank_str(language.as_str()) {
            return Err(
                DesktopDictationError::new(
                    DesktopDictationErrorKind::InvalidConfiguration,
                    String::from_str("dictation language hint cannot be empty"),
                ),
            );
        }
    }
    Ok(())
}

/// The single dictation slot of the desktop shell.
#[derive(Debug)]
pub struct DictationSlot {
    state: DictationSlotState,
}

impl View for DictationSlot {
    type V = DictationSlotState;

    closed spec fn view(&self) -> DictationSlotState {
        self.state
    }
}

impl DictationSlot {
    pub fn new() -> (slot: Self)
        ensures
            slot@ == DictationSlotState::Idle,
    {
        DictationSlot { state: DictationSlotState::Idle }
    }

    /// A slot in the given state.
    pub fn with_state(state: DictationSlotState) -> (slot: Self)
        ensures
            slot@ == state,
    {
        DictationSlot { state }
    }

    pub fn state(&self) -> (state: DictationSlotState)
        ensures
            state == self@,
    {
        self.state
    }

    pub fn state_name(&self) -> (name: &'static str)
        ensures
            name@ == slot_state_name(self@),
    {
        self.state.state_name()
    }

    pub fn active_session_id(&self) -> (id: Option<SessionId>)
        ensures
            id == slot_session(self@),
    {
        self.state.session_id()
    }

    /// Claims the idle slot for a new dictation; any other state is busy.
    pub fn begin_preparing(&mut self) -> (result: Result<(), DesktopDictationError>)
        ensures
            match result {
                Ok(()) => old(self)@ == DictationSlotState::Idle && final(self)@
                    == DictationSlotState::Preparing,
                Err(e) => old(self)@ != DictationSlotState::Idle && final(self)@ == old(self)@
                    && e.spec_kind() == DesktopDictationErrorKind::Busy && e.spec_message()
                    == busy_message(slot_state_name(old(self)@)),
            },
    {
        match self.state {
            DictationSlotState::Idle => {
                self.state = DictationSlotState::Preparing;
                Ok(())
            },
            _ => Err(busy_error(self.state.state_name())),
        }
    }

    /// Recording of `session_id` started; it is accepted only while preparing.
    pub fn recording_started(&mut self, session_id: SessionId) -> (result: Result<(), DesktopDictationError>)
        ensures
            match result {
                Ok(()) => old(self)@ == DictationSlotState::Preparing && final(self)@
                    == DictationSlotState::Recording(session_id),
                Err(e) => old(self)@ != DictationSlotState::Preparing && final(self)@ == old(self)@
                    && e.spec_kind() == DesktopDictationErrorKind::Busy && e.spec_message()
                    == "dictation preparation was invalidated before recording started"@,
            },
    {
        match self.state {
            DictationSlotState::Preparing => {
                self.state = DictationSlotState::Recording(session_id);
                Ok(())
            },
            _ => Err(
                DesktopDictationError::new(
                    DesktopDictationErrorKind::Busy,
                    String::from_str("dictation preparation was invalidated before recording started"),
                ),
            ),
        }
    }

    /// Claims the recording of `session_id` for finalization.
    pub fn begin_finishing(&mut self, session_id: SessionId) -> (result: Result<(), DesktopDictationError>)
        ensures
            match result {
                Ok(()) => old(self)@ == DictationSlotState::Recording(session_id) && final(self)@
                    == DictationSlotState::Finalizing(session_id),
                Err(e) => old(self)@ != DictationSlotState::Recording(session_id) && final(self)@
                    == old(self)@ && (e.spec_kind(), e.spec_message()) == spec_slot_error(
                    old(self)@,
                    session_id,
                ),
            },
    {
        match self.state {
            DictationSlotState::Recording(active) => {
                if active.same_as(session_id) {
                    self.state = DictationSlotState::Finalizing(session_id);
                    return Ok(());
                }
            },
            _ => {},
        }
        Err(slot_error(&self.state, session_id))
    }

    /// A transcript awaits insertion.
    pub fn transcribed(&mut self, session_id: SessionId)
        ensures
            final(self)@ == DictationSlotState::AwaitingInsertion(session_id),
    {
        self.state = DictationSlotState::AwaitingInsertion(session_id);
    }

    /// Claims the transcript of `session_id` for insertion.
    pub fn begin_insertion(&mut self, session_id: SessionId) -> (result: Result<(), DesktopDictationError>)
        ensures
            match result {
                Ok(()) => old(self)@ == DictationSlotState::AwaitingInsertion(session_id)
                    && final(self)@ == DictationSlotState::Inserting(session_id),
                Err(e) => old(self)@ != DictationSlotState::AwaitingInsertion(session_id)
                    && final(self)@ == old(self)@ && (e.spec_kind(), e.spec_message()) == spec_slot_error(
                    old(self)@,
                    session_id,
                ),
            },
    {
        match self.state {
            DictationSlotState::AwaitingInsertion(active) => {
                if active.same_as(session_id) {
                    self.state = DictationSlotState::Inserting(session_id);
                    return Ok(());
                }
            },
            _ => {},
        }
        Err(slot_error(&self.state, session_id))
    }

    /// Checks that the insertion of `session_id` is under way.
    pub fn ensure_inserting(&self, session_id: SessionId) -> (result: Result<(), DesktopDictationError>)
        ensures
            match result {
                Ok(()) => self@ == DictationSlotState::Inserting(session_id),
                Err(e) => self@ != DictationSlotState::Inserting(session_id) && (e.spec_kind(), e.spec_message())
                    == spec_slot_error(self@, session_id),
            },
    {
        match self.state {
            DictationSlotState::Inserting(active) => {
                if active.same_as(session_id) {
                    return Ok(());
                }
            },
            _ => {},
        }
        Err(slot_error(&self.state, session_id))
    }

    /// Releases the slot for cancellation of `session_id`: allowed while it
    /// records or awaits insertion; `true` when it was recording (its
    /// recognizer can be reused).
    pub fn begin_cancel(&mut self, session_id: SessionId) -> (result: Result<bool, DesktopDictationError>)
        ensures
            match result {
                Ok(was_recording) => ((old(self)@ == DictationSlotState::Recording(session_id)
                    && was_recording) || (old(self)@ == DictationSlotState::AwaitingInsertion(
                    session_id,
                ) && !was_recording)) && final(self)@ == DictationSlotState::Idle,
                Err(e) => final(self)@ == old(self)@ && match old(self)@ {
                    DictationSlotState::Recording(active) => active != session_id && e.spec_kind()
                        == DesktopDictationErrorKind::StaleSession && e.spec_message()
                        == stale_message(session_id, active),
                    DictationSlotState::AwaitingInsertion(active) => active != session_id
                        && e.spec_kind() == DesktopDictationErrorKind::StaleSession && e.spec_message()
                        == stale_message(session_id, active),
                    DictationSlotState::Idle => e.spec_kind() == DesktopDictationErrorKind::Busy
                        && e.spec_message() == "there is no active dictation to cancel"@,
                    other => e.spec_kind() == DesktopDictationErrorKind::Busy && e.spec_message()
                        == busy_message(slot_state_name(other)),
                },
            },
    {
        match self.state {
            DictationSlotState::Recording(active) => {
                if active.same_as(session_id) {
                    self.state = DictationSlotState::Idle;
                    Ok(true)
                } else {
                    Err(stale_error(session_id, active))
                }
            },
            DictationSlotState::AwaitingInsertion(active) => {
                if active.same_as(session_id) {
                    self.state = DictationSlotState::Idle;
                    Ok(false)
                } else {
                    Err(stale_error(session_id, active))
                }
            },
            DictationSlotState::Finalizing(_) => Err(busy_error("finalizing")),
            DictationSlotState::Inserting(_) => Err(busy_error("inserting")),
            DictationSlotState::Preparing => Err(busy_error("preparing")),
            DictationSlotState::Idle => Err(
                DesktopDictationError::new(
                    DesktopDictationErrorKind::Busy,
                    String::from_str("there is no active dictation to cancel"),
                ),
            ),
        }
    }

    pub fn reset(&mut self)
        ensures
            final(self)@ == DictationSlotState::Idle,
    {
        self.state = DictationSlotState::Idle;
    }
}

/// A step on a session other than the one holding the slot is refused as
/// stale and names the active session.
pub proof fn law_stale_session_is_refused(s: DictationSlotState, supplied: SessionId)
    requires
        slot_session(s) matches Some(active) && active != supplied,
    ensures
        spec_slot_error(s, supplied) == (
            DesktopDictationErrorKind::StaleSession,
            stale_message(supplied, slot_session(s)->0),
        ),
{
}

} // verus!
