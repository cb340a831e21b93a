//! The bounded lifecycle of one dictation attempt.
use vstd::prelude::*;

verus! {

/// Stable identifier for a single dictation attempt.
#[derive(Debug, Clone, Copy, PartialEq, Eq, Hash, Structural)]
pub struct SessionId(u64);

impl View for SessionId {
    type V = u64;

    closed spec fn view(&self) -> u64 {
        self.0
    }
}

/// Two identifiers are equal exactly when the numbers they carry are equal.
pub broadcast proof fn lemma_session_id_view_injective(a: SessionId, b: SessionId)
    ensures
        #![trigger a@, b@]
        (a@ == b@) <==> (a == b),
{
}

impl SessionId {
    pub fn new(value: u64) -> (id: Self)
        ensures
            id@ == value,
    {
        SessionId(value)
    }

    pub fn get(self) -> (value: u64)
        ensures
            value == self@,
    {
        self.0
    }

    /// Exact comparison of two identifiers.
    pub fn same_as(self, other: SessionId) -> (same: bool)
        ensures
            same == (self == other),
            same == (self@ == other@),
    {
        self.0 == other.0
    }
}

/// The bounded lifecycle of a dictation session.
#[derive(Debug, Clone, Copy, PartialEq, Eq, Structural)]
pub enum SessionState {
    Arming,
    Recording,
    FinalizingAudio,
    Transcribing,
    Transforming,
    Inserting,
    Completed,
    Failed,
    Cancelled,
}

impl SessionState {
    pub open spec fn spec_is_terminal(self) -> bool {
        self is Completed || self is Failed || self is Cancelled
    }

    #[verifier::when_used_as_spec(spec_is_terminal)]
    pub fn is_terminal(self) -> (terminal: bool)
        ensures
            terminal == self.spec_is_terminal(),
    {
        match self {
            SessionState::Completed | SessionState::Failed | SessionState::Cancelled => true,
            _ => false,
        }
    }
}

/// Pipeline stage responsible for a terminal failure.
#[derive(Debug, Clone, Copy, PartialEq, Eq, Structural)]
pub enum FailureStage {
    AudioCapture,
    SpeechDetection,
    SpeechRecognition,
    Transformation,
    TargetResolution,
    TextInsertion,
    Internal,
}

/// Events accepted by the session state machine.
#[derive(Debug, Clone, Copy, PartialEq, Eq, Structural)]
pub enum SessionEvent {
    RecordingStarted,
    RecordingStopped,
    AudioFinalized,
    TranscriptReady { requires_transform: bool },
    TransformFinished,
    InsertionDelivered,
    Fail(FailureStage),
    Cancel,
}

/// A successfully applied state transition.
#[derive(Debug, Clone, Copy, PartialEq, Eq, Structural)]
pub struct Transition {
    pub from: SessionState,
    pub to: SessionState,
    pub event: SessionEvent,
}

/// Error returned when an event is invalid for the current session state.
#[derive(Debug, Clone, Copy, PartialEq, Eq, Structural)]
pub struct TransitionError {
    pub state: SessionState,
    pub event: SessionEvent,
}

/// How a session state is written in diagnostics: its variant name.
pub open spec fn spec_state_label(state: SessionState) -> Seq<char> {
    match state {
        SessionState::Arming => "Arming"@,
        SessionState::Recording => "Recording"@,
        SessionState::FinalizingAudio => "FinalizingAudio"@,
        SessionState::Transcribing => "Transcribing"@,
        SessionState::Transforming => "Transforming"@,
        SessionState::Inserting => "Inserting"@,
        SessionState::Completed => "Completed"@,
        SessionState::Failed => "Failed"@,
        SessionState::Cancelled => "Cancelled"@,
    }
}

pub fn state_label(state: SessionState) -> (label: &'static str)
    ensures
        label@ == spec_state_label(state),
{
    match state {
        SessionState::Arming => "Arming",
        SessionState::Recording => "Recording",
        SessionState::FinalizingAudio => "FinalizingAudio",
        SessionState::Transcribing => "Transcribing",
        SessionState::Transforming => "Transforming",
        SessionState::Inserting => "Inserting",
        SessionState::Completed => "Completed",
        SessionState::Failed => "Failed",
        SessionState::Cancelled => "Cancelled",
    }
}

/// How a lifecycle event is written in diagnostics: its variant name with its
/// fields.
pub open spec fn spec_event_label(event: SessionEvent) -> Seq<char> {
    match event {
        SessionEvent::RecordingStarted => "RecordingStarted"@,
        SessionEvent::RecordingStopped => "RecordingStopped"@,
        SessionEvent::AudioFinalized => "AudioFinalized"@,
        SessionEvent::TranscriptReady { requires_transform } => if requires_transform {
            "TranscriptReady { requires_transform: true }"@
        } else {
            "TranscriptReady { requires_transform: false }"@
        },
        SessionEvent::TransformFinished => "TransformFinished"@,
        SessionEvent::InsertionDelivered => "InsertionDelivered"@,
        SessionEvent::Fail(stage) => "Fail("@ + crate::desktop::spec_failure_stage_name(stage) + ")"@,
        SessionEvent::Cancel => "Cancel"@,
    }
}

pub fn event_label(event: SessionEvent) -> (label: String)
    ensures
        label@ == spec_event_label(event),
{
    match event {
        SessionEvent::RecordingStarted => String::from_str("RecordingStarted"),
        SessionEvent::RecordingStopped => String::from_str("RecordingStopped"),
        SessionEvent::AudioFinalized => String::from_str("AudioFinalized"),
        SessionEvent::TranscriptReady { requires_transform } => if requires_transform {
            String::from_str("TranscriptReady { requires_transform: true }")
        } else {
            String::from_str("TranscriptReady { requires_transform: false }")
        },
        SessionEvent::TransformFinished => String::from_str("TransformFinished"),
        SessionEvent::InsertionDelivered => String::from_str("InsertionDelivered"),
        SessionEvent::Fail(stage) => {
            let mut label = String::from_str("Fail(");
            label.append(crate::desktop::failure_stage_name(stage));
            label.append(")");
            label
        },
        SessionEvent::Cancel => String::from_str("Cancel"),
    }
}

impl TransitionError {
    /// The text a user is shown for this error.
    pub open spec fn spec_message(self) -> Seq<char> {
        "event "@ + spec_event_label(self.event) + " is invalid while session is "@
            + spec_state_label(self.state)
    }

    pub fn message(self) -> (message: String)
        ensures
            message@ == self.spec_message(),
    {
        let mut message = String::from_str("event ");
        message.append(event_label(self.event).as_str());
        message.append(" is invalid while session is ");
        message.append(state_label(self.state));
        message
    }
}

/// The state the lifecycle moves to when `event` arrives in `state`, or `None`
/// when the event is not accepted there.
pub open spec fn next_state(state: SessionState, event: SessionEvent) -> Option<SessionState> {
    match (state, event) {
        (SessionState::Arming, SessionEvent::RecordingStarted) => Some(SessionState::Recording),
        (SessionState::Recording, SessionEvent::RecordingStopped) => Some(
            SessionState::FinalizingAudio,
        ),
        (SessionState::FinalizingAudio, SessionEvent::AudioFinalized) => Some(
            SessionState::Transcribing,
        ),
        (SessionState::Transcribing, SessionEvent::TranscriptReady { requires_transform }) => {
            if requires_transform {
                Some(SessionState::Transforming)
            } else {
                Some(SessionState::Inserting)
            }
        },
        (SessionState::Transforming, SessionEvent::TransformFinished) => Some(
            SessionState::Inserting,
        ),
        (SessionState::Inserting, SessionEvent::InsertionDelivered) => Some(
            SessionState::Completed,
        ),
        (s, SessionEvent::Fail(_)) => if !s.spec_is_terminal() {
            Some(SessionState::Failed)
        } else {
            None
        },
        (s, SessionEvent::Cancel) => if !s.spec_is_terminal() {
            Some(SessionState::Cancelled)
        } else {
            None
        },
        _ => None,
    }
}

/// Platform-independent state for one dictation operation.
#[derive(Debug, Clone, Copy, PartialEq, Eq, Structural)]
pub struct DictationSession {
    id: SessionId,
    state: SessionState,
    failure_stage: Option<FailureStage>,
}

impl DictationSession {
    pub closed spec fn spec_id(&self) -> SessionId {
        self.id
    }

    pub closed spec fn spec_state(&self) -> SessionState {
        self.state
    }

    pub closed spec fn spec_failure_stage(&self) -> Option<FailureStage> {
        self.failure_stage
    }

    /// A failure stage is recorded exactly when the session has failed.
    pub open spec fn wf(&self) -> bool {
        (self.spec_state() is Failed) <==> (self.spec_failure_stage() is Some)
    }

    pub fn new(id: SessionId) -> (session: Self)
        ensures
            session.spec_id() == id,
            session.spec_state() == SessionState::Arming,
            session.spec_failure_stage() is None,
            session.wf(),
    {
        DictationSession { id, state: SessionState::Arming, failure_stage: None }
    }

    pub fn id(&self) -> (id: SessionId)
        ensures
            id == self.spec_id(),
    {
        self.id
    }

    pub fn state(&self) -> (state: SessionState)
        ensures
            state == self.spec_state(),
    {
        self.state
    }

    pub fn failure_stage(&self) -> (stage: Option<FailureStage>)
        ensures
            stage == self.spec_failure_stage(),
    {
        self.failure_stage
    }

    /// Applies one lifecycle event without mutating the session on invalid input.
    pub fn apply(&mut self, event: SessionEvent) -> (result: Result<Transition, TransitionError>)
        ensures
            final(self).spec_id() == old(self).spec_id(),
            match next_state(old(self).spec_state(), event) {
                Some(to) => {
                    &&& result == Ok::<Transition, TransitionError>(
                        Transition { from: old(self).spec_state(), to, event },
                    )
                    &&& final(self).spec_state() == to
                    &&& final(self).spec_failure_stage() == (match event {
                        SessionEvent::Fail(stage) => Some(stage),
                        _ => old(self).spec_failure_stage(),
                    })
                },
                None => {
                    &&& result == Err::<Transition, TransitionError>(
                        TransitionError { state: old(self).spec_state(), event },
                    )
                    &&& *final(self) == *old(self)
                },
            },
            old(self).wf() ==> final(self).wf(),
    {
        let from = self.state;
        let to = match (from, event) {
            (SessionState::Arming, SessionEvent::RecordingStarted) => SessionState::Recording,
            (SessionState::Recording, SessionEvent::RecordingStopped) => {
                SessionState::FinalizingAudio
            },
            (SessionState::FinalizingAudio, SessionEvent::AudioFinalized) => {
                SessionState::Transcribing
            },
            (SessionState::Transcribing, SessionEvent::TranscriptReady { requires_transform }) => {
                if requires_transform {
                    SessionState::Transforming
                } else {
                    SessionState::Inserting
                }
            },
            (SessionState::Transforming, SessionEvent::TransformFinished) => {
                SessionState::Inserting
            },
            (SessionState::Inserting, SessionEvent::InsertionDelivered) => SessionState::Completed,
            (state, SessionEvent::Fail(stage)) => {
                if state.is_terminal() {
                    return Err(TransitionError { state: from, event });
                }
                self.failure_stage = Some(stage);
                SessionState::Failed
            },
            (state, SessionEvent::Cancel) => {
                if state.is_terminal() {
                    return Err(TransitionError { state: from, event });
                }
                SessionState::Cancelled
            },
            _ => {
                return Err(TransitionError { state: from, event });
            },
        };
        self.state = to;
        Ok(Transition { from, to, event })
    }
}

/// A terminal session accepts no further event.
pub proof fn law_terminal_states_are_final(state: SessionState, event: SessionEvent)
    requires
        state.spec_is_terminal(),
    ensures
        next_state(state, event) is None,
{
}

/// Every non-terminal session can always be cancelled or failed, and both
/// moves end the lifecycle.
pub proof fn law_cancel_and_fail_always_end_live_sessions(
    state: SessionState,
    stage: FailureStage,
)
    requires
        !state.spec_is_terminal(),
    ensures
        next_state(state, SessionEvent::Cancel) == Some(SessionState::Cancelled),
        next_state(state, SessionEvent::Fail(stage)) == Some(SessionState::Failed),
{
}

/// Every accepted event moves the lifecycle to a different state: no event is
/// accepted as a silent no-op.
pub proof fn law_accepted_events_change_state(state: SessionState, event: SessionEvent)
    requires
        next_state(state, event) is Some,
    ensures
        next_state(state, event)->0 != state,
{
}

/// A session is completed only when it was inserting and the backend accepted
/// the full submission.
pub proof fn law_completed_only_after_delivery(state: SessionState, event: SessionEvent)
    requires
        next_state(state, event) == Some(SessionState::Completed),
    ensures
        state == SessionState::Inserting,
        event == SessionEvent::InsertionDelivered,
{
}

/// How far along its pipeline a session is.
pub open spec fn lifecycle_rank(state: SessionState) -> int {
    match state {
        SessionState::Arming => 0,
        SessionState::Recording => 1,
        SessionState::FinalizingAudio => 2,
        SessionState::Transcribing => 3,
        SessionState::Transforming => 4,
        SessionState::Inserting => 5,
        _ => 6,
    }
}

/// The lifecycle only moves forward: every accepted event advances the
/// session along its pipeline or ends it.
pub proof fn law_lifecycle_moves_forward(state: SessionState, event: SessionEvent)
    requires
        next_state(state, event) is Some,
    ensures
        lifecycle_rank(next_state(state, event)->0) > lifecycle_rank(state),
{
}

/// Version of the BLCVoice core reported at start-up.
pub const CORE_VERSION: &'static str = "0.1.0";

/// The foundation status the desktop shell shows at start-up.
pub fn status_line() -> (line: String)
    ensures
        line@ == "BLCVoice core "@ + CORE_VERSION@ + " · dictation state machine ready"@,
{
    let mut line = String::from_str("BLCVoice core ");
    line.append(CORE_VERSION);
    line.append(" · dictation state machine ready");
    line
}

} // verus!
