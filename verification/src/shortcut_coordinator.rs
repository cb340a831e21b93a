//! Coordination of shortcut-driven dictation: a start request while idle, a
//! stop that arrives while the start is still in flight, and the completion of
//! the start and of the finish. Running the start and finish work is left to
//! the caller, which reports back with `complete_start` and `complete_finish`.
use vstd::prelude::*;

use crate::desktop::{CommandErrorDto, DictationReportDto};
use crate::session::SessionId;
use crate::shortcuts::ShortcutDecision;

verus! {

/// Name of the event that reports the shortcut dictation lifecycle.
pub const DICTATION_LIFECYCLE_EVENT: &'static str = "blcvoice://dictation-lifecycle";

#[derive(Debug, Clone, Copy, PartialEq, Eq, Structural)]
pub enum CoordinatorState {
    Idle,
    Starting { stop_requested: bool },
    Recording(SessionId),
    Finishing(SessionId),
}

#[derive(Debug, Clone, Copy, PartialEq, Eq, Structural)]
pub enum StartCompletion {
    /// The session records until a stop arrives.
    Recording,
    /// A stop arrived during the start: the session is finished at once.
    FinishImmediately,
    /// The coordinator was not starting: the new session must be cancelled.
    CancelUnexpected,
}

/// What the caller does after a shortcut decision.
#[derive(Debug, Clone, Copy, PartialEq, Eq, Structural)]
pub enum ShortcutAction {
    /// Start a configured dictation session.
    StartSession,
    /// Finish the given session.
    FinishSession(SessionId),
    /// Nothing to do.
    Nothing,
}

pub open spec fn spec_request_start(s: CoordinatorState) -> (CoordinatorState, bool) {
    match s {
        CoordinatorState::Idle => (CoordinatorState::Starting { stop_requested: false }, true),
        _ => (s, false),
    }
}

pub open spec fn spec_request_stop(s: CoordinatorState) -> (CoordinatorState, Option<SessionId>) {
    match s {
        CoordinatorState::Starting { .. } => (CoordinatorState::Starting { stop_requested: true }, None),
        CoordinatorState::Recording(id) => (CoordinatorState::Finishing(id), Some(id)),
        _ => (s, None),
    }
}

pub open spec fn spec_complete_start(s: CoordinatorState, id: SessionId) -> (
    CoordinatorState,
    StartCompletion,
) {
    match s {
        CoordinatorState::Starting { stop_requested: false } => (
            CoordinatorState::Recording(id),
            StartCompletion::Recording,
        ),
        CoordinatorState::Starting { stop_requested: true } => (
            CoordinatorState::Finishing(id),
            StartCompletion::FinishImmediately,
        ),
        _ => (s, StartCompletion::CancelUnexpected),
    }
}

pub open spec fn spec_complete_finish(s: CoordinatorState, id: SessionId) -> CoordinatorState {
    match s {
        CoordinatorState::Finishing(active) => if active == id {
            CoordinatorState::Idle
        } else {
            s
        },
        _ => s,
    }
}

#[derive(Debug)]
pub struct ShortcutDictationCoordinator {
    state: CoordinatorState,
}

impl View for ShortcutDictationCoordinator {
    type V = CoordinatorState;

    closed spec fn view(&self) -> CoordinatorState {
        self.state
    }
}

impl Default for ShortcutDictationCoordinator {
    fn default() -> (coordinator: Self)
        ensures
            coordinator@ == CoordinatorState::Idle,
    {
        ShortcutDictationCoordinator { state: CoordinatorState::Idle }
    }
}

impl ShortcutDictationCoordinator {
    /// A coordinator in the given state.
    pub fn with_state(state: CoordinatorState) -> (coordinator: Self)
        ensures
            coordinator@ == state,
    {
        ShortcutDictationCoordinator { state }
    }

    pub fn state(&self) -> (state: CoordinatorState)
        ensures
            state == self@,
    {
        self.state
    }

    /// A start is accepted only while idle; `true` when the caller must start
    /// a session.
    pub fn request_start(&mut self) -> (should_start: bool)
        ensures
            (final(self)@, should_start) == spec_request_start(old(self)@),
    {
        match self.state {
            CoordinatorState::Idle => {
                self.state = CoordinatorState::Starting { stop_requested: false };
                true
            },
            _ => false,
        }
    }

    /// A stop while starting is remembered; a stop while recording moves to
    /// finishing and names the session the caller must finish.
    pub fn request_stop(&mut self) -> (session_to_finish: Option<SessionId>)
        ensures
            (final(self)@, session_to_finish) == spec_request_stop(old(self)@),
    {
        match self.state {
            CoordinatorState::Starting { .. } => {
                self.state = CoordinatorState::Starting { stop_requested: true };
                None
            },
            CoordinatorState::Recording(session_id) => {
                self.state = CoordinatorState::Finishing(session_id);
                Some(session_id)
            },
            _ => None,
        }
    }

    /// The action a shortcut decision calls for.
    pub fn handle_shortcut(&mut self, decision: ShortcutDecision) -> (action: ShortcutAction)
        ensures
            match decision {
                ShortcutDecision::StartDictation => {
                    let (next, start) = spec_request_start(old(self)@);
                    final(self)@ == next && action == (if start {
                        ShortcutAction::StartSession
                    } else {
                        ShortcutAction::Nothing
                    })
                },
                ShortcutDecision::StopDictation => {
                    let (next, finish) = spec_request_stop(old(self)@);
                    final(self)@ == next && action == match finish {
                        Some(id) => ShortcutAction::FinishSession(id),
                        None => ShortcutAction::Nothing,
                    }
                },
                ShortcutDecision::Ignore => final(self)@ == old(self)@ && action
                    == ShortcutAction::Nothing,
            },
    {
        match decision {
            ShortcutDecision::StartDictation => {
                if self.request_start() {
                    ShortcutAction::StartSession
                } else {
                    ShortcutAction::Nothing
                }
            },
            ShortcutDecision::StopDictation => match self.request_stop() {
                Some(id) => ShortcutAction::FinishSession(id),
                None => ShortcutAction::Nothing,
            },
            ShortcutDecision::Ignore => ShortcutAction::Nothing,
        }
    }

    /// The started session `session_id` now exists.
    pub fn complete_start(&mut self, session_id: SessionId) -> (completion: StartCompletion)
        ensures
            (final(self)@, completion) == spec_complete_start(old(self)@, session_id),
    {
        match self.state {
            CoordinatorState::Starting { stop_requested: false } => {
                self.state = CoordinatorState::Recording(session_id);
                StartCompletion::Recording
            },
            CoordinatorState::Starting { stop_requested: true } => {
                self.state = CoordinatorState::Finishing(session_id);
                StartCompletion::FinishImmediately
            },
            _ => StartCompletion::CancelUnexpected,
        }
    }

    /// The finish of `session_id` is over; only the session being finished
    /// returns the coordinator to idle.
    pub fn complete_finish(&mut self, session_id: SessionId)
        ensures
            final(self)@ == spec_complete_finish(old(self)@, session_id),
    {
        match self.state {
            CoordinatorState::Finishing(active_id) => {
                if active_id.same_as(session_id) {
                    self.state = CoordinatorState::Idle;
                }
            },
            _ => {},
        }
    }

    pub fn reset(&mut self)
        ensures
            final(self)@ == CoordinatorState::Idle,
    {
        self.state = CoordinatorState::Idle;
    }
}

/// A stop that arrives while a start is in flight is not lost: once the
/// session exists it is finished at once.
pub proof fn law_stop_during_start_is_queued(id: SessionId)
    ensures
        ({
            let (after_start, start) = spec_request_start(CoordinatorState::Idle);
            let (after_stop, finish) = spec_request_stop(after_start);
            let (after_complete, completion) = spec_complete_start(after_stop, id);
            &&& start
            &&& finish is None
            &&& completion == StartCompletion::FinishImmediately
            &&& after_complete == CoordinatorState::Finishing(id)
        }),
{
}

/// At most one dictation runs: a start request is refused in every state but
/// idle and changes nothing.
pub proof fn law_one_dictation_at_a_time(s: CoordinatorState)
    requires
        s != CoordinatorState::Idle,
    ensures
        spec_request_start(s) == (s, false),
{
}

/// Only the finish of the session being finished returns the coordinator to
/// idle; a late finish of another session changes nothing.
pub proof fn law_stale_finish_changes_nothing(s: CoordinatorState, id: SessionId)
    requires
        !(s matches CoordinatorState::Finishing(active) && active == id),
    ensures
        spec_complete_finish(s, id) == s,
{
}

/// A completed start in any state but starting is cancelled and changes
/// nothing.
pub proof fn law_unexpected_start_is_cancelled(s: CoordinatorState, id: SessionId)
    requires
        !(s is Starting),
    ensures
        spec_complete_start(s, id) == (s, StartCompletion::CancelUnexpected),
{
}

/// What the shortcut-driven dictation reports to the interface at each step.
#[derive(Debug, Clone, PartialEq, Eq)]
pub struct DictationLifecycleEventDto {
    pub source: &'static str,
    pub state: &'static str,
    pub session_id: Option<u64>,
    pub text: Option<String>,
    pub insertion_backend: Option<String>,
    pub error_code: Option<&'static str>,
    pub message: Option<String>,
    pub recoverable_text: Option<String>,
}

/// The session number of an optional session.
pub open spec fn session_number(session_id: Option<SessionId>) -> Option<u64> {
    match session_id {
        Some(id) => Some(id@),
        None => None,
    }
}

/// An event that only reports a state: it comes from the shortcut and carries
/// no text, backend or error.
pub open spec fn is_state_event(
    event: DictationLifecycleEventDto,
    state: Seq<char>,
    session_id: Option<SessionId>,
) -> bool {
    &&& event.source@ == "shortcut"@
    &&& event.state@ == state
    &&& event.session_id == session_number(session_id)
    &&& event.text is None
    &&& event.insertion_backend is None
    &&& event.error_code is None
    &&& event.message is None
    &&& event.recoverable_text is None
}

fn session_value(session_id: Option<SessionId>) -> (value: Option<u64>)
    ensures
        value == session_number(session_id),
{
    match session_id {
        Some(id) => Some(id.get()),
        None => None,
    }
}

impl DictationLifecycleEventDto {
    pub fn starting() -> (event: Self)
        ensures
            is_state_event(event, "starting"@, None),
    {
        DictationLifecycleEventDto::state("starting", None)
    }

    pub fn recording(session_id: SessionId) -> (event: Self)
        ensures
            is_state_event(event, "recording"@, Some(session_id)),
    {
        DictationLifecycleEventDto::state("recording", Some(session_id))
    }

    pub fn finishing(session_id: SessionId) -> (event: Self)
        ensures
            is_state_event(event, "finishing"@, Some(session_id)),
    {
        DictationLifecycleEventDto::state("finishing", Some(session_id))
    }

    /// A completed dictation: its text and the backend that inserted it.
    pub fn completed(session_id: SessionId, report: &DictationReportDto) -> (event: Self)
        ensures
            event.source@ == "shortcut"@,
            event.state@ == "completed"@,
            event.session_id == Some(session_id@),
            event.text matches Some(t) && t@ == report.text@,
            event.insertion_backend matches Some(b) && b@ == report.insertion_backend@,
            event.error_code is None,
            event.message is None,
            event.recoverable_text is None,
    {
        DictationLifecycleEventDto {
            source: "shortcut",
            state: "completed",
            session_id: Some(session_id.get()),
            text: Some(report.text.clone()),
            insertion_backend: Some(report.insertion_backend.clone()),
            error_code: None,
            message: None,
            recoverable_text: None,
        }
    }

    /// A failed dictation, reported with the command error's code, message
    /// and recoverable text.
    pub fn from_error(session_id: Option<SessionId>, error: &CommandErrorDto) -> (event: Self)
        ensures
            event.source@ == "shortcut"@,
            event.state@ == "failed"@,
            event.session_id == session_number(session_id),
            event.text is None,
            event.insertion_backend is None,
            event.error_code == Some(error.code),
            event.message matches Some(m) && m@ == error.message@,
            match (event.recoverable_text, error.recoverable_text) {
                (Some(a), Some(b)) => a@ == b@,
                (None, None) => true,
                _ => false,
            },
    {
        let recoverable_text = match &error.recoverable_text {
            Some(text) => Some(text.clone()),
            None => None,
        };
        DictationLifecycleEventDto::failure(session_id, error.code, error.message.clone(), recoverable_text)
    }

    /// A failed dictation with the given code, message and recoverable text.
    pub fn failure(
        session_id: Option<SessionId>,
        error_code: &'static str,
        message: String,
        recoverable_text: Option<String>,
    ) -> (event: Self)
        ensures
            event.source@ == "shortcut"@,
            event.state@ == "failed"@,
            event.session_id == session_number(session_id),
            event.text is None,
            event.insertion_backend is None,
            event.error_code == Some(error_code),
            event.message == Some(message),
            event.recoverable_text == recoverable_text,
    {
        DictationLifecycleEventDto {
            source: "shortcut",
            state: "failed",
            session_id: session_value(session_id),
            text: None,
            insertion_backend: None,
            error_code: Some(error_code),
            message: Some(message),
            recoverable_text,
        }
    }

    fn state(state: &'static str, session_id: Option<SessionId>) -> (event: Self)
        ensures
            is_state_event(event, state@, session_id),
    {
        DictationLifecycleEventDto {
            source: "shortcut",
            state,
            session_id: session_value(session_id),
            text: None,
            insertion_backend: None,
            error_code: None,
            message: None,
            recoverable_text: None,
        }
    }
}

} // verus!
