//! Single-active-session ownership of the dictation lifecycle.
use vstd::prelude::*;

use crate::session::{
    lemma_session_id_view_injective, next_state, DictationSession, FailureStage, SessionEvent,
    SessionId, SessionState, Transition, TransitionError,
};

verus! {

broadcast use lemma_session_id_view_injective;

/// Immutable view of the session currently owned by the coordinator.
#[derive(Debug, Clone, Copy, PartialEq, Eq, Structural)]
pub struct SessionSnapshot {
    pub id: SessionId,
    pub state: SessionState,
    pub failure_stage: Option<FailureStage>,
}

pub open spec fn snapshot_of(session: DictationSession) -> SessionSnapshot {
    SessionSnapshot {
        id: session.spec_id(),
        state: session.spec_state(),
        failure_stage: session.spec_failure_stage(),
    }
}

impl SessionSnapshot {
    pub fn is_terminal(self) -> (terminal: bool)
        ensures
            terminal == self.state.spec_is_terminal(),
    {
        self.state.is_terminal()
    }

    /// The snapshot of one session.
    pub fn from_session(session: &DictationSession) -> (snapshot: Self)
        ensures
            snapshot == snapshot_of(*session),
    {
        SessionSnapshot {
            id: session.id(),
            state: session.state(),
            failure_stage: session.failure_stage(),
        }
    }
}

/// One state transition applied to a coordinator-owned session.
#[derive(Debug, Clone, Copy, PartialEq, Eq, Structural)]
pub struct CoordinatedTransition {
    pub session_id: SessionId,
    pub transition: Transition,
    pub snapshot: SessionSnapshot,
}

/// Failures at the single-active-session coordination boundary.
#[allow(inconsistent_fields)]
#[derive(Debug, Clone, Copy, PartialEq, Eq, Structural)]
pub enum SessionCoordinatorError {
    SessionIdExhausted,
    NoActiveSession,
    Busy { active: SessionSnapshot },
    StaleSession { supplied: SessionId, active: SessionId },
    InvalidTransition(TransitionError),
}

impl SessionCoordinatorError {
    /// The text a user is shown for this error.
    pub open spec fn spec_message(self) -> Seq<char> {
        match self {
            SessionCoordinatorError::SessionIdExhausted => "dictation session id space exhausted"@,
            SessionCoordinatorError::NoActiveSession => "there is no active dictation session"@,
            SessionCoordinatorError::Busy { active } => "dictation session "@ + crate::text::decimal(
                active.id@ as nat,
            ) + " is still "@ + crate::session::spec_state_label(active.state),
            SessionCoordinatorError::StaleSession { supplied, active } => "dictation session "@
                + crate::text::decimal(supplied@ as nat) + " is stale; current session is "@
                + crate::text::decimal(active@ as nat),
            SessionCoordinatorError::InvalidTransition(error) => error.spec_message(),
        }
    }

    pub fn message(self) -> (message: String)
        ensures
            message@ == self.spec_message(),
    {
        match self {
            SessionCoordinatorError::SessionIdExhausted => String::from_str(
                "dictation session id space exhausted",
            ),
            SessionCoordinatorError::NoActiveSession => String::from_str(
                "there is no active dictation session",
            ),
            SessionCoordinatorError::Busy { active } => {
                let mut message = String::from_str("dictation session ");
                message.append(crate::text::u64_to_decimal(active.id.get()).as_str());
                message.append(" is still ");
                message.append(crate::session::state_label(active.state));
                message
            },
            SessionCoordinatorError::StaleSession { supplied, active } => {
                let mut message = String::from_str("dictation session ");
                message.append(crate::text::u64_to_decimal(supplied.get()).as_str());
                message.append(" is stale; current session is ");
                message.append(crate::text::u64_to_decimal(active.get()).as_str());
                message
            },
            SessionCoordinatorError::InvalidTransition(error) => error.message(),
        }
    }
}

/// Owner of the single BLCVoice dictation session that may accept work.
///
/// Worker code carries the returned `SessionId` and submits lifecycle events back
/// through `transition`. A result from an older session is therefore rejected
/// instead of being applied to whichever session happens to be current.
#[derive(Debug)]
pub struct SessionCoordinator {
    next_id: u64,
    current: Option<DictationSession>,
}

impl SessionCoordinator {
    pub closed spec fn spec_next_id(&self) -> u64 {
        self.next_id
    }

    pub closed spec fn spec_current(&self) -> Option<DictationSession> {
        self.current
    }

    /// The coordinator's invariant: identifiers start at one, every issued
    /// identifier lies below the next one, and the owned session is well formed.
    pub open spec fn wf(&self) -> bool {
        &&& self.spec_next_id() >= 1
        &&& match self.spec_current() {
            Some(session) => {
                &&& session.wf()
                &&& session.spec_id()@ + 1 == self.spec_next_id()
            },
            None => self.spec_next_id() == 1,
        }
    }

    /// Whether `id` names the current non-terminal session.
    pub open spec fn spec_accepts_work(&self, id: SessionId) -> bool {
        match self.spec_current() {
            Some(session) => session.spec_id() == id && !session.spec_state().spec_is_terminal(),
            None => false,
        }
    }

    pub fn new() -> (coordinator: Self)
        ensures
            coordinator.wf(),
            coordinator.spec_next_id() == 1,
            coordinator.spec_current() is None,
    {
        SessionCoordinator { next_id: 1, current: None }
    }

    /// Start a fresh session when no non-terminal session is active.
    ///
    /// A completed, failed or cancelled session is replaced by the new one. Session
    /// identifiers increase strictly for the lifetime of this coordinator.
    pub fn begin(&mut self) -> (result: Result<SessionSnapshot, SessionCoordinatorError>)
        requires
            old(self).wf(),
        ensures
            final(self).wf(),
            match old(self).spec_current() {
                Some(current) if !current.spec_state().spec_is_terminal() => {
                    &&& result == Err::<SessionSnapshot, SessionCoordinatorError>(
                        SessionCoordinatorError::Busy { active: snapshot_of(current) },
                    )
                    &&& final(self).spec_current() == old(self).spec_current()
                    &&& final(self).spec_next_id() == old(self).spec_next_id()
                },
                _ => if old(self).spec_next_id() == u64::MAX {
                    &&& result == Err::<SessionSnapshot, SessionCoordinatorError>(
                        SessionCoordinatorError::SessionIdExhausted,
                    )
                    &&& final(self).spec_current() == old(self).spec_current()
                    &&& final(self).spec_next_id() == old(self).spec_next_id()
                } else {
                    &&& result matches Ok(snapshot) && {
                        &&& snapshot.id@ == old(self).spec_next_id()
                        &&& snapshot.state == SessionState::Arming
                        &&& snapshot.failure_stage is None
                        &&& final(self).spec_current() matches Some(session)
                            && snapshot_of(session) == snapshot
                    }
                    &&& final(self).spec_next_id() == old(self).spec_next_id() + 1
                },
            },
    {
        if let Some(current) = self.current.as_ref() {
            let snapshot = SessionSnapshot::from_session(current);
            if !snapshot.is_terminal() {
                return Err(SessionCoordinatorError::Busy { active: snapshot });
            }
        }
        let next_id = match self.next_id.checked_add(1) {
            Some(next) => next,
            None => {
                return Err(SessionCoordinatorError::SessionIdExhausted);
            },
        };
        let id = SessionId::new(self.next_id);
        let session = DictationSession::new(id);
        let snapshot = SessionSnapshot::from_session(&session);
        self.next_id = next_id;
        self.current = Some(session);
        Ok(snapshot)
    }

    /// Return the current session without granting mutation access to its state machine.
    pub fn current(&self) -> (snapshot: Option<SessionSnapshot>)
        ensures
            match self.spec_current() {
                Some(session) => snapshot == Some(snapshot_of(session)),
                None => snapshot is None,
            },
    {
        match self.current.as_ref() {
            Some(session) => Some(SessionSnapshot::from_session(session)),
            None => None,
        }
    }

    /// Whether `session_id` still names the coordinator's current non-terminal session.
    pub fn accepts_work(&self, session_id: SessionId) -> (accepts: bool)
        ensures
            accepts == self.spec_accepts_work(session_id),
    {
        match self.current() {
            Some(current) => current.id.same_as(session_id) && !current.is_terminal(),
            None => false,
        }
    }

    /// Apply an event only if it belongs to the currently-owned session.
    pub fn transition(&mut self, session_id: SessionId, event: SessionEvent) -> (result: Result<
        CoordinatedTransition,
        SessionCoordinatorError,
    >)
        requires
            old(self).wf(),
        ensures
            final(self).wf(),
            final(self).spec_next_id() == old(self).spec_next_id(),
            match old(self).spec_current() {
                None => {
                    &&& result == Err::<CoordinatedTransition, SessionCoordinatorError>(
                        SessionCoordinatorError::NoActiveSession,
                    )
                    &&& final(self).spec_current() == old(self).spec_current()
                },
                Some(session) => if session.spec_id() != session_id {
                    &&& result == Err::<CoordinatedTransition, SessionCoordinatorError>(
                        SessionCoordinatorError::StaleSession {
                            supplied: session_id,
                            active: session.spec_id(),
                        },
                    )
                    &&& final(self).spec_current() == old(self).spec_current()
                } else {
                    match next_state(session.spec_state(), event) {
                        None => {
                            &&& result == Err::<CoordinatedTransition, SessionCoordinatorError>(
                                SessionCoordinatorError::InvalidTransition(
                                    TransitionError { state: session.spec_state(), event },
                                ),
                            )
                            &&& final(self).spec_current() == old(self).spec_current()
                        },
                        Some(to) => {
                            &&& final(self).spec_current() matches Some(after) && {
                                &&& after.spec_id() == session_id
                                &&& after.spec_state() == to
                                &&& after.spec_failure_stage() == (match event {
                                    SessionEvent::Fail(stage) => Some(stage),
                                    _ => session.spec_failure_stage(),
                                })
                                &&& result == Ok::<CoordinatedTransition, SessionCoordinatorError>(
                                    CoordinatedTransition {
                                        session_id,
                                        transition: Transition {
                                            from: session.spec_state(),
                                            to,
                                            event,
                                        },
                                        snapshot: snapshot_of(after),
                                    },
                                )
                            }
                        },
                    }
                },
            },
    {
        let session = match self.current.as_mut() {
            Some(session) => session,
            None => {
                return Err(SessionCoordinatorError::NoActiveSession);
            },
        };
        let active = session.id();
        if !active.same_as(session_id) {
            return Err(SessionCoordinatorError::StaleSession { supplied: session_id, active });
        }
        let transition = match session.apply(event) {
            Ok(transition) => transition,
            Err(error) => {
                return Err(SessionCoordinatorError::InvalidTransition(error));
            },
        };
        let snapshot = SessionSnapshot::from_session(&*session);
        Ok(CoordinatedTransition { session_id, transition, snapshot })
    }

    /// Cancel the current session if `session_id` still owns it.
    pub fn cancel(&mut self, session_id: SessionId) -> (result: Result<
        CoordinatedTransition,
        SessionCoordinatorError,
    >)
        requires
            old(self).wf(),
        ensures
            final(self).wf(),
            final(self).spec_next_id() == old(self).spec_next_id(),
            match old(self).spec_current() {
                None => {
                    &&& result == Err::<CoordinatedTransition, SessionCoordinatorError>(
                        SessionCoordinatorError::NoActiveSession,
                    )
                    &&& final(self).spec_current() == old(self).spec_current()
                },
                Some(session) => if session.spec_id() != session_id {
                    &&& result == Err::<CoordinatedTransition, SessionCoordinatorError>(
                        SessionCoordinatorError::StaleSession {
                            supplied: session_id,
                            active: session.spec_id(),
                        },
                    )
                    &&& final(self).spec_current() == old(self).spec_current()
                } else if session.spec_state().spec_is_terminal() {
                    &&& result == Err::<CoordinatedTransition, SessionCoordinatorError>(
                        SessionCoordinatorError::InvalidTransition(
                            TransitionError {
                                state: session.spec_state(),
                                event: SessionEvent::Cancel,
                            },
                        ),
                    )
                    &&& final(self).spec_current() == old(self).spec_current()
                } else {
                    &&& final(self).spec_current() matches Some(after) && {
                        &&& after.spec_id() == session_id
                        &&& after.spec_state() == SessionState::Cancelled
                        &&& after.spec_failure_stage() == session.spec_failure_stage()
                        &&& result == Ok::<CoordinatedTransition, SessionCoordinatorError>(
                            CoordinatedTransition {
                                session_id,
                                transition: Transition {
                                    from: session.spec_state(),
                                    to: SessionState::Cancelled,
                                    event: SessionEvent::Cancel,
                                },
                                snapshot: snapshot_of(after),
                            },
                        )
                    }
                },
            },
    {
        self.transition(session_id, SessionEvent::Cancel)
    }
}

/// Session identifiers are never reused: every session a coordinator starts
/// carries an identifier above every identifier it issued before.
pub proof fn law_begin_issues_fresh_ids(before: SessionCoordinator, after: SessionCoordinator, id: SessionId)
    requires
        before.wf(),
        after.wf(),
        after.spec_next_id() == before.spec_next_id() + 1,
        after.spec_current() matches Some(session) && session.spec_id() == id,
        id@ == before.spec_next_id(),
    ensures
        before.spec_next_id() <= id@,
        before.spec_current() matches Some(previous) ==> previous.spec_id()@ < id@,
{
}

/// Once the owned session is terminal, the coordinator accepts no more work for
/// it, and a new session may begin.
pub proof fn law_terminal_session_accepts_no_work(c: SessionCoordinator, id: SessionId)
    requires
        c.wf(),
        c.spec_current() matches Some(session) && session.spec_state().spec_is_terminal(),
    ensures
        !c.spec_accepts_work(id),
        forall|event: SessionEvent|
            #![trigger next_state(c.spec_current()->0.spec_state(), event)]
            next_state(c.spec_current()->0.spec_state(), event) is None,
{
}

} // verus!
