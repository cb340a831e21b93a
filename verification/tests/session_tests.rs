use blcvoice::coordinator::{SessionCoordinator, SessionCoordinatorError};
use blcvoice::session::{
    DictationSession, FailureStage, SessionEvent, SessionId, SessionState, TransitionError,
};

#[test]
fn completes_the_pipeline_with_transform() {
    let mut session = DictationSession::new(SessionId::new(1));
    let events = [
        SessionEvent::RecordingStarted,
        SessionEvent::RecordingStopped,
        SessionEvent::AudioFinalized,
        SessionEvent::TranscriptReady {
            requires_transform: true,
        },
        SessionEvent::TransformFinished,
        SessionEvent::InsertionDelivered,
    ];

    for event in events {
        session.apply(event).expect("happy-path event must be valid");
    }

    assert_eq!(session.state(), SessionState::Completed);
    assert_eq!(session.failure_stage(), None);
}

#[test]
fn can_skip_optional_transform_stage() {
    let mut session = DictationSession::new(SessionId::new(2));
    for event in [
        SessionEvent::RecordingStarted,
        SessionEvent::RecordingStopped,
        SessionEvent::AudioFinalized,
        SessionEvent::TranscriptReady {
            requires_transform: false,
        },
        SessionEvent::InsertionDelivered,
    ] {
        session.apply(event).expect("event must be valid");
    }

    assert_eq!(session.state(), SessionState::Completed);
}

#[test]
fn rejects_invalid_transition_without_mutation() {
    let mut session = DictationSession::new(SessionId::new(3));
    let error = session
        .apply(SessionEvent::AudioFinalized)
        .expect_err("arming cannot finalize audio");

    assert_eq!(error.state, SessionState::Arming);
    assert_eq!(session.state(), SessionState::Arming);
}

#[test]
fn preserves_failure_stage() {
    let mut session = DictationSession::new(SessionId::new(4));
    session
        .apply(SessionEvent::Fail(FailureStage::AudioCapture))
        .expect("non-terminal session may fail");

    assert_eq!(session.state(), SessionState::Failed);
    assert_eq!(session.failure_stage(), Some(FailureStage::AudioCapture));
}

#[test]
fn terminal_state_rejects_further_events() {
    let mut session = DictationSession::new(SessionId::new(5));
    session
        .apply(SessionEvent::Cancel)
        .expect("non-terminal session may be cancelled");

    assert!(session.apply(SessionEvent::RecordingStarted).is_err());
    assert_eq!(session.state(), SessionState::Cancelled);
}

#[test]
fn terminal_states_reject_every_event_law_example() {
    for terminal in [SessionEvent::Cancel, SessionEvent::Fail(FailureStage::Internal)] {
        let mut session = DictationSession::new(SessionId::new(6));
        session.apply(terminal).expect("live session may end");
        let before = session;
        for event in [
            SessionEvent::RecordingStarted,
            SessionEvent::Cancel,
            SessionEvent::Fail(FailureStage::TextInsertion),
            SessionEvent::InsertionDelivered,
        ] {
            assert_eq!(
                session.apply(event),
                Err(TransitionError {
                    state: before.state(),
                    event
                })
            );
            assert_eq!(session, before);
        }
    }
}

fn advance_to_transcribing(coordinator: &mut SessionCoordinator, id: SessionId) {
    for event in [
        SessionEvent::RecordingStarted,
        SessionEvent::RecordingStopped,
        SessionEvent::AudioFinalized,
    ] {
        coordinator
            .transition(id, event)
            .expect("test transition must be valid");
    }
}

#[test]
fn allocates_monotonic_ids_after_terminal_sessions() {
    let mut coordinator = SessionCoordinator::new();
    let first = coordinator.begin().expect("first session must start");
    coordinator
        .cancel(first.id)
        .expect("first session must cancel");
    let second = coordinator.begin().expect("second session must start");

    assert_eq!(first.id.get(), 1);
    assert_eq!(second.id.get(), 2);
    assert_eq!(second.state, SessionState::Arming);
}

#[test]
fn refuses_overlapping_non_terminal_sessions() {
    let mut coordinator = SessionCoordinator::new();
    let first = coordinator.begin().expect("first session must start");
    let error = coordinator
        .begin()
        .expect_err("second active session must be rejected");

    assert_eq!(error, SessionCoordinatorError::Busy { active: first });
    assert_eq!(coordinator.current(), Some(first));
}

#[test]
fn rejects_late_events_from_replaced_sessions() {
    let mut coordinator = SessionCoordinator::new();
    let first = coordinator.begin().expect("first session must start");
    coordinator
        .cancel(first.id)
        .expect("first session must cancel");
    let second = coordinator.begin().expect("second session must start");

    let error = coordinator
        .transition(first.id, SessionEvent::RecordingStarted)
        .expect_err("stale session must not mutate current state");

    assert_eq!(
        error,
        SessionCoordinatorError::StaleSession {
            supplied: first.id,
            active: second.id,
        }
    );
    assert_eq!(coordinator.current(), Some(second));
}

#[test]
fn concurrent_cancel_prevents_late_transcript_transition() {
    let mut coordinator = SessionCoordinator::new();
    let session = coordinator.begin().expect("session must start");
    advance_to_transcribing(&mut coordinator, session.id);

    coordinator
        .cancel(session.id)
        .expect("cancel must win while transcribing");

    let error = coordinator
        .transition(
            session.id,
            SessionEvent::TranscriptReady {
                requires_transform: false,
            },
        )
        .expect_err("cancelled session must reject a late transcript");

    assert!(matches!(
        error,
        SessionCoordinatorError::InvalidTransition(TransitionError {
            state: SessionState::Cancelled,
            ..
        })
    ));
    assert_eq!(
        coordinator
            .current()
            .expect("session remains observable")
            .state,
        SessionState::Cancelled
    );
}

#[test]
fn failure_stage_remains_visible_in_snapshot() {
    let mut coordinator = SessionCoordinator::new();
    let session = coordinator.begin().expect("session must start");
    let result = coordinator
        .transition(
            session.id,
            SessionEvent::Fail(FailureStage::SpeechRecognition),
        )
        .expect("non-terminal session may fail");

    assert_eq!(result.snapshot.state, SessionState::Failed);
    assert_eq!(
        result.snapshot.failure_stage,
        Some(FailureStage::SpeechRecognition)
    );
    assert!(!coordinator.accepts_work(session.id));
}

#[test]
fn no_active_session_is_distinct_from_stale_session() {
    let mut coordinator = SessionCoordinator::new();
    let error = coordinator
        .transition(SessionId::new(99), SessionEvent::RecordingStarted)
        .expect_err("coordinator has no current session");

    assert_eq!(error, SessionCoordinatorError::NoActiveSession);
}

#[test]
fn new_session_accepts_work_until_it_ends() {
    let mut coordinator = SessionCoordinator::new();
    let session = coordinator.begin().expect("session must start");
    assert!(coordinator.accepts_work(session.id));
    assert!(!coordinator.accepts_work(SessionId::new(session.id.get() + 1)));
    coordinator.cancel(session.id).expect("cancel must succeed");
    assert!(!coordinator.accepts_work(session.id));
    let next = coordinator.begin().expect("next session must start");
    assert!(next.id.get() > session.id.get());
}
