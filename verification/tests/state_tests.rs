use blcvoice::audio::{AudioBackend, AudioDeviceId, AudioFailure, AudioFailureKind, InputDeviceInfo};
use blcvoice::capture_control::{CaptureControl, PumpExit};
use blcvoice::coordinator::SessionSnapshot;
use blcvoice::desktop::DesktopCaptureErrorKind;
use blcvoice::discovery::{finish_host, order_devices, order_hosts};
use blcvoice::eis::{eis_flush_error, EisAction, EisEvent, EisState};
use blcvoice::insertion::InsertionErrorKind;
use blcvoice::pipeline::RuntimeOperation;
use blcvoice::runtime_work::{
    can_insert, capture_failure_stage, ensure_state, should_record_failure, PipelineErrorKind,
    RuntimeError, RuntimeWork, WorkPhase,
};
use blcvoice::session::{FailureStage, SessionId, SessionState};
use blcvoice::shortcut_service::{
    portal_registration, response_has_dictation_shortcut, trigger_for_shortcut,
    PortalRegistration, PortalShortcut,
};

#[test]
fn eis_tracks_resumed_text_devices() {
    let mut state = EisState::new();
    assert_eq!(state.handle_event(EisEvent::SeatAdded), Ok(EisAction::BindTextCapabilities));
    assert_eq!(
        state.handle_event(EisEvent::DeviceAdded { device: 1, version: 3, has_text: false }),
        Ok(EisAction::MarkDeviceReady(1))
    );
    assert_eq!(
        state.handle_event(EisEvent::DeviceAdded { device: 2, version: 2, has_text: true }),
        Ok(EisAction::Nothing)
    );
    assert!(!state.has_resumed_text_device());
    state
        .handle_event(EisEvent::DeviceResumed { device: 2, serial: 40 })
        .expect("resume");
    assert_eq!(state.text_device_index(), Some(1));
    assert_eq!(state.ensure_emulating(1), Some((40, 0)));
    assert_eq!(state.ensure_emulating(1), None);
    state
        .handle_event(EisEvent::DevicePaused { device: 2, serial: 41 })
        .expect("pause");
    assert_eq!(state.text_device_index(), None);
    state
        .handle_event(EisEvent::DeviceResumed { device: 2, serial: 42 })
        .expect("resume again");
    assert_eq!(state.ensure_emulating(1), Some((42, 1)));
    state
        .handle_event(EisEvent::DeviceRemoved { device: 2 })
        .expect("remove");
    assert_eq!(state.devices().len(), 1);
    assert!(!state.has_resumed_text_device());
    let error = state
        .handle_event(EisEvent::Disconnected)
        .expect_err("disconnect ends the session");
    assert_eq!(error.kind(), InsertionErrorKind::BackendUnavailable);
}

#[test]
fn eis_flush_failure_distinguishes_partial_submission() {
    let none = eis_flush_error(0, "broken pipe");
    assert_eq!(none.kind(), InsertionErrorKind::BackendFailure);
    assert_eq!(
        none.message(),
        "EIS flush failed after 0 UTF-8 bytes were accepted: broken pipe"
    );
    assert_eq!(
        eis_flush_error(12, "broken pipe").kind(),
        InsertionErrorKind::PartialSubmission
    );
}

#[test]
fn capture_control_allows_one_test_and_refuses_stale_sessions() {
    let mut control = CaptureControl::new();
    control.begin_start().expect("first start");
    let busy = control.begin_start().expect_err("second start is busy");
    assert_eq!(busy.kind(), DesktopCaptureErrorKind::Busy);
    let in_flight = control
        .claim_for_cancel(SessionId::new(1))
        .expect_err("cancel during start");
    assert_eq!(in_flight.message(), "microphone capture startup is still in progress");
    control.end_start();
    control.worker_started(SessionId::new(1));
    let stale = control
        .claim_worker(SessionId::new(2))
        .expect_err("stale finish");
    assert_eq!(
        stale.message(),
        "microphone test session 2 is stale; capture worker belongs to session 1"
    );
    control.claim_worker(SessionId::new(1)).expect("owner finishes");
    assert_eq!(control.worker_session(), None);
    let failure = control.record_pump_failure("device vanished".to_owned());
    assert_eq!(failure.kind(), DesktopCaptureErrorKind::PumpFailed);
    assert_eq!(control.last_pump_failure().as_deref(), Some("device vanished"));
    control.worker_started(SessionId::new(3));
    control.reap_worker(Ok(PumpExit::Failed("xrun".to_owned())));
    assert_eq!(control.worker_session(), None);
    assert_eq!(control.last_pump_failure().as_deref(), Some("xrun"));
    assert_eq!(control.claim_for_cancel(SessionId::new(3)), Ok(false));
}

#[test]
fn hosts_are_tried_by_preference() {
    let hosts = vec![
        "ALSA".to_owned(),
        "JACK".to_owned(),
        "PipeWire".to_owned(),
        "Custom".to_owned(),
        "PulseAudio".to_owned(),
    ];
    assert_eq!(
        order_hosts(hosts),
        vec![
            "PipeWire".to_owned(),
            "PulseAudio".to_owned(),
            "ALSA".to_owned(),
            "JACK".to_owned(),
            "Custom".to_owned(),
        ]
    );
}

fn device(id: &str, name: &str, is_default: bool) -> InputDeviceInfo {
    InputDeviceInfo {
        id: AudioDeviceId::new(id).expect("valid id"),
        name: name.to_owned(),
        backend: AudioBackend::PipeWire,
        is_default,
        default_config: None,
    }
}

#[test]
fn devices_are_offered_default_first_then_by_name() {
    let ordered = order_devices(vec![
        device("z", "zeta", false),
        device("b", "Beta", false),
        device("d", "Delta", true),
        device("a", "beta", false),
    ]);
    let ids: Vec<&str> = ordered.iter().map(|d| d.id.as_str()).collect();
    assert_eq!(ids, vec!["d", "a", "b", "z"]);
}

#[test]
fn host_without_devices_records_a_failure() {
    let result = finish_host(AudioBackend::Alsa, Vec::new(), Vec::new());
    let failures = result.expect_err("no devices");
    assert_eq!(failures.len(), 1);
    assert_eq!(failures[0].kind, AudioFailureKind::NoInputDevices);
    let prior = vec![AudioFailure {
        backend: None,
        device_id: None,
        kind: AudioFailureKind::DeviceBusy,
        message: "busy".to_owned(),
    }];
    let discovery = finish_host(AudioBackend::PipeWire, vec![device("x", "X", true)], prior)
        .expect("devices found");
    assert_eq!(discovery.selected_backend, Some(AudioBackend::PipeWire));
    assert_eq!(discovery.devices.len(), 1);
    assert_eq!(discovery.failures.len(), 1);
}

#[test]
fn runtime_work_is_owned_by_one_session() {
    let old = SessionId::new(1);
    let new = SessionId::new(2);
    let mut work = RuntimeWork::new();
    assert!(work.reserve_arming(old));
    assert!(!work.reserve_arming(new));
    assert!(work.store_recording(old));
    work.take_recording_for_finalization(old).expect("finalize");
    assert!(work.store_finalized(old));
    work.take_finalized_for_transcription(old).expect("transcribe");
    assert!(work.restore_finalized(old));
    work.clear_work(old);
    assert_eq!(work.phase(), WorkPhase::Empty);
    assert!(work.reserve_arming(new));
    assert!(work.store_recording(new));
    assert!(!work.restore_finalized(old));
    assert!(!work.clear_transcribing_reservation(old));
    work.clear_work(old);
    assert_eq!(work.phase(), WorkPhase::Recording(new));
    assert!(matches!(
        work.take_finalized_for_transcription(new),
        Err(RuntimeError::WorkInvalidated {
            operation: RuntimeOperation::Transcribe,
            ..
        })
    ));
}

#[test]
fn runtime_checks_the_current_session() {
    let current = Some(SessionSnapshot {
        id: SessionId::new(5),
        state: SessionState::Inserting,
        failure_stage: None,
    });
    assert!(can_insert(current, SessionId::new(5)));
    assert!(!can_insert(current, SessionId::new(4)));
    assert!(should_record_failure(current, SessionId::new(5)));
    assert!(ensure_state(current, SessionId::new(5), SessionState::Inserting).is_ok());
    assert!(matches!(
        ensure_state(current, SessionId::new(5), SessionState::Recording),
        Err(RuntimeError::WorkInvalidated {
            operation: RuntimeOperation::PumpRecording,
            ..
        })
    ));
    assert!(matches!(
        ensure_state(None, SessionId::new(5), SessionState::Recording),
        Err(RuntimeError::Session(_))
    ));
    assert_eq!(
        capture_failure_stage(PipelineErrorKind::EmptyUtterance),
        FailureStage::SpeechDetection
    );
    assert_eq!(
        capture_failure_stage(PipelineErrorKind::CaptureIntegrity),
        FailureStage::AudioCapture
    );
}

#[test]
fn portal_trigger_and_registration_decisions() {
    let shortcuts = vec![
        PortalShortcut {
            id: "other".to_owned(),
            trigger_description: "Ctrl+X".to_owned(),
        },
        PortalShortcut {
            id: "dictation.toggle".to_owned(),
            trigger_description: "  Ctrl+Alt+Space ".to_owned(),
        },
    ];
    assert!(response_has_dictation_shortcut(&shortcuts));
    assert_eq!(
        trigger_for_shortcut(&shortcuts).as_deref(),
        Some("Ctrl+Alt+Space")
    );
    let blank = vec![PortalShortcut {
        id: "dictation.toggle".to_owned(),
        trigger_description: "   ".to_owned(),
    }];
    assert_eq!(trigger_for_shortcut(&blank), None);
    assert_eq!(
        portal_registration(Some("Ctrl+Space".to_owned()), 1),
        Ok(PortalRegistration::Registered("Ctrl+Space".to_owned()))
    );
    assert_eq!(
        portal_registration(None, 2),
        Ok(PortalRegistration::ConfigurationRequired)
    );
    assert_eq!(
        portal_registration(None, 1),
        Err("the desktop portal returned the BLCVoice shortcut without a trigger and GlobalShortcuts v1 cannot open the configuration UI".to_owned())
    );
}
