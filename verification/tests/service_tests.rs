use blcvoice::audio::AudioDeviceId;
use blcvoice::asr::RecognitionOptions;
use blcvoice::capture_control::stale_worker;
use blcvoice::desktop::{DesktopCaptureErrorKind, DesktopDictationErrorKind};
use blcvoice::dictation_slot::{
    busy_error, slot_error, stale_error, validate_request, DesktopDictationRequest,
    DictationSlotState,
};
use blcvoice::insertion::{InsertionBackend, InsertionError, InsertionErrorKind};
use blcvoice::insertion_backends::{
    macos_native_capability, native_capability, NativeInsertionOptions, WaylandEisOptions,
};
use blcvoice::models::{model_catalog, DOWNLOAD_SLACK_BYTES};
use blcvoice::pipeline::{
    operation_for_state, CaptureStats, RuntimeOperation, SpeechRange,
};
use blcvoice::platform::{DesktopEnvironment, DesktopPlatform, LinuxDisplayServer};
use blcvoice::session::{event_label, state_label, FailureStage, SessionEvent, SessionId, SessionState};
use blcvoice::shortcut_coordinator::{CoordinatorState, ShortcutDictationCoordinator};
use blcvoice::shortcut_service::{
    shortcut_capability_error_code, shortcut_decision_name, shortcut_phase_name, ShortcutService,
};
use blcvoice::shortcuts::{
    DictationShortcutMode, ShortcutCapabilityError, ShortcutDecision, ShortcutPhase,
};

const STATES: [SessionState; 9] = [
    SessionState::Arming,
    SessionState::Recording,
    SessionState::FinalizingAudio,
    SessionState::Transcribing,
    SessionState::Transforming,
    SessionState::Inserting,
    SessionState::Completed,
    SessionState::Failed,
    SessionState::Cancelled,
];

#[test]
fn shortcut_names_and_codes_are_stable() {
    assert_eq!(
        shortcut_capability_error_code(ShortcutCapabilityError::UnsupportedPlatform),
        "unsupported_platform"
    );
    assert_eq!(
        shortcut_capability_error_code(ShortcutCapabilityError::UnknownLinuxDisplayServer),
        "unknown_linux_display_server"
    );
    assert_eq!(shortcut_phase_name(ShortcutPhase::Pressed), "pressed");
    assert_eq!(shortcut_phase_name(ShortcutPhase::Released), "released");
    assert_eq!(shortcut_decision_name(ShortcutDecision::StartDictation), "startDictation");
    assert_eq!(shortcut_decision_name(ShortcutDecision::StopDictation), "stopDictation");
    assert_eq!(shortcut_decision_name(ShortcutDecision::Ignore), "ignore");
    assert_eq!(DictationShortcutMode::default_mode(), DictationShortcutMode::Toggle);
}

#[test]
fn portal_binding_changes_drive_registration_state() {
    let mut service = ShortcutService::for_environment(DesktopEnvironment::new(
        DesktopPlatform::Linux,
        LinuxDisplayServer::Wayland,
    ));
    service.mark_registering();
    assert_eq!(service.capability().registration_state, "registering");

    service.binding_changed(Some("Ctrl+Shift+Space".to_owned()));
    assert_eq!(
        service.capability().registration_state,
        "registered · Ctrl+Shift+Space"
    );
    assert_eq!(
        service.handle_phase(ShortcutPhase::Pressed),
        ShortcutDecision::StartDictation
    );

    service.binding_changed(None);
    assert_eq!(
        service.capability().registration_state,
        "configuration required · KDE shortcut settings opened"
    );
    assert_eq!(service.capability().registration_error, None);
}

#[test]
fn reset_controller_clears_a_pending_request() {
    let mut service = ShortcutService::for_environment(DesktopEnvironment::new(
        DesktopPlatform::Linux,
        LinuxDisplayServer::X11,
    ));
    service.mark_registered(None);
    assert_eq!(
        service.handle_phase(ShortcutPhase::Pressed),
        ShortcutDecision::StartDictation
    );
    assert_eq!(service.handle_phase(ShortcutPhase::Released), ShortcutDecision::Ignore);
    service.reset_controller();
    assert_eq!(
        service.handle_phase(ShortcutPhase::Pressed),
        ShortcutDecision::StartDictation
    );
}

#[test]
fn service_without_backend_ignores_binding_changes() {
    let mut service = ShortcutService::for_environment(DesktopEnvironment::new(
        DesktopPlatform::Linux,
        LinuxDisplayServer::Unknown,
    ));
    let before = service.capability();
    service.mark_registering();
    service.binding_changed(Some("Ctrl+Space".to_owned()));
    assert_eq!(service.capability(), before);
    assert!(!before.registration_implemented);
}

#[test]
fn coordinator_requests_start_once_and_stops_the_recording_session() {
    let mut coordinator = ShortcutDictationCoordinator::with_state(CoordinatorState::Idle);
    assert!(coordinator.request_start());
    assert_eq!(coordinator.state(), CoordinatorState::Starting { stop_requested: false });
    assert!(!coordinator.request_start());
    assert_eq!(coordinator.request_stop(), None);
    assert_eq!(coordinator.state(), CoordinatorState::Starting { stop_requested: true });

    let id = SessionId::new(5);
    let mut recording = ShortcutDictationCoordinator::with_state(CoordinatorState::Recording(id));
    assert_eq!(recording.request_stop(), Some(id));
    assert_eq!(recording.state(), CoordinatorState::Finishing(id));
    assert_eq!(recording.request_stop(), None);
}

#[test]
fn session_labels_match_their_debug_forms() {
    for state in STATES {
        assert_eq!(state_label(state), format!("{state:?}"));
        assert_eq!(
            state.is_terminal(),
            matches!(
                state,
                SessionState::Completed | SessionState::Failed | SessionState::Cancelled
            )
        );
    }
    let events = [
        SessionEvent::RecordingStarted,
        SessionEvent::RecordingStopped,
        SessionEvent::AudioFinalized,
        SessionEvent::TranscriptReady { requires_transform: true },
        SessionEvent::TranscriptReady { requires_transform: false },
        SessionEvent::TransformFinished,
        SessionEvent::InsertionDelivered,
        SessionEvent::Fail(FailureStage::SpeechRecognition),
        SessionEvent::Cancel,
    ];
    for event in events {
        assert_eq!(event_label(event), format!("{event:?}"));
    }
    assert!(SessionId::new(3).same_as(SessionId::new(3)));
    assert!(!SessionId::new(3).same_as(SessionId::new(4)));
}

#[test]
fn runtime_operations_follow_session_state() {
    assert_eq!(operation_for_state(SessionState::Recording), RuntimeOperation::PumpRecording);
    assert_eq!(
        operation_for_state(SessionState::FinalizingAudio),
        RuntimeOperation::FinalizeRecording
    );
    assert_eq!(operation_for_state(SessionState::Transcribing), RuntimeOperation::Transcribe);
    assert_eq!(operation_for_state(SessionState::Arming), RuntimeOperation::StartRecording);
    assert_eq!(RuntimeOperation::Transcribe.name(), "transcribe finalized audio");

    let range = SpeechRange::new(100, 250).unwrap();
    assert_eq!(range.sample_len(), 150);

    let clean = CaptureStats::default();
    assert!(clean.integrity_intact());
    let dropped = CaptureStats { dropped_samples: 1, ..CaptureStats::default() };
    assert!(!dropped.integrity_intact());
    let failed = CaptureStats { callback_errors: 2, ..CaptureStats::default() };
    assert!(!failed.integrity_intact());
}

#[test]
fn dictation_slot_errors_name_the_state_and_sessions() {
    let busy = busy_error("recording");
    assert_eq!(busy.kind(), DesktopDictationErrorKind::Busy);
    assert_eq!(busy.message(), "dictation service is busy in state recording");

    let stale = stale_error(SessionId::new(2), SessionId::new(9));
    assert_eq!(stale.kind(), DesktopDictationErrorKind::StaleSession);
    assert_eq!(stale.message(), "dictation session 2 is stale; active session is 9");

    let other = slot_error(&DictationSlotState::Inserting(SessionId::new(9)), SessionId::new(2));
    assert_eq!(other.message(), "dictation session 2 is stale; active session is 9");
    let same = slot_error(&DictationSlotState::Finalizing(SessionId::new(9)), SessionId::new(9));
    assert_eq!(same.message(), "dictation service is busy in state finalizing");
    let idle = slot_error(&DictationSlotState::Idle, SessionId::new(9));
    assert_eq!(idle.message(), "dictation service is busy in state idle");

    let capture = stale_worker(SessionId::new(4), SessionId::new(6));
    assert_eq!(capture.kind(), DesktopCaptureErrorKind::StaleSession);
    assert_eq!(
        capture.message(),
        "microphone test session 4 is stale; capture worker belongs to session 6"
    );
}

#[test]
fn dictation_requests_need_a_model_and_a_real_language_hint() {
    let request = |model_path: &str, hint: Option<&str>| DesktopDictationRequest {
        device_id: AudioDeviceId::new("hw:0").unwrap(),
        model_path: model_path.to_owned(),
        recognition: RecognitionOptions {
            language_hint: hint.map(str::to_owned),
            ..RecognitionOptions::default()
        },
    };
    assert!(validate_request(&request("model.bin", None)).is_ok());
    assert!(validate_request(&request("model.bin", Some("en"))).is_ok());
    let no_model = validate_request(&request("", Some("en"))).unwrap_err();
    assert_eq!(no_model.kind(), DesktopDictationErrorKind::InvalidConfiguration);
    assert_eq!(no_model.message(), "dictation model path cannot be empty");
    let blank_hint = validate_request(&request("model.bin", Some("  "))).unwrap_err();
    assert_eq!(blank_hint.message(), "dictation language hint cannot be empty");
}

#[test]
fn insertion_options_and_native_capabilities() {
    let error = InsertionError::with_message(InsertionErrorKind::BackendFailure, "boom".to_owned());
    assert_eq!(error.kind(), InsertionErrorKind::BackendFailure);
    assert_eq!(error.message(), "boom");

    assert_eq!(
        WaylandEisOptions::new(Some("token".to_owned())).restore_token(),
        Some("token")
    );
    assert_eq!(WaylandEisOptions::new(None).restore_token(), None);
    assert!(NativeInsertionOptions::new(true).prompt_for_accessibility());

    assert_eq!(native_capability().backend(), InsertionBackend::WindowsSendInput);
    assert!(!native_capability().semantic_delivery_verifiable());
    assert_eq!(macos_native_capability().backend(), InsertionBackend::MacOsQuartz);
}

#[test]
fn model_downloads_are_bounded_by_advertised_size_plus_slack() {
    for spec in model_catalog() {
        assert_eq!(
            spec.maximum_download_bytes(),
            spec.advertised_bytes() + DOWNLOAD_SLACK_BYTES
        );
    }
}
