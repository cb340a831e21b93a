use blcvoice::audio::{
    AudioBackend, AudioDeviceId, AudioFailure, AudioFailureKind, AudioSampleFormat,
    AudioStreamConfig, InputDeviceInfo, InputDiscovery,
};
use blcvoice::coordinator::SessionSnapshot;
use blcvoice::desktop::{
    failure_stage_name, map_capture_error, AudioFailureDto, AudioStreamConfigDto,
    CaptureStatsDto, CommandErrorDto, DesktopCaptureError, DesktopCaptureErrorKind,
    DesktopDictationError, DesktopDictationErrorKind, InputDeviceDto, InputDiscoveryDto,
    MicrophoneTestReportDto, SessionDto,
};
use blcvoice::models::{ModelError, ModelErrorKind};
use blcvoice::pipeline::{CaptureStats, FinalizationReport, MicrophoneTestReport};
use blcvoice::session::{DictationSession, FailureStage, SessionId, SessionState};
use blcvoice::settings::SettingsError;

fn device(id: &str, name: &str, is_default: bool) -> InputDeviceInfo {
    InputDeviceInfo {
        id: AudioDeviceId::new(id).unwrap(),
        name: name.to_owned(),
        backend: AudioBackend::Alsa,
        is_default,
        default_config: Some(AudioStreamConfig {
            channels: 2,
            sample_rate_hz: 48_000,
            sample_format: AudioSampleFormat::DsdU16,
        }),
    }
}

#[test]
fn capture_errors_keep_their_message_when_seen_by_dictation() {
    let busy = map_capture_error(DesktopCaptureError::new(
        DesktopCaptureErrorKind::Busy,
        "capture busy".to_owned(),
    ));
    assert_eq!(busy.kind(), DesktopDictationErrorKind::Busy);
    assert_eq!(busy.message(), "capture busy");
    let stale = map_capture_error(DesktopCaptureError::new(
        DesktopCaptureErrorKind::StaleSession,
        "stale".to_owned(),
    ));
    assert_eq!(stale.kind(), DesktopDictationErrorKind::StaleSession);
    let pump = map_capture_error(DesktopCaptureError::new(
        DesktopCaptureErrorKind::PumpFailed,
        "pump".to_owned(),
    ));
    assert_eq!(pump.kind(), DesktopDictationErrorKind::Capture);
}

#[test]
fn command_errors_carry_stable_codes_and_messages() {
    let worker = CommandErrorDto::blocking_worker("join failed".to_owned());
    assert_eq!(worker.code, "blocking_worker_failed");
    assert_eq!(worker.message, "join failed");
    assert_eq!(worker.recoverable_text, None);

    let dictation = CommandErrorDto::from_dictation_error(DesktopDictationError::new(
        DesktopDictationErrorKind::RecognizerLoad,
        "no model".to_owned(),
    ));
    assert_eq!(dictation.code, "recognizer_load_failed");
    assert_eq!(dictation.message, "no model");

    let settings = CommandErrorDto::from_settings_error(SettingsError::new("disk full".to_owned()));
    assert_eq!(settings.code, "settings_failed");
    assert_eq!(settings.message, "disk full");

    let model = CommandErrorDto::from_model_error(ModelError::new(
        ModelErrorKind::Validation,
        "bad file".to_owned(),
    ));
    assert_eq!(model.code, "model_validation_failed");
    assert_eq!(model.message, "bad file");
}

#[test]
fn session_dto_names_state_and_failure_stage() {
    let session = DictationSession::new(SessionId::new(7));
    let snapshot = SessionSnapshot::from_session(&session);
    assert!(!snapshot.is_terminal());
    let dto = SessionDto::from_snapshot(snapshot);
    assert_eq!(dto.id, 7);
    assert_eq!(dto.state, "arming");
    assert_eq!(dto.failure_stage, None);

    let failed = SessionSnapshot {
        id: SessionId::new(8),
        state: SessionState::Failed,
        failure_stage: Some(FailureStage::TextInsertion),
    };
    assert!(failed.is_terminal());
    let dto = SessionDto::from_snapshot(failed);
    assert_eq!(dto.state, "failed");
    assert_eq!(dto.failure_stage.as_deref(), Some("TextInsertion"));
    assert_eq!(failure_stage_name(FailureStage::SpeechDetection), "SpeechDetection");
}

#[test]
fn device_and_failure_dtos_render_names() {
    let config = AudioStreamConfig {
        channels: 1,
        sample_rate_hz: 16_000,
        sample_format: AudioSampleFormat::Other("f16le".to_owned()),
    };
    let config_dto = AudioStreamConfigDto::from_config(&config);
    assert_eq!(config_dto.channels, 1);
    assert_eq!(config_dto.sample_rate_hz, 16_000);
    assert_eq!(config_dto.sample_format, "f16le");

    let device_dto = InputDeviceDto::from_device(&device("hw:0", "Mic", true));
    assert_eq!(device_dto.id, "hw:0");
    assert_eq!(device_dto.name, "Mic");
    assert_eq!(device_dto.backend, "ALSA");
    assert!(device_dto.is_default);
    assert_eq!(device_dto.default_config.unwrap().sample_format, "dsd-u16");

    let failure = AudioFailure {
        backend: Some(AudioBackend::Other("Custom".to_owned())),
        device_id: Some(AudioDeviceId::new("hw:1").unwrap()),
        kind: AudioFailureKind::UnsupportedOperation,
        message: "no input".to_owned(),
    };
    let failure_dto = AudioFailureDto::from_failure(&failure);
    assert_eq!(failure_dto.backend.as_deref(), Some("Custom"));
    assert_eq!(failure_dto.device_id.as_deref(), Some("hw:1"));
    assert_eq!(failure_dto.kind, "unsupported_operation");
    assert_eq!(failure_dto.message, "no input");

    let discovery = InputDiscovery {
        selected_backend: Some(AudioBackend::PipeWire),
        devices: vec![device("a", "A", true), device("b", "B", false)],
        failures: vec![failure],
    };
    let discovery_dto = InputDiscoveryDto::from_discovery(&discovery);
    assert_eq!(discovery_dto.selected_backend.as_deref(), Some("PipeWire"));
    assert_eq!(discovery_dto.devices.len(), 2);
    assert_eq!(discovery_dto.devices[1].id, "b");
    assert_eq!(discovery_dto.failures.len(), 1);
}

#[test]
fn microphone_test_report_names_both_states() {
    let stats = CaptureStats {
        received_samples: 960,
        dropped_samples: 0,
        callback_errors: 1,
        last_failure: Some(AudioFailureKind::Xrun),
    };
    let stats_dto = CaptureStatsDto::from_stats(stats);
    assert_eq!(stats_dto.received_samples, 960);
    assert_eq!(stats_dto.callback_errors, 1);
    assert_eq!(stats_dto.last_failure.as_deref(), Some("xrun"));

    let report = MicrophoneTestReport {
        finalized: FinalizationReport {
            session: SessionSnapshot {
                id: SessionId::new(3),
                state: SessionState::FinalizingAudio,
                failure_stage: None,
            },
            capture_stats: stats,
            source_frames: 480,
        },
        terminal_session: SessionSnapshot {
            id: SessionId::new(3),
            state: SessionState::Cancelled,
            failure_stage: None,
        },
    };
    let dto = MicrophoneTestReportDto::from_report(report);
    assert_eq!(dto.session_id, 3);
    assert_eq!(dto.captured_frames, 480);
    assert_eq!(dto.capture_stats.received_samples, 960);
    assert_eq!(dto.finalized_state, "finalizingAudio");
    assert_eq!(dto.terminal_state, "cancelled");
}
