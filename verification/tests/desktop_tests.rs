use blcvoice::asr::{
    positive_u32, positive_u64, AudioFormat as AsrAudioFormat, AudioFormatError,
    FeaturePreference, RecognitionOptions, RecognitionTask, TimestampGranularity,
};
use blcvoice::audio::{
    AudioBackend, AudioDeviceId, AudioSampleFormat, AudioStreamConfig, InputDeviceInfo,
};
use blcvoice::audio_processing::{AudioFormat as ProcessingAudioFormat, ProcessingError};
use blcvoice::desktop::{
    choose_fallback_model, choose_input_device, session_state_name, CommandErrorDto,
    DesktopCaptureError, DesktopCaptureErrorKind, DesktopInsertionService, ModelStatusDto,
};
use blcvoice::dictation_slot::{DictationSlot, DictationSlotState};
use blcvoice::history::{
    delivery_state_name, failure_history_entry, invocation_source_name, InvocationOrigin,
};
use blcvoice::insertion::{InsertionAuthorization, InsertionBackend, InsertionError, InsertionErrorKind};
use blcvoice::models::{
    catalog_statuses, find_model, model_catalog, model_status, recommend_for_memory,
    ModelErrorKind, ModelStatus, GIB,
};
use blcvoice::platform::{DesktopEnvironment, DesktopPlatform, LinuxDisplayServer};
use blcvoice::session::{SessionId, SessionState};
use blcvoice::shortcut_coordinator::{
    CoordinatorState, ShortcutAction, ShortcutDictationCoordinator, StartCompletion,
};
use blcvoice::shortcuts::ShortcutDecision;
use blcvoice::storage::{DeliveryState, InvocationSource};

#[test]
fn stop_during_start_is_queued_until_recording_exists() {
    let mut coordinator =
        ShortcutDictationCoordinator::with_state(CoordinatorState::Starting { stop_requested: true });
    let session_id = SessionId::new(9);

    assert_eq!(
        coordinator.complete_start(session_id),
        StartCompletion::FinishImmediately
    );
    assert_eq!(coordinator.state(), CoordinatorState::Finishing(session_id));
}

#[test]
fn successful_start_becomes_recording() {
    let mut coordinator =
        ShortcutDictationCoordinator::with_state(CoordinatorState::Starting { stop_requested: false });
    let session_id = SessionId::new(4);

    assert_eq!(
        coordinator.complete_start(session_id),
        StartCompletion::Recording
    );
    assert_eq!(coordinator.state(), CoordinatorState::Recording(session_id));
}

#[test]
fn matching_finish_returns_coordinator_to_idle() {
    let session_id = SessionId::new(11);
    let mut coordinator =
        ShortcutDictationCoordinator::with_state(CoordinatorState::Finishing(session_id));
    coordinator.complete_finish(session_id);
    assert_eq!(coordinator.state(), CoordinatorState::Idle);
}

#[test]
fn shortcut_decisions_drive_one_dictation_at_a_time() {
    let mut coordinator = ShortcutDictationCoordinator::default();
    assert_eq!(
        coordinator.handle_shortcut(ShortcutDecision::StartDictation),
        ShortcutAction::StartSession
    );
    assert_eq!(
        coordinator.handle_shortcut(ShortcutDecision::StartDictation),
        ShortcutAction::Nothing
    );
    assert_eq!(
        coordinator.handle_shortcut(ShortcutDecision::StopDictation),
        ShortcutAction::Nothing
    );
    let session_id = SessionId::new(3);
    assert_eq!(
        coordinator.complete_start(session_id),
        StartCompletion::FinishImmediately
    );
    coordinator.complete_finish(SessionId::new(99));
    assert_eq!(coordinator.state(), CoordinatorState::Finishing(session_id));
    coordinator.complete_finish(session_id);
    assert_eq!(coordinator.state(), CoordinatorState::Idle);
    assert_eq!(
        coordinator.complete_start(session_id),
        StartCompletion::CancelUnexpected
    );
}

#[test]
fn origin_mapping_preserves_shortcut_vs_ui_provenance() {
    assert_eq!(
        InvocationSource::from(InvocationOrigin::Shortcut),
        InvocationSource::Shortcut
    );
    assert_eq!(
        InvocationSource::from(InvocationOrigin::DesktopUi),
        InvocationSource::DesktopUi
    );
}

#[test]
fn delivery_names_do_not_upgrade_unverified_submission() {
    assert_eq!(
        delivery_state_name(DeliveryState::BackendSubmittedUnverified),
        "backendSubmittedUnverified"
    );
    assert_eq!(
        delivery_state_name(DeliveryState::DeliveredVerified),
        "deliveredVerified"
    );
}

#[test]
fn history_names_and_failure_records() {
    assert_eq!(invocation_source_name(InvocationSource::DesktopUi), "desktopUi");
    assert_eq!(delivery_state_name(DeliveryState::InsertionFailed), "insertionFailed");

    let failure = CommandErrorDto {
        code: "insertion_backend_failed",
        message: "portal closed".to_owned(),
        recoverable_text: Some("merhaba".to_owned()),
    };
    let entry = failure_history_entry(&failure, InvocationOrigin::Shortcut, 5)
        .expect("insertion failures with text are recorded");
    assert_eq!(entry.transcript, "merhaba");
    assert_eq!(entry.engine_id, "unknown");
    assert_eq!(entry.delivery_state, DeliveryState::InsertionFailed);
    assert_eq!(entry.invocation_source, InvocationSource::Shortcut);

    let other = CommandErrorDto {
        code: "dictation_busy",
        message: "busy".to_owned(),
        recoverable_text: Some("text".to_owned()),
    };
    assert!(failure_history_entry(&other, InvocationOrigin::DesktopUi, 5).is_none());
}

#[test]
fn capability_selection_matches_environment_without_connecting() {
    let service = DesktopInsertionService::for_environment(DesktopEnvironment::new(
        DesktopPlatform::Linux,
        LinuxDisplayServer::Wayland,
    ));
    let capability = service
        .capability()
        .expect("Wayland capability must resolve");
    assert_eq!(capability.backend(), InsertionBackend::XdgRemoteDesktopEis);
    assert_eq!(
        capability.authorization(),
        InsertionAuthorization::XdgRemoteDesktop
    );
}

#[test]
fn unknown_linux_environment_is_explicitly_unavailable() {
    let service = DesktopInsertionService::for_environment(DesktopEnvironment::new(
        DesktopPlatform::Linux,
        LinuxDisplayServer::Unknown,
    ));
    assert_eq!(
        service
            .capability()
            .expect_err("unknown session must fail")
            .kind(),
        InsertionErrorKind::BackendUnavailable
    );
}

#[test]
fn recommendation_scales_with_system_memory() {
    assert_eq!(recommend_for_memory(4 * GIB), "whisper-base-q5km");
    assert_eq!(recommend_for_memory(8 * GIB), "whisper-small-q5km");
    assert_eq!(recommend_for_memory(12 * GIB), "whisper-small-q5km");
    assert_eq!(
        recommend_for_memory(16 * GIB),
        "whisper-large-v3-turbo-q4km"
    );
}

#[test]
fn catalog_ids_and_filenames_are_unique() {
    let catalog = model_catalog();
    for (index, model) in catalog.iter().enumerate() {
        assert!(!model.id().is_empty());
        assert!(model.filename().ends_with(".gguf"));
        assert!(model.url().starts_with("https://huggingface.co/handy-computer/"));
        for other in catalog.iter().skip(index + 1) {
            assert_ne!(model.id(), other.id());
            assert_ne!(model.filename(), other.filename());
        }
    }
}

#[test]
fn unknown_model_is_rejected() {
    let error = find_model("not-a-model").expect_err("unknown model must fail");
    assert_eq!(error.kind(), ModelErrorKind::UnknownModel);
}

#[test]
fn known_model_is_found_by_id() {
    let spec = find_model("whisper-small-q5km").expect("catalog model");
    assert_eq!(spec.name(), "Whisper Small Q5");
    assert_eq!(spec.filename(), "whisper-small-Q5_K_M.gguf");
}

#[test]
fn model_status_marks_only_the_selected_model() {
    let spec = find_model("whisper-base-q5km").expect("catalog model");
    let status = ModelStatus {
        spec,
        installed: true,
        installed_bytes: Some(63_963_136),
        recommended: false,
    };
    let selected = ModelStatusDto::from_status(&status, Some("whisper-base-q5km"));
    assert!(selected.selected);
    assert_eq!(selected.tier, "fast");
    let other = ModelStatusDto::from_status(&status, Some("whisper-small-q5km"));
    assert!(!other.selected);
    assert!(!ModelStatusDto::from_status(&status, None).selected);
}

#[test]
fn fallback_model_prefers_installed_recommended() {
    let catalog = model_catalog();
    let statuses = vec![
        ModelStatus {
            spec: catalog[0],
            installed: true,
            installed_bytes: Some(1),
            recommended: false,
        },
        ModelStatus {
            spec: catalog[1],
            installed: true,
            installed_bytes: Some(1),
            recommended: true,
        },
        ModelStatus {
            spec: catalog[2],
            installed: false,
            installed_bytes: None,
            recommended: false,
        },
    ];
    assert_eq!(choose_fallback_model(&statuses), Some(1));
    let none_installed: Vec<ModelStatus> = statuses
        .iter()
        .map(|status| ModelStatus {
            spec: status.spec,
            installed: false,
            installed_bytes: None,
            recommended: status.recommended,
        })
        .collect();
    assert_eq!(choose_fallback_model(&none_installed), None);
}

#[test]
fn input_device_choice_prefers_selection_then_default_then_first() {
    let device = |id: &str, is_default: bool| InputDeviceInfo {
        id: AudioDeviceId::new(id).expect("valid id"),
        name: id.to_owned(),
        backend: AudioBackend::PipeWire,
        is_default,
        default_config: None,
    };
    let devices = vec![device("a", false), device("b", true), device("c", false)];
    assert_eq!(choose_input_device(Some("c"), &devices), Some(2));
    assert_eq!(choose_input_device(Some("missing"), &devices), Some(1));
    assert_eq!(choose_input_device(None, &devices), Some(1));
    let no_default = vec![device("a", false), device("c", false)];
    assert_eq!(choose_input_device(None, &no_default), Some(0));
    assert_eq!(choose_input_device(None, &Vec::new()), None);
}

#[test]
fn command_error_codes_are_stable() {
    let dto = CommandErrorDto::from_capture_error(DesktopCaptureError::new(
        DesktopCaptureErrorKind::StaleSession,
        "stale".to_owned(),
    ));
    assert_eq!(dto.code(), "stale_session");
    assert_eq!(dto.message(), "stale");
    assert_eq!(dto.recoverable_text(), None);
    assert_eq!(session_state_name(SessionState::FinalizingAudio), "finalizingAudio");
}

#[test]
fn dictation_slot_refuses_stale_and_overlapping_work() {
    let mut slot = DictationSlot::new();
    slot.begin_preparing().expect("idle slot can prepare");
    assert!(slot.begin_preparing().is_err());
    slot.recording_started(SessionId::new(7)).expect("preparing slot records");
    let stale = slot
        .begin_finishing(SessionId::new(8))
        .expect_err("stale finish must fail");
    assert_eq!(
        stale.message(),
        "dictation session 8 is stale; active session is 7"
    );
    assert_eq!(slot.state(), DictationSlotState::Recording(SessionId::new(7)));
    slot.begin_finishing(SessionId::new(7)).expect("active finish");
    assert_eq!(slot.state_name(), "finalizing");
    slot.transcribed(SessionId::new(7));
    slot.begin_insertion(SessionId::new(7)).expect("insertion begins");
    slot.ensure_inserting(SessionId::new(7)).expect("inserting");
    slot.reset();
    assert_eq!(slot.active_session_id(), None);
    let idle_cancel = slot
        .begin_cancel(SessionId::new(7))
        .expect_err("nothing to cancel");
    assert_eq!(idle_cancel.message(), "there is no active dictation to cancel");
}

#[test]
fn optional_limits_and_speaker_ids_ignore_non_positive_sentinels() {
    assert_eq!(positive_u64(0), None);
    assert_eq!(positive_u64(30_000), Some(30_000));
    assert_eq!(positive_u32(0), None);
    assert_eq!(positive_u32(2), Some(2));
}

#[test]
fn rejects_invalid_audio_formats() {
    assert_eq!(AsrAudioFormat::new(0, 16_000), Err(AudioFormatError));
    assert_eq!(AsrAudioFormat::new(1, 0), Err(AudioFormatError));
}

#[test]
fn dictation_defaults_avoid_unrequested_alignment_work() {
    let options = RecognitionOptions::default();
    assert_eq!(options.task, RecognitionTask::Transcribe);
    assert_eq!(options.timestamps, TimestampGranularity::NoTimestamps);
    assert_eq!(options.punctuation, FeaturePreference::ModelDefault);
}

#[test]
fn rejects_invalid_signal_shapes() {
    assert_eq!(
        ProcessingAudioFormat::new(0, 48_000),
        Err(ProcessingError::InvalidFormat)
    );
    assert_eq!(
        ProcessingAudioFormat::new(1, 0),
        Err(ProcessingError::InvalidFormat)
    );
}

#[test]
fn derives_processing_shape_from_native_stream_config() {
    let native = AudioStreamConfig {
        channels: 2,
        sample_rate_hz: 48_000,
        sample_format: AudioSampleFormat::I16,
    };

    assert_eq!(
        ProcessingAudioFormat::from_stream_config(&native),
        Ok(ProcessingAudioFormat::new(2, 48_000).expect("test format must be valid"))
    );
}

#[test]
fn catalog_statuses_follow_the_installed_files_and_the_recommendation() {
    let statuses = catalog_statuses(&vec![None, Some(193_986_560), None], "whisper-small-q5km");
    assert_eq!(statuses.len(), 3);
    assert_eq!(statuses[0].spec.id(), "whisper-base-q5km");
    assert!(!statuses[0].installed);
    assert!(!statuses[0].recommended);
    assert!(statuses[1].installed);
    assert_eq!(statuses[1].installed_bytes, Some(193_986_560));
    assert!(statuses[1].recommended);
    assert!(!statuses[2].recommended);
    let large = model_catalog()[2];
    let status = model_status(large, Some(1), "whisper-large-v3-turbo-q4km");
    assert!(status.installed && status.recommended);
}

#[test]
fn failed_insertions_are_recorded_with_their_transcript() {
    for kind in [
        InsertionErrorKind::InvalidText,
        InsertionErrorKind::PermissionDenied,
        InsertionErrorKind::BackendUnavailable,
        InsertionErrorKind::PartialSubmission,
        InsertionErrorKind::BackendFailure,
    ] {
        let error = CommandErrorDto::insertion(
            InsertionError::new(kind, "could not type"),
            "merhaba dünya".to_owned(),
        );
        assert!(error.code.starts_with("insertion_"));
        let entry = failure_history_entry(&error, InvocationOrigin::DesktopUi, 9)
            .expect("a failed insertion is recorded");
        assert_eq!(entry.transcript, "merhaba dünya");
        assert_eq!(entry.delivery_state, DeliveryState::InsertionFailed);
    }
}
