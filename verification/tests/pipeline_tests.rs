use blcvoice::asr::{
    check_frame_alignment, model_identifier, validate_recognition_options, AudioFormat as AsrAudioFormat,
    AudioInputError, RecognitionErrorKind, RecognitionOptions,
};
use blcvoice::audio_processing::{
    utterance_append_frames, utterance_frame_limit, validate_channel_conversion, AudioFormat,
    ProcessingError,
};
use blcvoice::capture_control::CaptureControl;
use blcvoice::coordinator::SessionCoordinator;
use blcvoice::desktop::{DesktopCaptureErrorKind, DesktopDictationErrorKind};
use blcvoice::dictation_slot::DictationSlot;
use blcvoice::endpointer::{EndpointerError, EndpointerTiming};
use blcvoice::pipeline::{SpeechRange, VadAnalysis, VadError};
use blcvoice::runtime_work::{capture_failure_stage, should_record_failure, PipelineErrorKind};
use blcvoice::session::{FailureStage, SessionEvent, SessionId, SessionState};

fn format(channels: u16, sample_rate_hz: u32) -> AudioFormat {
    AudioFormat::new(channels, sample_rate_hz).expect("valid test format")
}

#[test]
fn blank_language_requests_are_rejected_before_ffi() {
    let options = RecognitionOptions {
        language_hint: Some("  ".to_owned()),
        ..RecognitionOptions::default()
    };
    let (kind, message) =
        validate_recognition_options(&options).expect_err("blank language must fail");
    assert_eq!(kind, RecognitionErrorKind::InvalidRequest);
    assert_eq!(message, "language hint cannot be empty");
    assert!(validate_recognition_options(&RecognitionOptions::default()).is_ok());
}

#[test]
fn refuses_to_invent_multichannel_upmix_policy() {
    assert_eq!(
        validate_channel_conversion(1, 2),
        Err(ProcessingError::UnsupportedChannelConversion { source: 1, target: 2 })
    );
    assert_eq!(validate_channel_conversion(2, 1), Ok(()));
    assert_eq!(validate_channel_conversion(2, 2), Ok(()));
}

#[test]
fn utterance_buffer_requires_complete_frames_and_enforces_limit() {
    let signal = format(2, 48_000);
    assert_eq!(
        utterance_append_frames(signal, 2, 0, 3),
        Err(ProcessingError::UnalignedInput { channels: 2, samples: 3 })
    );
    let frames = utterance_append_frames(signal, 2, 0, 4).expect("two complete frames fit");
    assert_eq!(frames, 2);
    assert_eq!(
        utterance_append_frames(signal, 2, frames, 2),
        Err(ProcessingError::UtteranceTooLong { max_frames: 2, attempted_frames: 3 })
    );
}

#[test]
fn utterance_duration_limit_rounds_up_to_source_frames() {
    assert_eq!(utterance_frame_limit(format(2, 44_100), 1), Ok(45));
    assert_eq!(
        utterance_frame_limit(format(2, 44_100), 0),
        Err(ProcessingError::InvalidUtteranceLimit)
    );
}

#[test]
fn analysis_exposes_outer_speech_envelope_without_erasing_internal_silence() {
    let analysis = VadAnalysis::new(
        16_000,
        10_000,
        vec![
            SpeechRange::new(1_000, 2_000).unwrap(),
            SpeechRange::new(4_000, 6_000).unwrap(),
        ],
        Some(0.9f32.to_bits()),
    )
    .unwrap();

    assert_eq!(
        analysis.speech_envelope(),
        Some(SpeechRange {
            start_sample: 1_000,
            end_sample: 6_000,
        })
    );
    assert!(analysis.contains_speech());
    assert_eq!(analysis.speech_ranges.len(), 2);
}

#[test]
fn analysis_rejects_zero_rate_bad_probability_and_bad_ranges() {
    assert_eq!(
        VadAnalysis::new(0, 10, vec![], None).unwrap_err(),
        VadError::InvalidSampleRate
    );
    assert_eq!(
        VadAnalysis::new(16_000, 10, vec![], Some(1.5f32.to_bits())).unwrap_err(),
        VadError::InvalidProbability(1.5f32.to_bits())
    );
    assert_eq!(
        VadAnalysis::new(16_000, 10, vec![], Some(f32::NAN.to_bits())).unwrap_err(),
        VadError::InvalidProbability(f32::NAN.to_bits())
    );
    assert!(VadAnalysis::new(16_000, 10, vec![], Some(1.0f32.to_bits())).is_ok());
    assert!(VadAnalysis::new(16_000, 10, vec![], Some((-0.0f32).to_bits())).is_ok());
    assert!(VadAnalysis::new(16_000, 10, vec![], Some((-0.1f32).to_bits())).is_err());
    assert_eq!(
        VadAnalysis::new(16_000, 10, vec![SpeechRange { start_sample: 4, end_sample: 11 }], None)
            .unwrap_err(),
        VadError::InvalidRange { start_sample: 4, end_sample: 11 }
    );
    let silent = VadAnalysis::new(16_000, 10, vec![], None).unwrap();
    assert!(!silent.contains_speech());
    assert_eq!(silent.speech_envelope(), None);
}

#[test]
fn audio_input_requires_complete_interleaved_frames() {
    let stereo = AsrAudioFormat::new(2, 48_000).expect("valid test format");
    assert_eq!(
        check_frame_alignment(3, stereo),
        Err(AudioInputError::UnalignedSamples { channels: 2, samples: 3 })
    );
    assert_eq!(check_frame_alignment(4, stereo), Ok(2));
}

#[test]
fn stale_finish_cannot_take_active_dictation() {
    let mut slot = DictationSlot::new();
    slot.begin_preparing().expect("dictation must start");
    let session = SessionId::new(5);
    slot.recording_started(session).expect("recording must start");
    let stale = SessionId::new(session.get() + 10);
    let error = slot.begin_finishing(stale).expect_err("stale finish must fail");
    assert_eq!(error.kind(), DesktopDictationErrorKind::StaleSession);
    assert_eq!(slot.active_session_id(), Some(session));
    assert!(slot.begin_cancel(session).expect("active dictation must cancel"));
}

#[test]
fn overlapping_dictation_is_rejected() {
    let mut slot = DictationSlot::new();
    slot.begin_preparing().expect("dictation must start");
    let session = SessionId::new(1);
    slot.recording_started(session).expect("recording must start");
    let error = slot.begin_preparing().expect_err("overlapping dictation must be rejected");
    assert_eq!(error.kind(), DesktopDictationErrorKind::Busy);
    assert!(slot.begin_cancel(session).expect("active dictation must cancel"));
}

#[test]
fn second_test_is_rejected_while_capture_worker_is_active() {
    let mut control = CaptureControl::new();
    control.begin_start().expect("first microphone test must start");
    let first = SessionId::new(1);
    control.worker_started(first);
    control.end_start();
    let error = control.begin_start().expect_err("overlapping microphone tests must be rejected");
    assert_eq!(error.kind(), DesktopCaptureErrorKind::Busy);
    assert_eq!(control.claim_for_cancel(first), Ok(true));
}

#[test]
fn stale_session_cannot_claim_another_sessions_worker() {
    let mut control = CaptureControl::new();
    control.begin_start().expect("microphone test must start");
    let active = SessionId::new(1);
    control.worker_started(active);
    control.end_start();
    let stale = SessionId::new(active.get() + 99);
    let error = control.claim_worker(stale).expect_err("stale session must not take active worker");
    assert_eq!(error.kind(), DesktopCaptureErrorKind::StaleSession);
    assert_eq!(control.worker_session(), Some(active));
    assert_eq!(control.claim_for_cancel(active), Ok(true));
}

#[test]
fn cancel_is_rejected_while_capture_start_is_in_flight() {
    let mut control = CaptureControl::new();
    control.begin_start().expect("start is in flight");
    let error = control
        .claim_for_cancel(SessionId::new(1))
        .expect_err("cancel must not race capture startup");
    assert_eq!(error.kind(), DesktopCaptureErrorKind::Busy);
}

#[test]
fn capture_start_failure_marks_audio_capture_stage() {
    let mut coordinator = SessionCoordinator::new();
    let session = coordinator.begin().expect("session must begin");
    assert!(should_record_failure(coordinator.current(), session.id));
    coordinator
        .transition(session.id, SessionEvent::Fail(FailureStage::AudioCapture))
        .expect("a live session can fail");
    let failed = coordinator.current().expect("failed session must remain visible");
    assert_eq!(failed.state, SessionState::Failed);
    assert_eq!(failed.failure_stage, Some(FailureStage::AudioCapture));
    assert!(!should_record_failure(coordinator.current(), session.id));
}

#[test]
fn empty_finalization_marks_speech_detection_stage() {
    let stage = capture_failure_stage(PipelineErrorKind::EmptyUtterance);
    assert_eq!(stage, FailureStage::SpeechDetection);
    let mut coordinator = SessionCoordinator::new();
    let session = coordinator.begin().expect("session must begin");
    coordinator
        .transition(session.id, SessionEvent::RecordingStarted)
        .expect("recording must start");
    coordinator
        .transition(session.id, SessionEvent::RecordingStopped)
        .expect("recording must stop");
    coordinator
        .transition(session.id, SessionEvent::Fail(stage))
        .expect("finalization can fail");
    let failed = coordinator.current().expect("failed session must remain visible");
    assert_eq!(failed.state, SessionState::Failed);
    assert_eq!(failed.failure_stage, Some(FailureStage::SpeechDetection));
}

#[test]
fn invalid_configuration_is_rejected() {
    assert_eq!(
        EndpointerTiming::new(120, 0).unwrap_err(),
        EndpointerError::InvalidConfiguration(
            "endpointer speech and silence durations must be non-zero"
        )
    );
}

#[test]
fn loaded_models_are_named_by_architecture_and_variant() {
    assert_eq!(model_identifier("whisper", "base", "m.gguf"), "whisper:base");
    assert_eq!(model_identifier("whisper", "", "m.gguf"), "whisper");
    assert_eq!(model_identifier("", "base", "m.gguf"), "base");
    assert_eq!(model_identifier("", "", "m.gguf"), "m.gguf");
}
