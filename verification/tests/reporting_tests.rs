use blcvoice::asr::AudioInputError;
use blcvoice::audio::{AudioFailure, AudioFailureKind};
use blcvoice::audio_processing::ProcessingError;
use blcvoice::coordinator::{SessionCoordinatorError, SessionSnapshot};
use blcvoice::desktop::{CaptureStatsDto, CommandErrorDto, DictationReportDto};
use blcvoice::pipeline::{CaptureStats, RuntimeOperation};
use blcvoice::recording::DictationPipelineError;
use blcvoice::runtime_work::RuntimeError;
use blcvoice::session::{FailureStage, SessionEvent, SessionId, SessionState, TransitionError};
use blcvoice::shortcut_coordinator::DictationLifecycleEventDto;

#[test]
fn processing_errors_read_as_sentences() {
    assert_eq!(
        ProcessingError::InvalidFormat.message(),
        "audio format must have non-zero channels and sample rate"
    );
    assert_eq!(
        ProcessingError::UnsupportedChannelConversion { source: 1, target: 2 }.message(),
        "unsupported channel conversion from 1 channels to 2 channels"
    );
    assert_eq!(
        ProcessingError::InvalidInputLength { expected: 2048, actual: 7 }.message(),
        "audio preprocessing expected 2048 input samples but received 7"
    );
    assert_eq!(
        ProcessingError::UnalignedInput { channels: 2, samples: 3 }.message(),
        "3 interleaved samples do not form complete 2-channel frames"
    );
    assert_eq!(
        ProcessingError::UtteranceTooLong { max_frames: 480, attempted_frames: 481 }.message(),
        "utterance would contain 481 frames, exceeding the configured 480-frame limit"
    );
    assert_eq!(
        ProcessingError::OutputTooSmall { required: 10, actual: 0 }.message(),
        "audio preprocessing requires at least 10 output samples but received 0"
    );
    assert_eq!(
        ProcessingError::Resampling("flush".to_owned()).message(),
        "audio resampling failed: flush"
    );
    assert_eq!(
        ProcessingError::Adapter("size".to_owned()).message(),
        "audio buffer adapter failed: size"
    );
    assert_eq!(
        ProcessingError::ResamplerConstruction("ratio".to_owned()).message(),
        "audio resampler construction failed: ratio"
    );
    assert_eq!(ProcessingError::BufferSizeOverflow.message(), "audio buffer size overflow");
}

#[test]
fn asr_input_errors_read_as_sentences() {
    assert_eq!(
        AudioInputError::UnalignedSamples { channels: 2, samples: 3 }.message(),
        "3 samples do not form complete 2-channel ASR frames"
    );
    assert_eq!(
        AudioInputError::NonFiniteSample { index: 0 }.message(),
        "ASR sample at index 0 is not finite"
    );
    assert_eq!(
        AudioInputError::OutOfRangeSample { index: 12 }.message(),
        "ASR sample at index 12 is outside the normalized [-1, 1] range"
    );
}

fn report() -> DictationReportDto {
    DictationReportDto {
        session_id: 7,
        state: "completed",
        text: "merhaba".to_owned(),
        raw_text: None,
        detected_language: Some("tr".to_owned()),
        engine_id: "transcribe.cpp".to_owned(),
        model_id: "base".to_owned(),
        backend_name: "cpu".to_owned(),
        source_frames: 480,
        asr_frames: 160,
        capture_stats: CaptureStatsDto::from_stats(CaptureStats::default()),
        insertion_backend: "x11-xtest".to_owned(),
        submitted_utf8_bytes: 7,
        semantic_delivery_verified: false,
    }
}

#[test]
fn lifecycle_events_carry_only_what_their_state_reports() {
    let starting = DictationLifecycleEventDto::starting();
    assert_eq!(starting.source, "shortcut");
    assert_eq!(starting.state, "starting");
    assert_eq!(starting.session_id, None);
    assert_eq!(starting.text, None);

    let recording = DictationLifecycleEventDto::recording(SessionId::new(3));
    assert_eq!(recording.state, "recording");
    assert_eq!(recording.session_id, Some(3));

    let finishing = DictationLifecycleEventDto::finishing(SessionId::new(3));
    assert_eq!(finishing.state, "finishing");
    assert_eq!(finishing.error_code, None);

    let completed = DictationLifecycleEventDto::completed(SessionId::new(7), &report());
    assert_eq!(completed.state, "completed");
    assert_eq!(completed.session_id, Some(7));
    assert_eq!(completed.text.as_deref(), Some("merhaba"));
    assert_eq!(completed.insertion_backend.as_deref(), Some("x11-xtest"));
    assert_eq!(completed.message, None);
}

#[test]
fn a_failed_dictation_reports_the_command_error() {
    let error = CommandErrorDto::plain("dictation_busy", "dictation is already active".to_owned());
    let event = DictationLifecycleEventDto::from_error(Some(SessionId::new(4)), &error);
    assert_eq!(event.state, "failed");
    assert_eq!(event.session_id, Some(4));
    assert_eq!(event.error_code, Some("dictation_busy"));
    assert_eq!(event.message.as_deref(), Some("dictation is already active"));
    assert_eq!(event.recoverable_text, None);
    assert_eq!(event.text, None);

    let event = DictationLifecycleEventDto::failure(
        None,
        "insertion_failed",
        "could not type".to_owned(),
        Some("merhaba".to_owned()),
    );
    assert_eq!(event.session_id, None);
    assert_eq!(event.recoverable_text.as_deref(), Some("merhaba"));
}

#[test]
fn lifecycle_errors_name_the_session_state_and_event() {

    let invalid = TransitionError {
        state: SessionState::Completed,
        event: SessionEvent::TranscriptReady { requires_transform: false },
    };
    assert_eq!(
        invalid.message(),
        "event TranscriptReady { requires_transform: false } is invalid while session is Completed"
    );
    let failing = TransitionError {
        state: SessionState::Cancelled,
        event: SessionEvent::Fail(FailureStage::TextInsertion),
    };
    assert_eq!(
        failing.message(),
        "event Fail(TextInsertion) is invalid while session is Cancelled"
    );

    let busy = SessionCoordinatorError::Busy {
        active: SessionSnapshot {
            id: SessionId::new(12),
            state: SessionState::FinalizingAudio,
            failure_stage: None,
        },
    };
    assert_eq!(busy.message(), "dictation session 12 is still FinalizingAudio");
    let stale = SessionCoordinatorError::StaleSession {
        supplied: SessionId::new(3),
        active: SessionId::new(4),
    };
    assert_eq!(stale.message(), "dictation session 3 is stale; current session is 4");
    assert_eq!(
        SessionCoordinatorError::NoActiveSession.message(),
        "there is no active dictation session"
    );
    assert_eq!(
        SessionCoordinatorError::SessionIdExhausted.message(),
        "dictation session id space exhausted"
    );
    assert_eq!(
        SessionCoordinatorError::InvalidTransition(failing).message(),
        failing.message()
    );
}

#[test]
fn runtime_errors_read_as_sentences() {

    let invalidated = RuntimeError::WorkInvalidated {
        session_id: SessionId::new(9),
        operation: RuntimeOperation::Transcribe,
    };
    assert_eq!(
        invalidated.message(),
        "dictation session 9 can no longer transcribe finalized audio"
    );
    let capture = RuntimeError::CaptureStart(AudioFailure {
        backend: None,
        device_id: None,
        kind: AudioFailureKind::DeviceBusy,
        message: "device is busy".to_owned(),
    });
    assert_eq!(
        capture.message(),
        "could not start microphone capture: device is busy"
    );
    assert_eq!(
        RuntimeError::Pipeline(DictationPipelineError::EmptyUtterance).message(),
        "captured utterance contains no audio frames"
    );
}
