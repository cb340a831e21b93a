use blcvoice::asr::RecognitionOptions;
use blcvoice::audio::AudioDeviceId;
use blcvoice::desktop::{
    DesktopCaptureError, DesktopCaptureErrorKind, DesktopDictationErrorKind,
    DesktopInsertionService, InsertPlan, InsertionConnection,
};
use blcvoice::dictation_flow::{
    begin_start, finish_step, insertion_transition_error, start_step, FinishAction, FinishEvent,
    FinishKind, ProcessingFailure, RecognizerCache, RecognizerCacheKey, StartAction, StartEvent,
};
use blcvoice::dictation_slot::{DesktopDictationRequest, DictationSlot, DictationSlotState};
use blcvoice::insertion::{InsertionBackend, InsertionError, InsertionErrorKind, InsertionReceipt};
use blcvoice::insertion_backends::{
    check_keysyms_per_keycode, scratch_keysym_range, x11_keycode_count,
};
use blcvoice::models::{recommend_for_reported_memory, GIB};
use blcvoice::platform::{DesktopEnvironment, DesktopPlatform, LinuxDisplayServer};
use blcvoice::session::SessionId;

fn key(path: &str, len: u64) -> RecognizerCacheKey {
    RecognizerCacheKey {
        model_path: path.to_owned(),
        file_len: Some(len),
        modified: Some((true, 1_700_000_000, 5)),
    }
}

fn request(model_path: &str) -> DesktopDictationRequest {
    DesktopDictationRequest {
        device_id: AudioDeviceId::new("hw:0").unwrap(),
        model_path: model_path.to_owned(),
        recognition: RecognitionOptions::default(),
    }
}

fn capture_error(kind: DesktopCaptureErrorKind, message: &str) -> DesktopCaptureError {
    DesktopCaptureError::new(kind, message.to_owned())
}

#[test]
fn cached_recognizer_is_reused_only_for_the_same_model() {
    let mut cache: RecognizerCache<&str> = RecognizerCache::new();
    assert_eq!(cache.take_for(&key("/m/base.bin", 10)), None);

    cache.recycle(key("/m/base.bin", 10), "base");
    assert_eq!(cache.take_for(&key("/m/base.bin", 10)), Some("base"));
    assert_eq!(cache.take_for(&key("/m/base.bin", 10)), None);

    cache.recycle(key("/m/base.bin", 10), "base");
    assert_eq!(cache.take_for(&key("/m/base.bin", 11)), None);
    assert_eq!(cache.take_for(&key("/m/base.bin", 10)), None);

    cache.recycle(key("/m/base.bin", 10), "base");
    cache.recycle(key("/m/small.bin", 20), "small");
    assert_eq!(cache.take_for(&key("/m/base.bin", 10)), None);

    let mut touched = key("/m/base.bin", 10);
    touched.modified = Some((true, 1_700_000_001, 5));
    assert!(!key("/m/base.bin", 10).same_as(&touched));
    assert!(key("/m/base.bin", 10).same_as(&key("/m/base.bin", 10)));
}

#[test]
fn start_prepares_the_recognizer_before_recording() {
    let mut slot = DictationSlot::new();
    assert!(begin_start(&mut slot, &request("")).is_err());
    assert_eq!(slot.state(), DictationSlotState::Idle);

    begin_start(&mut slot, &request("model.bin")).unwrap();
    assert_eq!(slot.state(), DictationSlotState::Preparing);
    let busy = begin_start(&mut slot, &request("model.bin")).unwrap_err();
    assert_eq!(busy.kind(), DesktopDictationErrorKind::Busy);

    assert!(matches!(
        start_step(&mut slot, StartEvent::RecognizerReady),
        StartAction::StartCapture
    ));
    let id = SessionId::new(4);
    assert!(matches!(
        start_step(&mut slot, StartEvent::CaptureStarted(id)),
        StartAction::Started(started) if started == id
    ));
    assert_eq!(slot.state(), DictationSlotState::Recording(id));
}

#[test]
fn failed_starts_leave_the_slot_idle() {
    let mut slot = DictationSlot::with_state(DictationSlotState::Preparing);
    match start_step(&mut slot, StartEvent::RecognizerFailed("no such file".to_owned())) {
        StartAction::Failed { recycle_recognizer, cancel_capture, error } => {
            assert!(!recycle_recognizer);
            assert_eq!(cancel_capture, None);
            assert_eq!(error.kind(), DesktopDictationErrorKind::RecognizerLoad);
            assert_eq!(error.message(), "could not load dictation model: no such file");
        }
        other => panic!("unexpected {other:?}"),
    }
    assert_eq!(slot.state(), DictationSlotState::Idle);

    let mut slot = DictationSlot::with_state(DictationSlotState::Preparing);
    match start_step(
        &mut slot,
        StartEvent::CaptureFailed(capture_error(DesktopCaptureErrorKind::InvalidDevice, "gone")),
    ) {
        StartAction::Failed { recycle_recognizer, cancel_capture, error } => {
            assert!(recycle_recognizer);
            assert_eq!(cancel_capture, None);
            assert_eq!(error.kind(), DesktopDictationErrorKind::Capture);
            assert_eq!(error.message(), "gone");
        }
        other => panic!("unexpected {other:?}"),
    }
    assert_eq!(slot.state(), DictationSlotState::Idle);

    let id = SessionId::new(8);
    let mut slot = DictationSlot::with_state(DictationSlotState::Idle);
    match start_step(&mut slot, StartEvent::CaptureStarted(id)) {
        StartAction::Failed { recycle_recognizer, cancel_capture, error } => {
            assert!(recycle_recognizer);
            assert_eq!(cancel_capture, Some(id));
            assert_eq!(error.kind(), DesktopDictationErrorKind::Busy);
            assert_eq!(
                error.message(),
                "dictation preparation was invalidated before recording started"
            );
        }
        other => panic!("unexpected {other:?}"),
    }
    assert_eq!(slot.state(), DictationSlotState::Idle);
}

#[test]
fn finish_hands_the_recognizer_back_on_every_path() {
    let id = SessionId::new(3);
    let mut slot = DictationSlot::with_state(DictationSlotState::Finalizing(id));
    assert!(matches!(
        finish_step(&mut slot, id, FinishEvent::CaptureFinished),
        FinishAction::Transcribe
    ));
    match finish_step(&mut slot, id, FinishEvent::Transcribed) {
        FinishAction::Done { recycle_recognizer, record_failure, result } => {
            assert!(recycle_recognizer);
            assert_eq!(record_failure, None);
            assert_eq!(result.unwrap(), FinishKind::Transcribed);
        }
        other => panic!("unexpected {other:?}"),
    }
    assert_eq!(slot.state(), DictationSlotState::AwaitingInsertion(id));

    let mut slot = DictationSlot::with_state(DictationSlotState::Finalizing(id));
    match finish_step(&mut slot, id, FinishEvent::NoSpeech) {
        FinishAction::Done { recycle_recognizer, result, .. } => {
            assert!(recycle_recognizer);
            assert_eq!(result.unwrap(), FinishKind::NoSpeech);
        }
        other => panic!("unexpected {other:?}"),
    }
    assert_eq!(slot.state(), DictationSlotState::Idle);

    let mut slot = DictationSlot::with_state(DictationSlotState::Finalizing(id));
    match finish_step(
        &mut slot,
        id,
        FinishEvent::CaptureFailed(capture_error(DesktopCaptureErrorKind::StaleSession, "stale")),
    ) {
        FinishAction::Done { recycle_recognizer, record_failure, result } => {
            assert!(recycle_recognizer);
            assert_eq!(record_failure, None);
            let error = result.unwrap_err();
            assert_eq!(error.kind(), DesktopDictationErrorKind::StaleSession);
            assert_eq!(error.message(), "stale");
        }
        other => panic!("unexpected {other:?}"),
    }
    assert_eq!(slot.state(), DictationSlotState::Idle);
}

#[test]
fn processing_failures_name_detection_or_transcription() {
    let id = SessionId::new(6);
    let mut slot = DictationSlot::with_state(DictationSlotState::Finalizing(id));
    match finish_step(
        &mut slot,
        id,
        FinishEvent::ProcessingFailed(capture_error(DesktopCaptureErrorKind::SpeechDetection, "vad")),
    ) {
        FinishAction::Done { recycle_recognizer, record_failure, result } => {
            assert!(recycle_recognizer);
            assert_eq!(record_failure, Some(ProcessingFailure::SpeechDetection));
            let error = result.unwrap_err();
            assert_eq!(error.kind(), DesktopDictationErrorKind::SpeechDetection);
            assert_eq!(error.message(), "dictation processing failed: vad");
        }
        other => panic!("unexpected {other:?}"),
    }
    assert_eq!(slot.state(), DictationSlotState::Idle);

    let mut slot = DictationSlot::with_state(DictationSlotState::Finalizing(id));
    match finish_step(
        &mut slot,
        id,
        FinishEvent::ProcessingFailed(capture_error(DesktopCaptureErrorKind::Runtime, "asr")),
    ) {
        FinishAction::Done { record_failure, result, .. } => {
            assert_eq!(record_failure, Some(ProcessingFailure::Recognition));
            assert_eq!(result.unwrap_err().kind(), DesktopDictationErrorKind::Transcription);
        }
        other => panic!("unexpected {other:?}"),
    }

    let lifecycle = insertion_transition_error(
        "complete",
        capture_error(DesktopCaptureErrorKind::StaleSession, "session 2 is stale"),
    );
    assert_eq!(lifecycle.kind(), DesktopDictationErrorKind::Insertion);
    assert_eq!(
        lifecycle.message(),
        "could not complete dictation insertion lifecycle: session 2 is stale"
    );
}

#[test]
fn insertion_connection_is_kept_until_the_backend_fails() {
    let x11 = DesktopInsertionService::for_environment(DesktopEnvironment::new(
        DesktopPlatform::Linux,
        LinuxDisplayServer::X11,
    ));
    let mut connection: InsertionConnection<u32> = InsertionConnection::new();
    match connection.prepare(&x11).unwrap() {
        InsertPlan::Connect { backend, restore_token } => {
            assert_eq!(backend, InsertionBackend::X11XTest);
            assert_eq!(restore_token, None);
        }
        InsertPlan::Submit(_) => panic!("nothing is connected yet"),
    }
    connection.connected(InsertionBackend::X11XTest, None);
    let ok: Result<InsertionReceipt, InsertionError> =
        Ok(InsertionReceipt::complete(InsertionBackend::X11XTest, 5));
    connection.submitted(7, &ok);
    assert!(connection.is_connected());
    assert!(matches!(connection.prepare(&x11).unwrap(), InsertPlan::Submit(7)));

    let invalid: Result<InsertionReceipt, InsertionError> =
        Err(InsertionError::new(InsertionErrorKind::InvalidText, "control character"));
    connection.submitted(7, &invalid);
    assert!(connection.is_connected());
    assert!(matches!(connection.prepare(&x11).unwrap(), InsertPlan::Submit(7)));
    let failed: Result<InsertionReceipt, InsertionError> =
        Err(InsertionError::new(InsertionErrorKind::BackendFailure, "x server gone"));
    connection.submitted(7, &failed);
    assert!(!connection.is_connected());

    let unknown = DesktopInsertionService::for_environment(DesktopEnvironment::new(
        DesktopPlatform::Linux,
        LinuxDisplayServer::Unknown,
    ));
    let error = connection.prepare(&unknown).err().unwrap();
    assert_eq!(error.kind(), InsertionErrorKind::BackendUnavailable);
}

#[test]
fn wayland_connections_resume_with_the_previous_token() {
    let wayland = DesktopInsertionService::for_environment(DesktopEnvironment::new(
        DesktopPlatform::Linux,
        LinuxDisplayServer::Wayland,
    ));
    let mut connection: InsertionConnection<u32> = InsertionConnection::new();
    connection.connected(InsertionBackend::XdgRemoteDesktopEis, Some("token-1".to_owned()));
    match connection.prepare(&wayland).unwrap() {
        InsertPlan::Connect { backend, restore_token } => {
            assert_eq!(backend, InsertionBackend::XdgRemoteDesktopEis);
            assert_eq!(restore_token.as_deref(), Some("token-1"));
        }
        InsertPlan::Submit(_) => panic!("nothing is connected yet"),
    }
}

#[test]
fn x11_keycode_range_and_scratch_slice() {
    assert_eq!(x11_keycode_count(8, 255).unwrap(), 248);
    assert_eq!(x11_keycode_count(9, 8).unwrap(), 1);
    let error = x11_keycode_count(0, 255).unwrap_err();
    assert_eq!(error.kind(), InsertionErrorKind::BackendUnavailable);
    assert_eq!(error.message(), "the X11 keycode range cannot be represented safely");

    assert!(check_keysyms_per_keycode(2).is_ok());
    assert_eq!(
        check_keysyms_per_keycode(0).unwrap_err().message(),
        "the X11 server returned an empty keyboard mapping width"
    );

    assert_eq!(scratch_keysym_range(8, 10, 4, 100).unwrap(), (8, 12));
    assert_eq!(scratch_keysym_range(8, 8, 4, 4).unwrap(), (0, 4));
    assert_eq!(
        scratch_keysym_range(8, 10, 4, 11).unwrap_err().message(),
        "the selected X11 scratch keycode mapping is invalid"
    );
}

#[test]
fn reported_memory_picks_the_model() {
    assert_eq!(recommend_for_reported_memory(None), "whisper-base-q5km");
    assert_eq!(recommend_for_reported_memory(Some(4 * GIB)), "whisper-base-q5km");
    assert_eq!(recommend_for_reported_memory(Some(12 * GIB)), "whisper-small-q5km");
    assert_eq!(recommend_for_reported_memory(Some(32 * GIB)), "whisper-large-v3-turbo-q4km");
}
