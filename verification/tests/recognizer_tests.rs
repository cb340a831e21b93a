use blcvoice::asr::{
    check_transcription_input, engine_failure_keeps_partial, engine_failure_kind,
    model_audio_format, AudioFormat, EngineFailure, RecognitionErrorKind,
};

#[test]
fn model_format_is_mono_at_the_reported_rate() {
    let format = model_audio_format(16_000).expect("positive rate");
    assert_eq!(format.channels(), 1);
    assert_eq!(format.sample_rate_hz(), 16_000);
}

#[test]
fn model_rates_that_are_not_positive_fail_the_load() {
    assert_eq!(
        model_audio_format(0),
        Err((
            RecognitionErrorKind::ModelLoad,
            "transcribe.cpp model reported a zero native sample rate".to_owned()
        ))
    );
    assert_eq!(
        model_audio_format(-44_100),
        Err((
            RecognitionErrorKind::ModelLoad,
            "transcribe.cpp model reported invalid native sample rate -44100".to_owned()
        ))
    );
    assert_eq!(
        model_audio_format(i32::MIN).unwrap_err().1,
        "transcribe.cpp model reported invalid native sample rate -2147483648"
    );
}

#[test]
fn transcription_input_must_be_non_empty_and_in_the_model_format() {
    let required = AudioFormat::new(1, 16_000).unwrap();
    let stereo = AudioFormat::new(2, 48_000).unwrap();
    assert_eq!(check_transcription_input(16, required, required), Ok(()));
    assert_eq!(
        check_transcription_input(0, required, required),
        Err((
            RecognitionErrorKind::InvalidAudio,
            "cannot transcribe an empty audio buffer".to_owned()
        ))
    );
    assert_eq!(
        check_transcription_input(8, stereo, required),
        Err((
            RecognitionErrorKind::InvalidAudio,
            "transcribe.cpp requires 16000 Hz 1-channel audio, received 48000 Hz 2-channel audio"
                .to_owned()
        ))
    );
}

#[test]
fn engine_failures_map_to_recognition_error_kinds() {
    let cases = [
        (EngineFailure::InvalidArgument, RecognitionErrorKind::InvalidRequest),
        (EngineFailure::Nul, RecognitionErrorKind::InvalidRequest),
        (EngineFailure::NotImplemented, RecognitionErrorKind::Unsupported),
        (EngineFailure::Unsupported, RecognitionErrorKind::Unsupported),
        (EngineFailure::ModelFileNotFound, RecognitionErrorKind::ModelNotFound),
        (EngineFailure::ModelLoad, RecognitionErrorKind::ModelLoad),
        (EngineFailure::OutOfMemory, RecognitionErrorKind::ResourceExhausted),
        (EngineFailure::Backend, RecognitionErrorKind::BackendUnavailable),
        (EngineFailure::InputTooLong, RecognitionErrorKind::InputTooLong),
        (EngineFailure::Aborted, RecognitionErrorKind::Cancelled),
        (EngineFailure::OutputTruncated, RecognitionErrorKind::OutputTruncated),
        (EngineFailure::Busy, RecognitionErrorKind::Busy),
        (EngineFailure::BadStructSize, RecognitionErrorKind::Internal),
        (EngineFailure::VersionMismatch, RecognitionErrorKind::Internal),
        (EngineFailure::Other, RecognitionErrorKind::Internal),
    ];
    for (failure, kind) in cases {
        assert_eq!(engine_failure_kind(failure), kind, "{failure:?}");
    }
    assert!(engine_failure_keeps_partial(EngineFailure::Aborted));
    assert!(engine_failure_keeps_partial(EngineFailure::OutputTruncated));
    assert!(!engine_failure_keeps_partial(EngineFailure::Busy));
}
