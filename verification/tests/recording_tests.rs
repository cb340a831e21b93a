use blcvoice::audio_processing::{utterance_append_frames, AudioFormat, ProcessingError};
use blcvoice::pipeline::CaptureStats;
use blcvoice::recording::{
    check_capture_read, check_finalization, count_samples_read, pump_report,
    scratch_sample_count, DictationPipelineError, DEFAULT_READ_FRAMES,
};
use blcvoice::runtime_work::{capture_failure_stage, PipelineErrorKind};
use blcvoice::session::FailureStage;

fn stereo_48k() -> AudioFormat {
    AudioFormat::new(2, 48_000).expect("valid test format")
}

#[test]
fn capture_integrity_loss_fails_during_finalization() {
    let stats = CaptureStats {
        received_samples: 4,
        dropped_samples: 2,
        callback_errors: 1,
        last_failure: None,
    };
    let error = check_finalization(stats, 2).expect_err("known capture loss must invalidate finalization");
    assert_eq!(error, DictationPipelineError::CaptureIntegrity { stats });
    assert_eq!(
        error.message(),
        "capture integrity was lost: 2 dropped samples, 1 callback errors"
    );
    assert_eq!(capture_failure_stage(error.kind()), FailureStage::AudioCapture);
}

#[test]
fn empty_utterance_fails_during_finalization() {
    let error = check_finalization(CaptureStats::default(), 0)
        .expect_err("empty capture must fail finalization");
    assert_eq!(error, DictationPipelineError::EmptyUtterance);
    assert_eq!(error.kind(), PipelineErrorKind::EmptyUtterance);
    assert_eq!(capture_failure_stage(error.kind()), FailureStage::SpeechDetection);
    assert_eq!(check_finalization(CaptureStats::default(), 1), Ok(()));
}

#[test]
fn utterance_duration_limit_is_enforced() {
    let limit = blcvoice::audio_processing::utterance_frame_limit(stereo_48k(), 2).unwrap();
    assert_eq!(limit, 96);
    let error = utterance_append_frames(stereo_48k(), limit, 0, 97 * 2)
        .expect_err("97 source frames exceed a 2 ms 48 kHz limit of 96 frames");
    assert_eq!(
        error,
        ProcessingError::UtteranceTooLong { max_frames: 96, attempted_frames: 97 }
    );
    let wrapped = DictationPipelineError::Processing(error);
    assert_eq!(
        wrapped.message(),
        "audio preprocessing failed: utterance would contain 97 frames, exceeding the configured 96-frame limit"
    );
}

#[test]
fn defensive_alignment_check_rejects_broken_capture_adapter() {
    let scratch = scratch_sample_count(4, stereo_48k()).expect("collector must initialize");
    assert_eq!(scratch, 8);
    let error = check_capture_read(3, scratch, stereo_48k())
        .expect_err("stereo capture cannot return three samples");
    assert_eq!(
        error,
        DictationPipelineError::InvalidCaptureRead {
            returned_samples: 3,
            scratch_capacity: 8,
            channels: 2
        }
    );
    assert_eq!(
        error.message(),
        "capture returned 3 samples into a 8-sample scratch buffer for 2-channel audio"
    );
    assert!(check_capture_read(10, scratch, stereo_48k()).is_err());
    assert_eq!(check_capture_read(4, scratch, stereo_48k()), Ok(()));
}

#[test]
fn pump_reports_drained_and_buffered_frame_counts() {
    let scratch = scratch_sample_count(2, stereo_48k()).expect("collector must initialize");
    let mut samples_read = 0;
    let mut buffered = 0;
    for returned in [scratch, scratch] {
        check_capture_read(returned, scratch, stereo_48k()).expect("read is whole frames");
        buffered = utterance_append_frames(stereo_48k(), 48_000, buffered, returned).unwrap();
        samples_read = count_samples_read(samples_read, returned).unwrap();
    }
    let report = pump_report(samples_read, stereo_48k(), buffered, CaptureStats::default());
    assert_eq!(report.samples_read, 8);
    assert_eq!(report.frames_read, 4);
    assert_eq!(report.buffered_frames, 4);
}

#[test]
fn zero_read_frame_configuration_is_rejected() {
    assert_eq!(
        scratch_sample_count(0, stereo_48k()),
        Err(DictationPipelineError::InvalidConfiguration(
            "capture worker read size must contain at least one frame"
        ))
    );
    assert_eq!(scratch_sample_count(DEFAULT_READ_FRAMES, stereo_48k()), Ok(2048));
    assert_eq!(
        scratch_sample_count(usize::MAX, stereo_48k()),
        Err(DictationPipelineError::InvalidConfiguration(
            "capture worker scratch buffer size overflowed"
        ))
    );
    assert_eq!(
        count_samples_read(usize::MAX, 1),
        Err(DictationPipelineError::InvalidConfiguration(
            "capture worker sample counter overflowed"
        ))
    );
}
