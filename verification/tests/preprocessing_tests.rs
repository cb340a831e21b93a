use blcvoice::audio_processing::{
    check_preprocessor_request, frames_to_samples, plan_resampled_output, resampled_output_window,
    AudioFormat, PreprocessorShape, ProcessingError, ResamplePlan, ResampleProgress,
};

fn format(channels: u16, sample_rate_hz: u32) -> AudioFormat {
    AudioFormat::new(channels, sample_rate_hz).expect("valid test format")
}

fn resampling_message(error: ProcessingError) -> String {
    match error {
        ProcessingError::Resampling(message) => message,
        other => panic!("expected a resampling fault, got {other:?}"),
    }
}

#[test]
fn shape_without_resampler_uses_chunk_frames() {
    let shape = PreprocessorShape::new(format(2, 48_000), format(1, 48_000), 1_024, None)
        .expect("downmix to mono is supported");
    assert_eq!(shape.source_format(), format(2, 48_000));
    assert_eq!(shape.target_format(), format(1, 48_000));
    assert_eq!(shape.input_frames_per_block(), 1_024);
    assert_eq!(shape.max_output_frames(), 1_024);
    assert_eq!(shape.required_input_samples(), 2_048);
    assert_eq!(shape.max_output_samples(), 1_024);
    assert_eq!(shape.normalized_block_samples(), 1_024);
}

#[test]
fn shape_with_resampler_takes_its_block_sizes() {
    let shape = PreprocessorShape::new(format(1, 48_000), format(1, 16_000), 1_024, Some((1_024, 352)))
        .expect("resampling shape");
    assert_eq!(shape.input_frames_per_block(), 1_024);
    assert_eq!(shape.max_output_frames(), 352);
    assert_eq!(shape.max_output_samples(), 352);
}

#[test]
fn shape_rejects_zero_chunk_upmix_and_oversized_blocks() {
    assert_eq!(
        check_preprocessor_request(format(1, 16_000), format(2, 16_000), 0),
        Err(ProcessingError::InvalidChunkSize)
    );
    assert_eq!(
        PreprocessorShape::new(format(1, 16_000), format(2, 16_000), 1, None),
        Err(ProcessingError::UnsupportedChannelConversion { source: 1, target: 2 })
    );
    assert_eq!(
        PreprocessorShape::new(format(2, 16_000), format(2, 16_000), usize::MAX, None),
        Err(ProcessingError::BufferSizeOverflow)
    );
}

#[test]
fn block_lengths_must_match_the_shape() {
    let shape = PreprocessorShape::new(format(2, 48_000), format(1, 48_000), 4, None).unwrap();
    assert_eq!(shape.check_block(8, 4), Ok(()));
    assert_eq!(shape.check_block(8, 9), Ok(()));
    assert_eq!(
        shape.check_block(7, 4),
        Err(ProcessingError::InvalidInputLength { expected: 8, actual: 7 })
    );
    assert_eq!(
        shape.check_block(8, 3),
        Err(ProcessingError::OutputTooSmall { required: 4, actual: 3 })
    );
}

#[test]
fn utterance_frames_require_whole_source_frames() {
    let shape = PreprocessorShape::new(format(2, 48_000), format(1, 16_000), 1_024, Some((1_024, 352)))
        .unwrap();
    assert_eq!(shape.utterance_frames(0), Ok(0));
    assert_eq!(shape.utterance_frames(6), Ok(3));
    assert_eq!(
        shape.utterance_frames(5),
        Err(ProcessingError::UnalignedInput { channels: 2, samples: 5 })
    );
}

#[test]
fn resample_plan_covers_delay_and_exact_output() {
    let plan = plan_resampled_output(10, 100, 50, 2).unwrap();
    assert_eq!(
        plan,
        ResamplePlan {
            delay_frames: 10,
            expected_output_frames: 100,
            required_raw_frames: 110,
            capacity_frames: 110,
            capacity_samples: 220,
        }
    );
    let roomy = plan_resampled_output(10, 100, 200, 2).unwrap();
    assert_eq!(roomy.capacity_frames, 200);
    assert_eq!(roomy.capacity_samples, 400);
    assert_eq!(
        plan_resampled_output(usize::MAX, 1, 0, 1),
        Err(ProcessingError::BufferSizeOverflow)
    );
    assert_eq!(frames_to_samples(usize::MAX, 2), Err(ProcessingError::BufferSizeOverflow));
    assert_eq!(frames_to_samples(3, 2), Ok(6));
}

#[test]
fn resample_progress_accounts_for_every_input_frame() {
    let mut progress = ResampleProgress::new(100);
    assert_eq!(
        resampling_message(progress.advance_block(0, 5).unwrap_err()),
        "resampler consumed no input from a complete block"
    );
    assert_eq!(progress, ResampleProgress::new(100));

    progress.advance_block(40, 30).unwrap();
    assert_eq!(progress.input_offset(), 40);
    assert_eq!(progress.frames_left(), 60);
    assert_eq!(progress.output_offset(), 30);

    let before = progress;
    assert_eq!(
        resampling_message(progress.advance_block(70, 1).unwrap_err()),
        "resampler consumed more frames than were available"
    );
    assert_eq!(progress, before);

    progress.record_partial(5).unwrap();
    assert_eq!(progress.output_offset(), 35);
    assert_eq!(progress.frames_left(), 60);

    assert_eq!(
        resampling_message(progress.record_flush(0).unwrap_err()),
        "resampler produced no output while flushing its delay"
    );
    progress.record_flush(7).unwrap();
    assert_eq!(progress.output_offset(), 42);
    assert_eq!(progress.record_flush(usize::MAX), Err(ProcessingError::BufferSizeOverflow));
}

#[test]
fn output_window_skips_the_delay_and_holds_exactly_the_expected_frames() {
    let plan = plan_resampled_output(10, 100, 50, 2).unwrap();
    assert_eq!(resampled_output_window(plan, 2, 110, 220), Ok((20, 220)));
    assert_eq!(
        resampling_message(resampled_output_window(plan, 2, 100, 220).unwrap_err()),
        "resampler flush ended before the exact utterance output was available"
    );
    assert!(resampled_output_window(plan, 2, 110, 219).is_err());
}
