//! Capture-to-recognition pipeline facts that carry no samples: speech ranges,
//! capture statistics and runtime operations.
use vstd::prelude::*;

use crate::audio::AudioFailureKind;
use crate::coordinator::SessionSnapshot;
use crate::session::SessionState;

verus! {

#[derive(Debug, Clone, Copy, PartialEq, Eq, Structural)]
pub struct SpeechRange {
    pub start_sample: usize,
    pub end_sample: usize,
}

#[derive(Debug, Clone, PartialEq, Eq)]
pub enum VadError {
    InvalidConfiguration(&'static str),
    InvalidSampleRate,
    NonFiniteSample { index: usize },
    InvalidRange { start_sample: usize, end_sample: usize },
    /// A probability outside `[0, 1]`, carried as its IEEE-754 bit pattern.
    InvalidProbability(u32),
    Backend(String),
}

impl SpeechRange {
    /// A non-empty half-open range of samples.
    pub fn new(start_sample: usize, end_sample: usize) -> (result: Result<Self, VadError>)
        ensures
            match result {
                Ok(range) => start_sample < end_sample && range == SpeechRange {
                    start_sample,
                    end_sample,
                },
                Err(e) => start_sample >= end_sample && e == VadError::InvalidRange {
                    start_sample,
                    end_sample,
                },
            },
    {
        if start_sample >= end_sample {
            return Err(VadError::InvalidRange { start_sample, end_sample });
        }
        Ok(SpeechRange { start_sample, end_sample })
    }

    pub fn sample_len(self) -> (len: usize)
        requires
            self.start_sample <= self.end_sample,
        ensures
            len == self.end_sample - self.start_sample,
    {
        self.end_sample - self.start_sample
    }
}

/// Speech ranges an analysis of `analyzed_samples` samples may report.
pub open spec fn spec_ranges_valid(ranges: Seq<SpeechRange>, analyzed_samples: usize) -> bool {
    forall|i: int|
        0 <= i < ranges.len() ==> #[trigger] ranges[i].start_sample < ranges[i].end_sample
            && ranges[i].end_sample <= analyzed_samples
}

/// Checks the speech ranges of one analysis, reporting the first invalid range.
pub fn validate_speech_ranges(ranges: &Vec<SpeechRange>, analyzed_samples: usize) -> (result: Result<
    (),
    VadError,
>)
    ensures
        result is Ok <==> spec_ranges_valid(ranges@, analyzed_samples),
        result matches Err(VadError::InvalidRange { start_sample, end_sample }) ==> exists|i: int|
            0 <= i < ranges@.len() && ranges@[i].start_sample == start_sample
                && ranges@[i].end_sample == end_sample,
        result matches Err(e) ==> e is InvalidRange,
{
    let mut i: usize = 0;
    while i < ranges.len()
        invariant
            i <= ranges@.len(),
            forall|j: int|
                0 <= j < i ==> #[trigger] ranges@[j].start_sample < ranges@[j].end_sample
                    && ranges@[j].end_sample <= analyzed_samples,
        decreases ranges@.len() - i,
    {
        let range = ranges[i];
        if range.start_sample >= range.end_sample || range.end_sample > analyzed_samples {
            return Err(
                VadError::InvalidRange {
                    start_sample: range.start_sample,
                    end_sample: range.end_sample,
                },
            );
        }
        i = i + 1;
    }
    Ok(())
}

/// The outer envelope of the reported speech: from the first range's start to
/// the last range's end. Internal silence is not erased from the ranges.
pub fn speech_envelope(ranges: &Vec<SpeechRange>) -> (envelope: Option<SpeechRange>)
    ensures
        match envelope {
            Some(e) => ranges@.len() > 0 && e.start_sample == ranges@[0].start_sample
                && e.end_sample == ranges@.last().end_sample,
            None => ranges@.len() == 0,
        },
{
    if ranges.len() == 0 {
        return None;
    }
    Some(
        SpeechRange {
            start_sample: ranges[0].start_sample,
            end_sample: ranges[ranges.len() - 1].end_sample,
        },
    )
}

/// Whether the IEEE-754 bit pattern of an `f32` denotes a finite probability in
/// `[0, 1]`: `+0.0` up to `1.0`, or `-0.0`.
pub open spec fn spec_probability_bits_valid(bits: u32) -> bool {
    bits <= 0x3F80_0000u32 || bits == 0x8000_0000u32
}

/// The result of one voice-activity analysis over `analyzed_samples` mono samples.
#[derive(Debug, Clone)]
pub struct VadAnalysis {
    pub sample_rate_hz: u32,
    pub analyzed_samples: usize,
    pub speech_ranges: Vec<SpeechRange>,
    /// The highest speech probability seen, as the bit pattern of an `f32`.
    pub max_speech_probability_bits: Option<u32>,
}

impl VadAnalysis {
    /// Builds an analysis, checking the sample rate, then the probability, then
    /// each speech range in order.
    pub fn new(
        sample_rate_hz: u32,
        analyzed_samples: usize,
        speech_ranges: Vec<SpeechRange>,
        max_speech_probability_bits: Option<u32>,
    ) -> (result: Result<Self, VadError>)
        ensures
            match result {
                Ok(analysis) => {
                    &&& sample_rate_hz != 0
                    &&& (max_speech_probability_bits matches Some(bits)
                        ==> spec_probability_bits_valid(bits))
                    &&& spec_ranges_valid(speech_ranges@, analyzed_samples)
                    &&& analysis.sample_rate_hz == sample_rate_hz
                    &&& analysis.analyzed_samples == analyzed_samples
                    &&& analysis.speech_ranges@ == speech_ranges@
                    &&& analysis.max_speech_probability_bits == max_speech_probability_bits
                },
                Err(e) => if sample_rate_hz == 0 {
                    e == VadError::InvalidSampleRate
                } else if max_speech_probability_bits is Some
                    && !spec_probability_bits_valid(max_speech_probability_bits->0) {
                    e == VadError::InvalidProbability(max_speech_probability_bits->0)
                } else {
                    &&& !spec_ranges_valid(speech_ranges@, analyzed_samples)
                    &&& e matches VadError::InvalidRange { start_sample, end_sample }
                    &&& exists|i: int|
                        0 <= i < speech_ranges@.len() && speech_ranges@[i].start_sample
                            == start_sample && speech_ranges@[i].end_sample == end_sample
                },
            },
    {
        if sample_rate_hz == 0 {
            return Err(VadError::InvalidSampleRate);
        }
        if let Some(bits) = max_speech_probability_bits {
            if !(bits <= 0x3F80_0000u32 || bits == 0x8000_0000u32) {
                return Err(VadError::InvalidProbability(bits));
            }
        }
        match validate_speech_ranges(&speech_ranges, analyzed_samples) {
            Ok(()) => Ok(
                VadAnalysis {
                    sample_rate_hz,
                    analyzed_samples,
                    speech_ranges,
                    max_speech_probability_bits,
                },
            ),
            Err(e) => Err(e),
        }
    }

    pub fn contains_speech(&self) -> (speech: bool)
        ensures
            speech == (self.speech_ranges@.len() > 0),
    {
        self.speech_ranges.len() > 0
    }

    /// The outer envelope of the reported speech, internal silence included.
    pub fn speech_envelope(&self) -> (envelope: Option<SpeechRange>)
        ensures
            match envelope {
                Some(e) => self.speech_ranges@.len() > 0 && e.start_sample
                    == self.speech_ranges@[0].start_sample && e.end_sample
                    == self.speech_ranges@.last().end_sample,
                None => self.speech_ranges@.len() == 0,
            },
    {
        speech_envelope(&self.speech_ranges)
    }
}

/// Live capture counters reported by a capture session.
#[derive(Debug, Clone, Copy, PartialEq, Eq, Structural)]
pub struct CaptureStats {
    pub received_samples: u64,
    pub dropped_samples: u64,
    pub callback_errors: u64,
    pub last_failure: Option<AudioFailureKind>,
}

impl Default for CaptureStats {
    fn default() -> (stats: Self)
        ensures
            stats.received_samples == 0,
            stats.dropped_samples == 0,
            stats.callback_errors == 0,
            stats.last_failure is None,
    {
        CaptureStats {
            received_samples: 0,
            dropped_samples: 0,
            callback_errors: 0,
            last_failure: None,
        }
    }
}

impl CaptureStats {
    /// Capture integrity holds while no sample was dropped and no callback failed.
    pub fn integrity_intact(&self) -> (intact: bool)
        ensures
            intact == (self.dropped_samples == 0 && self.callback_errors == 0),
    {
        self.dropped_samples == 0 && self.callback_errors == 0
    }
}

#[derive(Debug, Clone, Copy, PartialEq, Eq, Structural)]
pub struct PumpReport {
    pub samples_read: usize,
    pub frames_read: usize,
    pub buffered_frames: usize,
    pub stats: CaptureStats,
}

#[derive(Debug, Clone, Copy, PartialEq, Eq, Structural)]
pub struct FinalizationReport {
    pub session: SessionSnapshot,
    pub capture_stats: CaptureStats,
    pub source_frames: usize,
}

#[derive(Debug, Clone, Copy, PartialEq, Eq, Structural)]
pub struct MicrophoneTestReport {
    pub finalized: FinalizationReport,
    pub terminal_session: SessionSnapshot,
}

#[derive(Debug, Clone, Copy, PartialEq, Eq, Structural)]
pub enum RuntimeOperation {
    StartRecording,
    PumpRecording,
    FinalizeRecording,
    Transcribe,
}

impl RuntimeOperation {
    /// The phrase naming the operation in messages.
    pub fn name(self) -> (name: &'static str)
        ensures
            name@ == match self {
                RuntimeOperation::StartRecording => "start recording"@,
                RuntimeOperation::PumpRecording => "pump recording"@,
                RuntimeOperation::FinalizeRecording => "finalize recording"@,
                RuntimeOperation::Transcribe => "transcribe finalized audio"@,
            },
    {
        match self {
            RuntimeOperation::StartRecording => "start recording",
            RuntimeOperation::PumpRecording => "pump recording",
            RuntimeOperation::FinalizeRecording => "finalize recording",
            RuntimeOperation::Transcribe => "transcribe finalized audio",
        }
    }
}

/// The runtime operation that requires a session to be in `state`.
pub open spec fn spec_operation_for_state(state: SessionState) -> RuntimeOperation {
    match state {
        SessionState::Recording => RuntimeOperation::PumpRecording,
        SessionState::FinalizingAudio => RuntimeOperation::FinalizeRecording,
        SessionState::Transcribing => RuntimeOperation::Transcribe,
        _ => RuntimeOperation::StartRecording,
    }
}

pub fn operation_for_state(state: SessionState) -> (operation: RuntimeOperation)
    ensures
        operation == spec_operation_for_state(state),
{
    match state {
        SessionState::Recording => RuntimeOperation::PumpRecording,
        SessionState::FinalizingAudio => RuntimeOperation::FinalizeRecording,
        SessionState::Transcribing => RuntimeOperation::Transcribe,
        SessionState::Arming | SessionState::Transforming | SessionState::Inserting
        | SessionState::Completed | SessionState::Failed | SessionState::Cancelled => {
            RuntimeOperation::StartRecording
        },
    }
}

} // verus!
