//! The bookkeeping of the worker that collects one utterance from a capture
//! stream: the size of its read buffer, which reads it accepts, how it counts
//! what it read, and when a finished recording may go on to recognition. The
//! samples themselves are handled by the caller.
use vstd::prelude::*;

use crate::asr::{AudioInputError, RecognitionErrorKind};
use crate::audio::AudioFailure;
use crate::audio_processing::{AudioFormat, ProcessingError};
use crate::pipeline::{CaptureStats, PumpReport};
use crate::runtime_work::PipelineErrorKind;
use crate::text::{decimal, u64_to_decimal, usize_to_decimal};

verus! {

/// Frames the worker reads from the capture stream at a time by default.
pub const DEFAULT_READ_FRAMES: usize = 1024;

/// Why collecting, finalizing or recognizing an utterance stopped.
#[derive(Debug, Clone, PartialEq, Eq)]
pub enum DictationPipelineError {
    InvalidConfiguration(&'static str),
    Capture(AudioFailure),
    InvalidCaptureRead { returned_samples: usize, scratch_capacity: usize, channels: u16 },
    CaptureIntegrity { stats: CaptureStats },
    EmptyUtterance,
    Processing(ProcessingError),
    InvalidAsrAudio(AudioInputError),
    /// A recognition failure, by its kind and message.
    Recognition { kind: RecognitionErrorKind, message: String },
}

impl DictationPipelineError {
    /// The text a user is shown for this error; a capture failure is described
    /// by its own message.
    pub open spec fn spec_message(&self) -> Seq<char> {
        match self {
            DictationPipelineError::InvalidConfiguration(m) => m@,
            DictationPipelineError::Capture(failure) => "audio capture failed: "@ + failure.message@,
            DictationPipelineError::InvalidCaptureRead {
                returned_samples,
                scratch_capacity,
                channels,
            } => "capture returned "@ + decimal(*returned_samples as nat) + " samples into a "@
                + decimal(*scratch_capacity as nat) + "-sample scratch buffer for "@ + decimal(
                *channels as nat,
            ) + "-channel audio"@,
            DictationPipelineError::CaptureIntegrity { stats } => "capture integrity was lost: "@
                + decimal(stats.dropped_samples as nat) + " dropped samples, "@ + decimal(
                stats.callback_errors as nat,
            ) + " callback errors"@,
            DictationPipelineError::EmptyUtterance => "captured utterance contains no audio frames"@,
            DictationPipelineError::Processing(error) => "audio preprocessing failed: "@
                + error.spec_message(),
            DictationPipelineError::InvalidAsrAudio(error) => "processed ASR audio is invalid: "@
                + error.spec_message(),
            DictationPipelineError::Recognition { kind: _, message } => "speech recognition failed: "@
                + message@,
        }
    }

    pub fn message(&self) -> (message: String)
        ensures
            message@ == self.spec_message(),
    {
        match self {
            DictationPipelineError::InvalidConfiguration(m) => String::from_str(m),
            DictationPipelineError::Capture(failure) => {
                let mut message = String::from_str("audio capture failed: ");
                message.append(failure.message.as_str());
                message
            },
            DictationPipelineError::InvalidCaptureRead {
                returned_samples,
                scratch_capacity,
                channels,
            } => {
                let mut message = String::from_str("capture returned ");
                message.append(usize_to_decimal(*returned_samples).as_str());
                message.append(" samples into a ");
                message.append(usize_to_decimal(*scratch_capacity).as_str());
                message.append("-sample scratch buffer for ");
                message.append(usize_to_decimal(*channels as usize).as_str());
                message.append("-channel audio");
                message
            },
            DictationPipelineError::CaptureIntegrity { stats } => {
                let mut message = String::from_str("capture integrity was lost: ");
                message.append(u64_to_decimal(stats.dropped_samples).as_str());
                message.append(" dropped samples, ");
                message.append(u64_to_decimal(stats.callback_errors).as_str());
                message.append(" callback errors");
                message
            },
            DictationPipelineError::EmptyUtterance => String::from_str(
                "captured utterance contains no audio frames",
            ),
            DictationPipelineError::Processing(error) => {
                let mut message = String::from_str("audio preprocessing failed: ");
                message.append(error.message().as_str());
                message
            },
            DictationPipelineError::InvalidAsrAudio(error) => {
                let mut message = String::from_str("processed ASR audio is invalid: ");
                message.append(error.message().as_str());
                message
            },
            DictationPipelineError::Recognition { kind: _, message } => {
                let mut text = String::from_str("speech recognition failed: ");
                text.append(message.as_str());
                text
            },
        }
    }

    /// The kind of failure, by which the lifecycle records its stage.
    pub open spec fn spec_kind(&self) -> PipelineErrorKind {
        match self {
            DictationPipelineError::InvalidConfiguration(_) => PipelineErrorKind::InvalidConfiguration,
            DictationPipelineError::Capture(_) => PipelineErrorKind::Capture,
            DictationPipelineError::InvalidCaptureRead { .. } => PipelineErrorKind::InvalidCaptureRead,
            DictationPipelineError::CaptureIntegrity { .. } => PipelineErrorKind::CaptureIntegrity,
            DictationPipelineError::EmptyUtterance => PipelineErrorKind::EmptyUtterance,
            DictationPipelineError::Processing(_) => PipelineErrorKind::Processing,
            DictationPipelineError::InvalidAsrAudio(_) => PipelineErrorKind::InvalidAsrAudio,
            DictationPipelineError::Recognition { .. } => PipelineErrorKind::Recognition,
        }
    }

    pub fn kind(&self) -> (kind: PipelineErrorKind)
        ensures
            kind == self.spec_kind(),
    {
        match self {
            DictationPipelineError::InvalidConfiguration(_) => PipelineErrorKind::InvalidConfiguration,
            DictationPipelineError::Capture(_) => PipelineErrorKind::Capture,
            DictationPipelineError::InvalidCaptureRead { .. } => PipelineErrorKind::InvalidCaptureRead,
            DictationPipelineError::CaptureIntegrity { .. } => PipelineErrorKind::CaptureIntegrity,
            DictationPipelineError::EmptyUtterance => PipelineErrorKind::EmptyUtterance,
            DictationPipelineError::Processing(_) => PipelineErrorKind::Processing,
            DictationPipelineError::InvalidAsrAudio(_) => PipelineErrorKind::InvalidAsrAudio,
            DictationPipelineError::Recognition { .. } => PipelineErrorKind::Recognition,
        }
    }
}

/// The number of samples in the worker's read buffer: `read_frames` frames of
/// the stream's channels. No frames, or a size that overflows, is refused.
pub fn scratch_sample_count(read_frames: usize, format: AudioFormat) -> (result: Result<
    usize,
    DictationPipelineError,
>)
    requires
        format.wf(),
    ensures
        match result {
            Ok(samples) => read_frames > 0 && samples == read_frames * format.spec_channels(),
            Err(e) => e == if read_frames == 0 {
                DictationPipelineError::InvalidConfiguration(
                    "capture worker read size must contain at least one frame",
                )
            } else {
                DictationPipelineError::InvalidConfiguration(
                    "capture worker scratch buffer size overflowed",
                )
            } && (read_frames == 0 || read_frames * format.spec_channels() > usize::MAX),
        },
{
    if read_frames == 0 {
        return Err(
            DictationPipelineError::InvalidConfiguration(
                "capture worker read size must contain at least one frame",
            ),
        );
    }
    match read_frames.checked_mul(format.channels() as usize) {
        Some(samples) => Ok(samples),
        None => Err(
            DictationPipelineError::InvalidConfiguration("capture worker scratch buffer size overflowed"),
        ),
    }
}

/// A read from the capture stream is accepted when it fits the read buffer
/// and holds whole frames.
pub fn check_capture_read(returned_samples: usize, scratch_capacity: usize, format: AudioFormat) -> (result:
    Result<(), DictationPipelineError>)
    requires
        format.wf(),
    ensures
        match result {
            Ok(()) => returned_samples <= scratch_capacity && returned_samples as int
                % format.spec_channels() as int == 0,
            Err(e) => (returned_samples > scratch_capacity || returned_samples as int
                % format.spec_channels() as int != 0) && e == DictationPipelineError::InvalidCaptureRead {
                returned_samples,
                scratch_capacity,
                channels: format.spec_channels(),
            },
        },
{
    let channels = format.channels();
    if returned_samples > scratch_capacity || returned_samples % (channels as usize) != 0 {
        return Err(
            DictationPipelineError::InvalidCaptureRead { returned_samples, scratch_capacity, channels },
        );
    }
    Ok(())
}

/// The running count of samples read, refused when it would overflow.
pub fn count_samples_read(total: usize, returned_samples: usize) -> (result: Result<
    usize,
    DictationPipelineError,
>)
    ensures
        match result {
            Ok(sum) => sum == total + returned_samples,
            Err(e) => total + returned_samples > usize::MAX && e
                == DictationPipelineError::InvalidConfiguration(
                "capture worker sample counter overflowed",
            ),
        },
{
    match total.checked_add(returned_samples) {
        Some(sum) => Ok(sum),
        None => Err(
            DictationPipelineError::InvalidConfiguration("capture worker sample counter overflowed"),
        ),
    }
}

/// What one drain of the capture stream reports: the samples and whole frames
/// read, the frames buffered so far, and the capture counters.
pub fn pump_report(
    samples_read: usize,
    format: AudioFormat,
    buffered_frames: usize,
    stats: CaptureStats,
) -> (report: PumpReport)
    requires
        format.wf(),
    ensures
        report == (PumpReport {
            samples_read,
            frames_read: (samples_read as int / format.spec_channels() as int) as usize,
            buffered_frames,
            stats,
        }),
{
    PumpReport {
        samples_read,
        frames_read: samples_read / (format.channels() as usize),
        buffered_frames,
        stats,
    }
}

/// A quiesced recording may go on to recognition only if no sample was
/// dropped, no capture callback failed, and it holds audio.
pub fn check_finalization(stats: CaptureStats, buffered_frames: usize) -> (result: Result<
    (),
    DictationPipelineError,
>)
    ensures
        match result {
            Ok(()) => stats.dropped_samples == 0 && stats.callback_errors == 0 && buffered_frames > 0,
            Err(e) => if stats.dropped_samples > 0 || stats.callback_errors > 0 {
                e == DictationPipelineError::CaptureIntegrity { stats }
            } else {
                buffered_frames == 0 && e == DictationPipelineError::EmptyUtterance
            },
        },
{
    if !stats.integrity_intact() {
        return Err(DictationPipelineError::CaptureIntegrity { stats });
    }
    if buffered_frames == 0 {
        return Err(DictationPipelineError::EmptyUtterance);
    }
    Ok(())
}

} // verus!
