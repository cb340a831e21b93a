//! The engine-agnostic speech-recognition boundary: formats, options and the
//! integer-level facts the adapters check.
use vstd::prelude::*;

use crate::text::{decimal, i64_to_decimal, is_blank, is_blank_str, signed_decimal, u64_to_decimal};

verus! {

/// Signal shape expected by a speech-recognition engine.
#[derive(Debug, Clone, Copy, PartialEq, Eq, Hash, Structural)]
pub struct AudioFormat {
    channels: u16,
    sample_rate_hz: u32,
}

#[derive(Debug, Clone, Copy, PartialEq, Eq, Structural)]
pub struct AudioFormatError;

impl AudioFormatError {
    /// The human-readable message of the error.
    pub fn message(self) -> (message: &'static str)
        ensures
            message@ == "ASR audio format must have non-zero channels and sample rate"@,
    {
        "ASR audio format must have non-zero channels and sample rate"
    }
}

impl AudioFormat {
    pub closed spec fn spec_channels(self) -> u16 {
        self.channels
    }

    pub closed spec fn spec_sample_rate_hz(self) -> u32 {
        self.sample_rate_hz
    }

    /// Every format has at least one channel and a non-zero rate.
    pub open spec fn wf(self) -> bool {
        self.spec_channels() > 0 && self.spec_sample_rate_hz() > 0
    }

    pub fn new(channels: u16, sample_rate_hz: u32) -> (result: Result<Self, AudioFormatError>)
        ensures
            match result {
                Ok(format) => channels > 0 && sample_rate_hz > 0 && format.spec_channels()
                    == channels && format.spec_sample_rate_hz() == sample_rate_hz && format.wf(),
                Err(_) => channels == 0 || sample_rate_hz == 0,
            },
    {
        if channels == 0 || sample_rate_hz == 0 {
            return Err(AudioFormatError);
        }
        Ok(AudioFormat { channels, sample_rate_hz })
    }

    pub fn channels(self) -> (channels: u16)
        ensures
            channels == self.spec_channels(),
    {
        self.channels
    }

    pub fn sample_rate_hz(self) -> (rate: u32)
        ensures
            rate == self.spec_sample_rate_hz(),
    {
        self.sample_rate_hz
    }
}

#[derive(Debug, Clone, Copy, PartialEq, Eq, Structural)]
pub enum AudioInputError {
    UnalignedSamples { channels: u16, samples: usize },
    NonFiniteSample { index: usize },
    OutOfRangeSample { index: usize },
}

impl AudioInputError {
    /// The text a user is shown for this error.
    pub open spec fn spec_message(self) -> Seq<char> {
        match self {
            AudioInputError::UnalignedSamples { channels, samples } => crate::text::decimal(
                samples as nat,
            ) + " samples do not form complete "@ + crate::text::decimal(channels as nat)
                + "-channel ASR frames"@,
            AudioInputError::NonFiniteSample { index } => "ASR sample at index "@
                + crate::text::decimal(index as nat) + " is not finite"@,
            AudioInputError::OutOfRangeSample { index } => "ASR sample at index "@
                + crate::text::decimal(index as nat) + " is outside the normalized [-1, 1] range"@,
        }
    }

    pub fn message(self) -> (message: String)
        ensures
            message@ == self.spec_message(),
    {
        match self {
            AudioInputError::UnalignedSamples { channels, samples } => {
                let mut message = crate::text::usize_to_decimal(samples);
                message.append(" samples do not form complete ");
                message.append(crate::text::usize_to_decimal(channels as usize).as_str());
                message.append("-channel ASR frames");
                message
            },
            AudioInputError::NonFiniteSample { index } => {
                let mut message = String::from_str("ASR sample at index ");
                message.append(crate::text::usize_to_decimal(index).as_str());
                message.append(" is not finite");
                message
            },
            AudioInputError::OutOfRangeSample { index } => {
                let mut message = String::from_str("ASR sample at index ");
                message.append(crate::text::usize_to_decimal(index).as_str());
                message.append(" is outside the normalized [-1, 1] range");
                message
            },
        }
    }
}

/// Interleaved ASR input must consist of complete frames.
pub fn check_frame_alignment(samples: usize, format: AudioFormat) -> (result: Result<
    usize,
    AudioInputError,
>)
    requires
        format.wf(),
    ensures
        match result {
            Ok(frames) => (samples as int) % (format.spec_channels() as int) == 0 && frames == (samples as int)
                / (format.spec_channels() as int),
            Err(e) => (samples as int) % (format.spec_channels() as int) != 0 && e
                == AudioInputError::UnalignedSamples {
                channels: format.spec_channels(),
                samples,
            },
        },
{
    let channels = format.channels() as usize;
    if samples % channels != 0 {
        return Err(AudioInputError::UnalignedSamples { channels: format.channels(), samples });
    }
    Ok(samples / channels)
}

#[derive(Debug, Clone, Copy, PartialEq, Eq, Structural)]
pub enum TimestampGranularity {
    NoTimestamps,
    Auto,
    Segment,
    Word,
    Token,
}

impl Default for TimestampGranularity {
    fn default() -> (granularity: Self)
        ensures
            granularity == TimestampGranularity::NoTimestamps,
    {
        TimestampGranularity::NoTimestamps
    }
}

#[derive(Debug, Clone, Copy, PartialEq, Eq, Structural)]
pub enum FeaturePreference {
    ModelDefault,
    Disabled,
    Enabled,
}

impl Default for FeaturePreference {
    fn default() -> (preference: Self)
        ensures
            preference == FeaturePreference::ModelDefault,
    {
        FeaturePreference::ModelDefault
    }
}

#[derive(Debug, Clone, PartialEq, Eq)]
pub enum RecognitionTask {
    Transcribe,
    Translate { target_language: String },
}

impl Default for RecognitionTask {
    fn default() -> (task: Self)
        ensures
            task is Transcribe,
    {
        RecognitionTask::Transcribe
    }
}

#[derive(Debug, Clone, PartialEq, Eq)]
pub struct RecognitionOptions {
    pub task: RecognitionTask,
    pub language_hint: Option<String>,
    pub timestamps: TimestampGranularity,
    pub punctuation: FeaturePreference,
    pub inverse_text_normalization: FeaturePreference,
}

impl Default for RecognitionOptions {
    /// Dictation defaults: plain transcription with no alignment work requested.
    fn default() -> (options: Self)
        ensures
            options.task is Transcribe,
            options.language_hint is None,
            options.timestamps == TimestampGranularity::NoTimestamps,
            options.punctuation == FeaturePreference::ModelDefault,
            options.inverse_text_normalization == FeaturePreference::ModelDefault,
    {
        RecognitionOptions {
            task: RecognitionTask::Transcribe,
            language_hint: None,
            timestamps: TimestampGranularity::NoTimestamps,
            punctuation: FeaturePreference::ModelDefault,
            inverse_text_normalization: FeaturePreference::ModelDefault,
        }
    }
}

/// Options are accepted by an engine when no language they name is blank.
pub open spec fn spec_options_valid(options: RecognitionOptions) -> bool {
    &&& (options.language_hint matches Some(hint) ==> !is_blank(hint@))
    &&& (options.task matches RecognitionTask::Translate { target_language } ==> !is_blank(
        target_language@,
    ))
}

/// Rejects options naming a blank language before any engine sees them.
pub fn validate_recognition_options(options: &RecognitionOptions) -> (result: Result<
    (),
    (RecognitionErrorKind, &'static str),
>)
    ensures
        match result {
            Ok(()) => spec_options_valid(*options),
            Err((kind, message)) => {
                &&& !spec_options_valid(*options)
                &&& kind == RecognitionErrorKind::InvalidRequest
                &&& message@ == (if options.language_hint matches Some(hint) && is_blank(hint@) {
                    "language hint cannot be empty"@
                } else {
                    "translation target language cannot be empty"@
                })
            },
        },
{
    if let Some(hint) = &options.language_hint {
        if is_blank_str(hint.as_str()) {
            return Err((RecognitionErrorKind::InvalidRequest, "language hint cannot be empty"));
        }
    }
    if let RecognitionTask::Translate { target_language } = &options.task {
        if is_blank_str(target_language.as_str()) {
            return Err(
                (
                    RecognitionErrorKind::InvalidRequest,
                    "translation target language cannot be empty",
                ),
            );
        }
    }
    Ok(())
}

#[derive(Debug, Clone, PartialEq, Eq)]
pub struct RecognizerCapabilities {
    pub required_audio_format: AudioFormat,
    pub languages: Vec<String>,
    pub translation_targets: Vec<String>,
    pub max_timestamp_granularity: TimestampGranularity,
    pub supports_language_detection: bool,
    pub supports_translation: bool,
    pub supports_streaming: bool,
    pub supports_cancellation: bool,
    pub supports_punctuation_control: bool,
    pub supports_inverse_text_normalization_control: bool,
    pub max_audio_ms: Option<u64>,
}

#[derive(Debug, Clone, PartialEq, Eq)]
pub struct TranscriptSegment {
    pub start_ms: i64,
    pub end_ms: i64,
    pub text: String,
    pub speaker_id: Option<u32>,
}

#[derive(Debug, Clone, PartialEq, Eq)]
pub struct TranscriptWord {
    pub start_ms: i64,
    pub end_ms: i64,
    pub text: String,
}

#[derive(Debug, Clone, Copy, PartialEq, Eq, Structural)]
pub enum RecognitionErrorKind {
    InvalidAudio,
    InvalidRequest,
    ModelNotFound,
    ModelLoad,
    BackendUnavailable,
    Unsupported,
    ResourceExhausted,
    InputTooLong,
    Cancelled,
    Busy,
    OutputTruncated,
    Internal,
}

/// Accelerator selection for the transcribe.cpp engine.
#[derive(Debug, Clone, Copy, PartialEq, Eq, Structural)]
pub enum TranscribeBackend {
    Auto,
    Cpu,
    CpuAccelerated,
    Metal,
    Vulkan,
    Cuda,
    Rocm,
}

impl Default for TranscribeBackend {
    fn default() -> (backend: Self)
        ensures
            backend == TranscribeBackend::Auto,
    {
        TranscribeBackend::Auto
    }
}

#[derive(Debug, Clone, Copy, PartialEq, Eq, Structural)]
pub struct TranscribeRecognizerConfig {
    pub backend: TranscribeBackend,
    /// Native worker thread count. Zero delegates to transcribe.cpp's default.
    pub n_threads: i32,
}

impl Default for TranscribeRecognizerConfig {
    fn default() -> (config: Self)
        ensures
            config.backend == TranscribeBackend::Auto,
            config.n_threads == 0,
    {
        TranscribeRecognizerConfig { backend: TranscribeBackend::Auto, n_threads: 0 }
    }
}

impl TranscribeRecognizerConfig {
    /// A negative thread count is an invalid request.
    pub fn validate(&self) -> (result: Result<(), (RecognitionErrorKind, &'static str)>)
        ensures
            match result {
                Ok(()) => self.n_threads >= 0,
                Err((kind, message)) => self.n_threads < 0 && kind == RecognitionErrorKind::InvalidRequest
                    && message@ == "transcribe.cpp thread count cannot be negative"@,
            },
    {
        if self.n_threads < 0 {
            Err((RecognitionErrorKind::InvalidRequest, "transcribe.cpp thread count cannot be negative"))
        } else {
            Ok(())
        }
    }
}

/// A positive engine value, with zero and negative sentinels meaning "absent".
pub fn positive_u32(value: i32) -> (result: Option<u32>)
    ensures
        match result {
            Some(v) => value > 0 && v == value,
            None => value <= 0,
        },
{
    if value > 0 {
        Some(value as u32)
    } else {
        None
    }
}

/// A positive engine limit, with zero and negative sentinels meaning "absent".
pub fn positive_u64(value: i64) -> (result: Option<u64>)
    ensures
        match result {
            Some(v) => value > 0 && v == value,
            None => value <= 0,
        },
{
    if value > 0 {
        Some(value as u64)
    } else {
        None
    }
}

/// The identifier a loaded model is reported under: its architecture and
/// variant joined by a colon, either one alone when the other is empty, and
/// the model file's name when both are.
pub open spec fn spec_model_identifier(arch: Seq<char>, variant: Seq<char>, file_name: Seq<char>) -> Seq<
    char,
> {
    if arch.len() > 0 && variant.len() > 0 {
        arch + ":"@ + variant
    } else if arch.len() > 0 {
        arch
    } else if variant.len() > 0 {
        variant
    } else {
        file_name
    }
}

pub fn model_identifier(arch: &str, variant: &str, file_name: &str) -> (id: String)
    ensures
        id@ == spec_model_identifier(arch@, variant@, file_name@),
{
    if !arch.is_empty() && !variant.is_empty() {
        let mut id = String::from_str(arch);
        id.append(":");
        id.append(variant);
        id
    } else if !arch.is_empty() {
        String::from_str(arch)
    } else if !variant.is_empty() {
        String::from_str(variant)
    } else {
        String::from_str(file_name)
    }
}

/// The mono format a loaded model requires, from the sample rate the engine
/// reports for it: a negative rate is invalid and a zero rate is refused.
pub fn model_audio_format(native_sample_rate: i32) -> (result: Result<
    AudioFormat,
    (RecognitionErrorKind, String),
>)
    ensures
        match result {
            Ok(format) => native_sample_rate > 0 && format.spec_channels() == 1
                && format.spec_sample_rate_hz() == native_sample_rate && format.wf(),
            Err((kind, message)) => {
                &&& kind == RecognitionErrorKind::ModelLoad
                &&& native_sample_rate <= 0
                &&& message@ == if native_sample_rate < 0 {
                    "transcribe.cpp model reported invalid native sample rate "@ + signed_decimal(
                        native_sample_rate as int,
                    )
                } else {
                    "transcribe.cpp model reported a zero native sample rate"@
                }
            },
        },
{
    if native_sample_rate < 0 {
        let mut message = String::from_str("transcribe.cpp model reported invalid native sample rate ");
        let rate = i64_to_decimal(native_sample_rate as i64);
        message.append(rate.as_str());
        return Err((RecognitionErrorKind::ModelLoad, message));
    }
    if native_sample_rate == 0 {
        return Err(
            (
                RecognitionErrorKind::ModelLoad,
                String::from_str("transcribe.cpp model reported a zero native sample rate"),
            ),
        );
    }
    Ok(AudioFormat { channels: 1, sample_rate_hz: native_sample_rate as u32 })
}

/// The message of a transcription request whose audio has the wrong shape.
pub open spec fn spec_format_mismatch_message(required: AudioFormat, received: AudioFormat) -> Seq<
    char,
> {
    "transcribe.cpp requires "@ + decimal(required.spec_sample_rate_hz() as nat) + " Hz "@
        + decimal(required.spec_channels() as nat) + "-channel audio, received "@ + decimal(
        received.spec_sample_rate_hz() as nat,
    ) + " Hz "@ + decimal(received.spec_channels() as nat) + "-channel audio"@
}

/// The checks made before audio reaches the engine: it must not be empty and
/// must have exactly the format the model requires.
pub fn check_transcription_input(
    input_samples: usize,
    input_format: AudioFormat,
    required: AudioFormat,
) -> (result: Result<(), (RecognitionErrorKind, String)>)
    ensures
        match result {
            Ok(()) => input_samples > 0 && input_format == required,
            Err((kind, message)) => {
                &&& kind == RecognitionErrorKind::InvalidAudio
                &&& if input_samples == 0 {
                    message@ == "cannot transcribe an empty audio buffer"@
                } else {
                    input_format != required && message@ == spec_format_mismatch_message(
                        required,
                        input_format,
                    )
                }
            },
        },
{
    if input_samples == 0 {
        return Err(
            (
                RecognitionErrorKind::InvalidAudio,
                String::from_str("cannot transcribe an empty audio buffer"),
            ),
        );
    }
    if input_format.channels != required.channels || input_format.sample_rate_hz
        != required.sample_rate_hz {
        let mut message = String::from_str("transcribe.cpp requires ");
        message.append(u64_to_decimal(required.sample_rate_hz as u64).as_str());
        message.append(" Hz ");
        message.append(u64_to_decimal(required.channels as u64).as_str());
        message.append("-channel audio, received ");
        message.append(u64_to_decimal(input_format.sample_rate_hz as u64).as_str());
        message.append(" Hz ");
        message.append(u64_to_decimal(input_format.channels as u64).as_str());
        message.append("-channel audio");
        return Err((RecognitionErrorKind::InvalidAudio, message));
    }
    Ok(())
}

/// The failures the speech engine reports, by the variant of its error.
#[derive(Debug, Clone, Copy, PartialEq, Eq, Structural)]
pub enum EngineFailure {
    InvalidArgument,
    /// A string handed to the engine held an interior NUL.
    Nul,
    NotImplemented,
    Unsupported,
    ModelFileNotFound,
    ModelLoad,
    OutOfMemory,
    Backend,
    InputTooLong,
    Aborted,
    OutputTruncated,
    Busy,
    BadStructSize,
    VersionMismatch,
    /// Any failure the adapter does not name.
    Other,
}

/// The recognition error kind an engine failure is reported as.
pub open spec fn spec_engine_failure_kind(failure: EngineFailure) -> RecognitionErrorKind {
    match failure {
        EngineFailure::InvalidArgument | EngineFailure::Nul => RecognitionErrorKind::InvalidRequest,
        EngineFailure::NotImplemented | EngineFailure::Unsupported => RecognitionErrorKind::Unsupported,
        EngineFailure::ModelFileNotFound => RecognitionErrorKind::ModelNotFound,
        EngineFailure::ModelLoad => RecognitionErrorKind::ModelLoad,
        EngineFailure::OutOfMemory => RecognitionErrorKind::ResourceExhausted,
        EngineFailure::Backend => RecognitionErrorKind::BackendUnavailable,
        EngineFailure::InputTooLong => RecognitionErrorKind::InputTooLong,
        EngineFailure::Aborted => RecognitionErrorKind::Cancelled,
        EngineFailure::OutputTruncated => RecognitionErrorKind::OutputTruncated,
        EngineFailure::Busy => RecognitionErrorKind::Busy,
        EngineFailure::BadStructSize | EngineFailure::VersionMismatch | EngineFailure::Other =>
            RecognitionErrorKind::Internal,
    }
}

pub fn engine_failure_kind(failure: EngineFailure) -> (kind: RecognitionErrorKind)
    ensures
        kind == spec_engine_failure_kind(failure),
{
    match failure {
        EngineFailure::InvalidArgument | EngineFailure::Nul => RecognitionErrorKind::InvalidRequest,
        EngineFailure::NotImplemented | EngineFailure::Unsupported => RecognitionErrorKind::Unsupported,
        EngineFailure::ModelFileNotFound => RecognitionErrorKind::ModelNotFound,
        EngineFailure::ModelLoad => RecognitionErrorKind::ModelLoad,
        EngineFailure::OutOfMemory => RecognitionErrorKind::ResourceExhausted,
        EngineFailure::Backend => RecognitionErrorKind::BackendUnavailable,
        EngineFailure::InputTooLong => RecognitionErrorKind::InputTooLong,
        EngineFailure::Aborted => RecognitionErrorKind::Cancelled,
        EngineFailure::OutputTruncated => RecognitionErrorKind::OutputTruncated,
        EngineFailure::Busy => RecognitionErrorKind::Busy,
        EngineFailure::BadStructSize | EngineFailure::VersionMismatch | EngineFailure::Other => {
            RecognitionErrorKind::Internal
        },
    }
}

/// Only a cancelled or truncated decode keeps the transcript produced so far.
pub fn engine_failure_keeps_partial(failure: EngineFailure) -> (keeps: bool)
    ensures
        keeps == (failure == EngineFailure::Aborted || failure == EngineFailure::OutputTruncated),
{
    match failure {
        EngineFailure::Aborted | EngineFailure::OutputTruncated => true,
        _ => false,
    }
}

} // verus!
