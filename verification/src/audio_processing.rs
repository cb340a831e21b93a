//! Signal shapes and the integer bookkeeping of audio preprocessing: channel
//! conversions that are allowed, utterance frame limits and frame alignment.
use vstd::prelude::*;

use crate::audio::AudioStreamConfig;
use crate::text::{decimal, usize_to_decimal};

verus! {

pub const DEFAULT_CHUNK_FRAMES: usize = 1024;

/// Channel/rate shape of an interleaved PCM signal.
#[derive(Debug, Clone, Copy, PartialEq, Eq, Hash, Structural)]
pub struct AudioFormat {
    channels: u16,
    sample_rate_hz: u32,
}

#[derive(Debug, Clone, PartialEq, Eq)]
pub enum ProcessingError {
    InvalidFormat,
    InvalidChunkSize,
    InvalidUtteranceLimit,
    UnsupportedChannelConversion { source: u16, target: u16 },
    InvalidInputLength { expected: usize, actual: usize },
    UnalignedInput { channels: u16, samples: usize },
    UtteranceTooLong { max_frames: usize, attempted_frames: usize },
    OutputTooSmall { required: usize, actual: usize },
    BufferSizeOverflow,
    ResourceExhausted,
    Adapter(String),
    ResamplerConstruction(String),
    Resampling(String),
}

impl ProcessingError {
    /// The text a user is shown for this error.
    pub open spec fn spec_message(&self) -> Seq<char> {
        match *self {
            ProcessingError::InvalidFormat => "audio format must have non-zero channels and sample rate"@,
            ProcessingError::InvalidChunkSize => "audio preprocessing chunk size must be non-zero"@,
            ProcessingError::InvalidUtteranceLimit => "utterance limit must allow at least one source frame"@,
            ProcessingError::UnsupportedChannelConversion { source, target } =>
                "unsupported channel conversion from "@ + decimal(source as nat) + " channels to "@
                + decimal(target as nat) + " channels"@,
            ProcessingError::InvalidInputLength { expected, actual } => "audio preprocessing expected "@
                + decimal(expected as nat) + " input samples but received "@ + decimal(actual as nat),
            ProcessingError::UnalignedInput { channels, samples } => decimal(samples as nat)
                + " interleaved samples do not form complete "@ + decimal(channels as nat)
                + "-channel frames"@,
            ProcessingError::UtteranceTooLong { max_frames, attempted_frames } =>
                "utterance would contain "@ + decimal(attempted_frames as nat)
                + " frames, exceeding the configured "@ + decimal(max_frames as nat)
                + "-frame limit"@,
            ProcessingError::OutputTooSmall { required, actual } =>
                "audio preprocessing requires at least "@ + decimal(required as nat)
                + " output samples but received "@ + decimal(actual as nat),
            ProcessingError::BufferSizeOverflow => "audio buffer size overflow"@,
            ProcessingError::ResourceExhausted => "audio preprocessing could not reserve required memory"@,
            ProcessingError::Adapter(m) => "audio buffer adapter failed: "@ + m@,
            ProcessingError::ResamplerConstruction(m) => "audio resampler construction failed: "@ + m@,
            ProcessingError::Resampling(m) => "audio resampling failed: "@ + m@,
        }
    }

    pub fn message(&self) -> (message: String)
        ensures
            message@ == self.spec_message(),
    {
        match self {
            ProcessingError::InvalidFormat => String::from_str(
                "audio format must have non-zero channels and sample rate",
            ),
            ProcessingError::InvalidChunkSize => String::from_str(
                "audio preprocessing chunk size must be non-zero",
            ),
            ProcessingError::InvalidUtteranceLimit => String::from_str(
                "utterance limit must allow at least one source frame",
            ),
            ProcessingError::UnsupportedChannelConversion { source, target } => {
                let mut message = String::from_str("unsupported channel conversion from ");
                message.append(usize_to_decimal(*source as usize).as_str());
                message.append(" channels to ");
                message.append(usize_to_decimal(*target as usize).as_str());
                message.append(" channels");
                message
            },
            ProcessingError::InvalidInputLength { expected, actual } => {
                let mut message = String::from_str("audio preprocessing expected ");
                message.append(usize_to_decimal(*expected).as_str());
                message.append(" input samples but received ");
                message.append(usize_to_decimal(*actual).as_str());
                message
            },
            ProcessingError::UnalignedInput { channels, samples } => {
                let mut message = usize_to_decimal(*samples);
                message.append(" interleaved samples do not form complete ");
                message.append(usize_to_decimal(*channels as usize).as_str());
                message.append("-channel frames");
                message
            },
            ProcessingError::UtteranceTooLong { max_frames, attempted_frames } => {
                let mut message = String::from_str("utterance would contain ");
                message.append(usize_to_decimal(*attempted_frames).as_str());
                message.append(" frames, exceeding the configured ");
                message.append(usize_to_decimal(*max_frames).as_str());
                message.append("-frame limit");
                message
            },
            ProcessingError::OutputTooSmall { required, actual } => {
                let mut message = String::from_str("audio preprocessing requires at least ");
                message.append(usize_to_decimal(*required).as_str());
                message.append(" output samples but received ");
                message.append(usize_to_decimal(*actual).as_str());
                message
            },
            ProcessingError::BufferSizeOverflow => String::from_str("audio buffer size overflow"),
            ProcessingError::ResourceExhausted => String::from_str(
                "audio preprocessing could not reserve required memory",
            ),
            ProcessingError::Adapter(m) => {
                let mut message = String::from_str("audio buffer adapter failed: ");
                message.append(m.as_str());
                message
            },
            ProcessingError::ResamplerConstruction(m) => {
                let mut message = String::from_str("audio resampler construction failed: ");
                message.append(m.as_str());
                message
            },
            ProcessingError::Resampling(m) => {
                let mut message = String::from_str("audio resampling failed: ");
                message.append(m.as_str());
                message
            },
        }
    }
}

impl AudioFormat {
    pub closed spec fn spec_channels(self) -> u16 {
        self.channels
    }

    pub closed spec fn spec_sample_rate_hz(self) -> u32 {
        self.sample_rate_hz
    }

    /// Every format has at least one channel and a non-zero rate.
    pub open spec fn wf(self) -> bool {
        self.spec_channels() > 0 && self.spec_sample_rate_hz() > 0
    }

    pub fn new(channels: u16, sample_rate_hz: u32) -> (result: Result<Self, ProcessingError>)
        ensures
            match result {
                Ok(format) => channels > 0 && sample_rate_hz > 0 && format.spec_channels()
                    == channels && format.spec_sample_rate_hz() == sample_rate_hz && format.wf(),
                Err(e) => (channels == 0 || sample_rate_hz == 0) && e
                    == ProcessingError::InvalidFormat,
            },
    {
        if channels == 0 || sample_rate_hz == 0 {
            return Err(ProcessingError::InvalidFormat);
        }
        Ok(AudioFormat { channels, sample_rate_hz })
    }

    /// The processing shape of a device's native stream configuration.
    pub fn from_stream_config(config: &AudioStreamConfig) -> (result: Result<Self, ProcessingError>)
        ensures
            match result {
                Ok(format) => config.channels > 0 && config.sample_rate_hz > 0
                    && format.spec_channels() == config.channels && format.spec_sample_rate_hz()
                    == config.sample_rate_hz,
                Err(e) => (config.channels == 0 || config.sample_rate_hz == 0) && e
                    == ProcessingError::InvalidFormat,
            },
    {
        AudioFormat::new(config.channels, config.sample_rate_hz)
    }

    pub fn channels(self) -> (channels: u16)
        ensures
            channels == self.spec_channels(),
    {
        self.channels
    }

    pub fn sample_rate_hz(self) -> (rate: u32)
        ensures
            rate == self.spec_sample_rate_hz(),
    {
        self.sample_rate_hz
    }
}

#[derive(Debug, Clone, Copy, PartialEq, Eq, Structural)]
pub struct ProcessReport {
    pub input_frames: usize,
    pub output_frames: usize,
}

/// Channel conversions preprocessing performs: identity, or a downmix to mono.
/// Upmixing would invent a policy and is refused.
pub fn validate_channel_conversion(source: u16, target: u16) -> (result: Result<(), ProcessingError>)
    ensures
        match result {
            Ok(()) => source == target || target == 1,
            Err(e) => source != target && target != 1 && e
                == ProcessingError::UnsupportedChannelConversion { source, target },
        },
{
    if source == target || target == 1 {
        Ok(())
    } else {
        Err(ProcessingError::UnsupportedChannelConversion { source, target })
    }
}

/// Number of source frames an utterance of `max_duration_ms` may hold: the
/// duration in frames, rounded up.
pub open spec fn spec_utterance_frames(sample_rate_hz: u32, max_duration_ms: u32) -> int {
    (sample_rate_hz as int * max_duration_ms as int + 999) / 1000
}

/// The frame limit of an utterance buffer bounded by a duration.
pub fn utterance_frame_limit(format: AudioFormat, max_duration_ms: u32) -> (result: Result<
    usize,
    ProcessingError,
>)
    requires
        format.wf(),
    ensures
        match result {
            Ok(frames) => max_duration_ms > 0 && frames == spec_utterance_frames(
                format.spec_sample_rate_hz(),
                max_duration_ms,
            ) && frames > 0,
            Err(e) => (max_duration_ms == 0 && e == ProcessingError::InvalidUtteranceLimit) || (
            max_duration_ms > 0 && e == ProcessingError::BufferSizeOverflow
                && spec_utterance_frames(format.spec_sample_rate_hz(), max_duration_ms)
                > usize::MAX),
        },
{
    if max_duration_ms == 0 {
        return Err(ProcessingError::InvalidUtteranceLimit);
    }
    let rate = format.sample_rate_hz() as u64;
    let ms = max_duration_ms as u64;
    assert(rate * ms <= 0xFFFF_FFFF * 0xFFFF_FFFF) by (nonlinear_arith)
        requires
            rate <= 0xFFFF_FFFF,
            ms <= 0xFFFF_FFFF,
    ;
    assert(rate * ms >= 1) by (nonlinear_arith)
        requires
            rate >= 1,
            ms >= 1,
    ;
    let product = rate * ms;
    let frames = (product + 999) / 1000;
    if frames > usize::MAX as u64 {
        return Err(ProcessingError::BufferSizeOverflow);
    }
    Ok(frames as usize)
}

/// Whether `samples` interleaved samples form complete frames of `format`.
pub open spec fn spec_aligned(samples: usize, format: AudioFormat) -> bool {
    (samples as int) % (format.spec_channels() as int) == 0
}

/// The number of complete frames in `samples` interleaved samples.
pub open spec fn spec_frames(samples: usize, format: AudioFormat) -> int {
    (samples as int) / (format.spec_channels() as int)
}

/// Whether appending `incoming_samples` interleaved samples to an utterance
/// that already holds `buffered_frames` frames is allowed, and the frame count
/// after the append.
pub fn utterance_append_frames(
    format: AudioFormat,
    max_frames: usize,
    buffered_frames: usize,
    incoming_samples: usize,
) -> (result: Result<usize, ProcessingError>)
    requires
        format.wf(),
    ensures
        match result {
            Ok(frames) => spec_aligned(incoming_samples, format) && frames == buffered_frames
                + spec_frames(incoming_samples, format) && frames <= max_frames,
            Err(ProcessingError::UnalignedInput { channels, samples }) => !spec_aligned(
                incoming_samples,
                format,
            ) && channels == format.spec_channels() && samples == incoming_samples,
            Err(ProcessingError::UtteranceTooLong { max_frames: limit, attempted_frames }) =>
                spec_aligned(incoming_samples, format) && limit == max_frames && attempted_frames
                == buffered_frames + spec_frames(incoming_samples, format) && attempted_frames
                > max_frames,
            Err(ProcessingError::BufferSizeOverflow) => spec_aligned(incoming_samples, format)
                && buffered_frames + spec_frames(incoming_samples, format) > usize::MAX,
            Err(_) => false,
        },
{
    let channels = format.channels() as usize;
    if incoming_samples % channels != 0 {
        return Err(
            ProcessingError::UnalignedInput { channels: format.channels(), samples: incoming_samples },
        );
    }
    let incoming_frames = incoming_samples / channels;
    let attempted = match buffered_frames.checked_add(incoming_frames) {
        Some(total) => total,
        None => {
            return Err(ProcessingError::BufferSizeOverflow);
        },
    };
    if attempted > max_frames {
        return Err(
            ProcessingError::UtteranceTooLong { max_frames, attempted_frames: attempted },
        );
    }
    Ok(attempted)
}

/// The checks made before a resampler is built: a non-zero chunk size, then a
/// channel conversion that preprocessing performs.
pub fn check_preprocessor_request(source: AudioFormat, target: AudioFormat, chunk_frames: usize) -> (result:
    Result<(), ProcessingError>)
    ensures
        match result {
            Ok(()) => chunk_frames > 0 && (source.spec_channels() == target.spec_channels()
                || target.spec_channels() == 1),
            Err(e) => if chunk_frames == 0 {
                e == ProcessingError::InvalidChunkSize
            } else {
                source.spec_channels() != target.spec_channels() && target.spec_channels() != 1
                    && e == ProcessingError::UnsupportedChannelConversion {
                    source: source.spec_channels(),
                    target: target.spec_channels(),
                }
            },
        },
{
    if chunk_frames == 0 {
        return Err(ProcessingError::InvalidChunkSize);
    }
    validate_channel_conversion(source.channels(), target.channels())
}

/// The integer shape of a preprocessing stage: its two formats, the frames it
/// takes per block and the most frames one block can produce.
#[derive(Debug, Clone, Copy, PartialEq, Eq, Structural)]
pub struct PreprocessorShape {
    source: AudioFormat,
    target: AudioFormat,
    input_frames_per_block: usize,
    max_output_frames: usize,
}

impl PreprocessorShape {
    pub closed spec fn spec_source(self) -> AudioFormat {
        self.source
    }

    pub closed spec fn spec_target(self) -> AudioFormat {
        self.target
    }

    pub closed spec fn spec_input_frames_per_block(self) -> usize {
        self.input_frames_per_block
    }

    pub closed spec fn spec_max_output_frames(self) -> usize {
        self.max_output_frames
    }

    /// Both formats are valid, the conversion between them is one that
    /// preprocessing performs, and one normalized block fits in memory.
    pub open spec fn wf(self) -> bool {
        &&& self.spec_source().wf()
        &&& self.spec_target().wf()
        &&& (self.spec_source().spec_channels() == self.spec_target().spec_channels()
            || self.spec_target().spec_channels() == 1)
        &&& self.spec_input_frames_per_block() as int * self.spec_target().spec_channels() as int
            <= usize::MAX
    }

    /// The shape of a stage converting `source` to `target`. Without a
    /// resampler (`resampler_blocks` is `None`, equal rates) a block is
    /// `chunk_frames` frames in and out; with one, its `(input frames per block,
    /// most output frames per block)` are taken as they are.
    pub fn new(
        source: AudioFormat,
        target: AudioFormat,
        chunk_frames: usize,
        resampler_blocks: Option<(usize, usize)>,
    ) -> (result: Result<Self, ProcessingError>)
        requires
            source.wf(),
            target.wf(),
        ensures
            match result {
                Ok(shape) => {
                    &&& chunk_frames > 0
                    &&& shape.wf()
                    &&& shape.spec_source() == source
                    &&& shape.spec_target() == target
                    &&& shape.spec_input_frames_per_block() == match resampler_blocks {
                        Some(blocks) => blocks.0,
                        None => chunk_frames,
                    }
                    &&& shape.spec_max_output_frames() == match resampler_blocks {
                        Some(blocks) => blocks.1,
                        None => chunk_frames,
                    }
                },
                Err(e) => if chunk_frames == 0 {
                    e == ProcessingError::InvalidChunkSize
                } else if source.spec_channels() != target.spec_channels()
                    && target.spec_channels() != 1 {
                    e == ProcessingError::UnsupportedChannelConversion {
                        source: source.spec_channels(),
                        target: target.spec_channels(),
                    }
                } else {
                    &&& e == ProcessingError::BufferSizeOverflow
                    &&& match resampler_blocks {
                        Some(blocks) => blocks.0 as int,
                        None => chunk_frames as int,
                    } * target.spec_channels() as int > usize::MAX
                },
            },
    {
        match check_preprocessor_request(source, target, chunk_frames) {
            Ok(()) => {},
            Err(e) => {
                return Err(e);
            },
        }
        let input_frames_per_block = match resampler_blocks {
            Some(blocks) => blocks.0,
            None => chunk_frames,
        };
        let max_output_frames = match resampler_blocks {
            Some(blocks) => blocks.1,
            None => input_frames_per_block,
        };
        match input_frames_per_block.checked_mul(target.channels() as usize) {
            Some(_) => {},
            None => {
                return Err(ProcessingError::BufferSizeOverflow);
            },
        }
        Ok(PreprocessorShape { source, target, input_frames_per_block, max_output_frames })
    }

    pub fn source_format(&self) -> (format: AudioFormat)
        ensures
            format == self.spec_source(),
    {
        self.source
    }

    pub fn target_format(&self) -> (format: AudioFormat)
        ensures
            format == self.spec_target(),
    {
        self.target
    }

    pub fn input_frames_per_block(&self) -> (frames: usize)
        ensures
            frames == self.spec_input_frames_per_block(),
    {
        self.input_frames_per_block
    }

    pub fn max_output_frames(&self) -> (frames: usize)
        ensures
            frames == self.spec_max_output_frames(),
    {
        self.max_output_frames
    }

    /// Samples in one block once it is normalized to the target channels.
    pub fn normalized_block_samples(&self) -> (samples: usize)
        requires
            self.wf(),
        ensures
            samples == self.spec_input_frames_per_block() * self.spec_target().spec_channels(),
    {
        self.input_frames_per_block * self.target.channels() as usize
    }

    /// Interleaved source samples one block takes.
    pub fn required_input_samples(&self) -> (samples: usize)
        requires
            self.spec_input_frames_per_block() as int * self.spec_source().spec_channels() as int
                <= usize::MAX,
        ensures
            samples == self.spec_input_frames_per_block() * self.spec_source().spec_channels(),
    {
        self.input_frames_per_block * self.source.channels() as usize
    }

    /// Interleaved target samples one block can produce at most.
    pub fn max_output_samples(&self) -> (samples: usize)
        requires
            self.spec_max_output_frames() as int * self.spec_target().spec_channels() as int
                <= usize::MAX,
        ensures
            samples == self.spec_max_output_frames() * self.spec_target().spec_channels(),
    {
        self.max_output_frames * self.target.channels() as usize
    }

    /// The length checks of one streaming block: the input must be exactly one
    /// block, then the output must hold the largest block the stage produces.
    pub fn check_block(&self, input_samples: usize, output_samples: usize) -> (result: Result<
        (),
        ProcessingError,
    >)
        requires
            self.spec_input_frames_per_block() as int * self.spec_source().spec_channels() as int
                <= usize::MAX,
            self.spec_max_output_frames() as int * self.spec_target().spec_channels() as int
                <= usize::MAX,
        ensures
            ({
                let required_input = self.spec_input_frames_per_block()
                    * self.spec_source().spec_channels();
                let required_output = self.spec_max_output_frames()
                    * self.spec_target().spec_channels();
                match result {
                    Ok(()) => input_samples == required_input && output_samples >= required_output,
                    Err(e) => if input_samples != required_input {
                        e == ProcessingError::InvalidInputLength {
                            expected: required_input as usize,
                            actual: input_samples,
                        }
                    } else {
                        output_samples < required_output && e == ProcessingError::OutputTooSmall {
                            required: required_output as usize,
                            actual: output_samples,
                        }
                    },
                }
            }),
    {
        let required_input = self.required_input_samples();
        if input_samples != required_input {
            return Err(
                ProcessingError::InvalidInputLength { expected: required_input, actual: input_samples },
            );
        }
        let required_output = self.max_output_samples();
        if output_samples < required_output {
            return Err(
                ProcessingError::OutputTooSmall { required: required_output, actual: output_samples },
            );
        }
        Ok(())
    }

    /// The frames of a completed utterance of `input_samples` interleaved
    /// source samples, checked to be whole frames whose normalized samples fit
    /// in memory.
    pub fn utterance_frames(&self, input_samples: usize) -> (result: Result<usize, ProcessingError>)
        requires
            self.wf(),
        ensures
            match result {
                Ok(frames) => {
                    &&& spec_aligned(input_samples, self.spec_source())
                    &&& frames == spec_frames(input_samples, self.spec_source())
                    &&& frames as int * self.spec_target().spec_channels() as int <= usize::MAX
                },
                Err(e) => if !spec_aligned(input_samples, self.spec_source()) {
                    e == ProcessingError::UnalignedInput {
                        channels: self.spec_source().spec_channels(),
                        samples: input_samples,
                    }
                } else {
                    &&& e == ProcessingError::BufferSizeOverflow
                    &&& spec_frames(input_samples, self.spec_source())
                        * self.spec_target().spec_channels() as int > usize::MAX
                },
            },
    {
        let channels = self.source.channels() as usize;
        if input_samples % channels != 0 {
            return Err(
                ProcessingError::UnalignedInput {
                    channels: self.source.channels(),
                    samples: input_samples,
                },
            );
        }
        let frames = input_samples / channels;
        match frames.checked_mul(self.target.channels() as usize) {
            Some(_) => Ok(frames),
            None => Err(ProcessingError::BufferSizeOverflow),
        }
    }
}

/// Interleaved samples in `frames` frames of `channels` channels, or
/// `BufferSizeOverflow` where that count does not fit in memory.
pub fn frames_to_samples(frames: usize, channels: usize) -> (result: Result<usize, ProcessingError>)
    ensures
        match result {
            Ok(samples) => samples == frames * channels,
            Err(e) => e == ProcessingError::BufferSizeOverflow && frames * channels > usize::MAX,
        },
{
    match frames.checked_mul(channels) {
        Some(samples) => Ok(samples),
        None => Err(ProcessingError::BufferSizeOverflow),
    }
}

/// How a whole utterance is resampled: the resampler's startup delay, the
/// frames the utterance yields at the target rate, the raw frames the
/// resampler must produce to cover both, and the output storage reserved.
#[derive(Debug, Clone, Copy, PartialEq, Eq, Structural)]
pub struct ResamplePlan {
    pub delay_frames: usize,
    pub expected_output_frames: usize,
    pub required_raw_frames: usize,
    pub capacity_frames: usize,
    pub capacity_samples: usize,
}

/// Plans the output of one whole-utterance resampling. `needed_output_frames`
/// is what the resampler reports it needs for the whole input; the storage
/// covers that and the delayed exact output, whichever is larger.
pub fn plan_resampled_output(
    delay_frames: usize,
    expected_output_frames: usize,
    needed_output_frames: usize,
    channels: usize,
) -> (result: Result<ResamplePlan, ProcessingError>)
    ensures
        match result {
            Ok(plan) => {
                &&& plan.delay_frames == delay_frames
                &&& plan.expected_output_frames == expected_output_frames
                &&& plan.required_raw_frames == delay_frames + expected_output_frames
                &&& plan.capacity_frames == if needed_output_frames >= plan.required_raw_frames {
                    needed_output_frames
                } else {
                    plan.required_raw_frames
                }
                &&& plan.capacity_samples == plan.capacity_frames * channels
            },
            Err(e) => {
                &&& e == ProcessingError::BufferSizeOverflow
                &&& delay_frames + expected_output_frames > usize::MAX || {
                    let raw = delay_frames + expected_output_frames;
                    let capacity = if needed_output_frames >= raw {
                        needed_output_frames as int
                    } else {
                        raw
                    };
                    capacity * channels > usize::MAX
                }
            },
        },
{
    let required_raw_frames = match delay_frames.checked_add(expected_output_frames) {
        Some(frames) => frames,
        None => {
            return Err(ProcessingError::BufferSizeOverflow);
        },
    };
    let capacity_frames = if needed_output_frames >= required_raw_frames {
        needed_output_frames
    } else {
        required_raw_frames
    };
    let capacity_samples = frames_to_samples(capacity_frames, channels)?;
    Ok(
        ResamplePlan {
            delay_frames,
            expected_output_frames,
            required_raw_frames,
            capacity_frames,
            capacity_samples,
        },
    )
}

/// Where a whole-utterance resampling stands: input frames consumed and left,
/// and output frames produced so far.
#[derive(Debug, Clone, Copy, PartialEq, Eq, Structural)]
pub struct ResampleProgress {
    input_frames: usize,
    input_offset: usize,
    output_offset: usize,
    frames_left: usize,
}

impl ResampleProgress {
    pub closed spec fn spec_input_frames(self) -> usize {
        self.input_frames
    }

    pub closed spec fn spec_input_offset(self) -> usize {
        self.input_offset
    }

    pub closed spec fn spec_output_offset(self) -> usize {
        self.output_offset
    }

    pub closed spec fn spec_frames_left(self) -> usize {
        self.frames_left
    }

    /// Every input frame is either consumed or left: none is lost or counted twice.
    pub open spec fn wf(self) -> bool {
        self.spec_input_offset() + self.spec_frames_left() == self.spec_input_frames()
    }

    pub fn new(input_frames: usize) -> (progress: Self)
        ensures
            progress.wf(),
            progress.spec_input_frames() == input_frames,
            progress.spec_input_offset() == 0,
            progress.spec_output_offset() == 0,
            progress.spec_frames_left() == input_frames,
    {
        ResampleProgress { input_frames, input_offset: 0, output_offset: 0, frames_left: input_frames }
    }

    pub fn input_offset(&self) -> (offset: usize)
        ensures
            offset == self.spec_input_offset(),
    {
        self.input_offset
    }

    pub fn output_offset(&self) -> (offset: usize)
        ensures
            offset == self.spec_output_offset(),
    {
        self.output_offset
    }

    pub fn frames_left(&self) -> (frames: usize)
        ensures
            frames == self.spec_frames_left(),
    {
        self.frames_left
    }

    /// Records one complete block: `consumed` input frames taken and `produced`
    /// output frames written. A block that takes nothing, or more than is
    /// left, is a resampler fault; the progress is unchanged on any error.
    pub fn advance_block(&mut self, consumed: usize, produced: usize) -> (result: Result<
        (),
        ProcessingError,
    >)
        requires
            old(self).wf(),
        ensures
            final(self).wf(),
            match result {
                Ok(()) => {
                    &&& 0 < consumed <= old(self).spec_frames_left()
                    &&& old(self).spec_output_offset() + produced <= usize::MAX
                    &&& final(self).spec_input_frames() == old(self).spec_input_frames()
                    &&& final(self).spec_input_offset() == old(self).spec_input_offset() + consumed
                    &&& final(self).spec_frames_left() == old(self).spec_frames_left() - consumed
                    &&& final(self).spec_output_offset() == old(self).spec_output_offset() + produced
                },
                Err(e) => {
                    &&& *final(self) == *old(self)
                    &&& if consumed == 0 {
                        e matches ProcessingError::Resampling(m)
                            && m@ == "resampler consumed no input from a complete block"@
                    } else if old(self).spec_input_offset() + consumed > usize::MAX
                        || old(self).spec_output_offset() + produced > usize::MAX {
                        e == ProcessingError::BufferSizeOverflow
                    } else {
                        &&& consumed > old(self).spec_frames_left()
                        &&& e matches ProcessingError::Resampling(m)
                            && m@ == "resampler consumed more frames than were available"@
                    }
                },
            },
    {
        if consumed == 0 {
            return Err(
                ProcessingError::Resampling(
                    String::from_str("resampler consumed no input from a complete block"),
                ),
            );
        }
        let input_offset = match self.input_offset.checked_add(consumed) {
            Some(offset) => offset,
            None => {
                return Err(ProcessingError::BufferSizeOverflow);
            },
        };
        let output_offset = match self.output_offset.checked_add(produced) {
            Some(offset) => offset,
            None => {
                return Err(ProcessingError::BufferSizeOverflow);
            },
        };
        if self.frames_left < consumed {
            return Err(
                ProcessingError::Resampling(
                    String::from_str("resampler consumed more frames than were available"),
                ),
            );
        }
        self.input_offset = input_offset;
        self.output_offset = output_offset;
        self.frames_left = self.frames_left - consumed;
        Ok(())
    }

    /// Records the final short chunk, whose output is all that is kept of it.
    pub fn record_partial(&mut self, produced: usize) -> (result: Result<(), ProcessingError>)
        requires
            old(self).wf(),
        ensures
            final(self).wf(),
            match result {
                Ok(()) => old(self).spec_output_offset() + produced <= usize::MAX
                    && final(self).spec_output_offset() == old(self).spec_output_offset() + produced
                    && final(self).spec_input_frames() == old(self).spec_input_frames()
                    && final(self).spec_input_offset() == old(self).spec_input_offset()
                    && final(self).spec_frames_left() == old(self).spec_frames_left(),
                Err(e) => *final(self) == *old(self) && e == ProcessingError::BufferSizeOverflow
                    && old(self).spec_output_offset() + produced > usize::MAX,
            },
    {
        match self.output_offset.checked_add(produced) {
            Some(offset) => {
                self.output_offset = offset;
                Ok(())
            },
            None => Err(ProcessingError::BufferSizeOverflow),
        }
    }

    /// Records one flush of silence pumped to drain the resampler's delay; a
    /// flush that produces nothing would never finish and is a fault.
    pub fn record_flush(&mut self, produced: usize) -> (result: Result<(), ProcessingError>)
        requires
            old(self).wf(),
        ensures
            final(self).wf(),
            match result {
                Ok(()) => produced > 0 && old(self).spec_output_offset() + produced <= usize::MAX
                    && final(self).spec_output_offset() == old(self).spec_output_offset() + produced
                    && final(self).spec_input_frames() == old(self).spec_input_frames()
                    && final(self).spec_input_offset() == old(self).spec_input_offset()
                    && final(self).spec_frames_left() == old(self).spec_frames_left(),
                Err(e) => *final(self) == *old(self) && if produced == 0 {
                    e matches ProcessingError::Resampling(m)
                        && m@ == "resampler produced no output while flushing its delay"@
                } else {
                    e == ProcessingError::BufferSizeOverflow && old(self).spec_output_offset()
                        + produced > usize::MAX
                },
            },
    {
        if produced == 0 {
            return Err(
                ProcessingError::Resampling(
                    String::from_str("resampler produced no output while flushing its delay"),
                ),
            );
        }
        self.record_partial(produced)
    }
}

/// The samples of the exact utterance inside the raw resampler output: they
/// start after the delay and hold exactly the expected frames, and must lie
/// within both what was produced and the storage.
pub fn resampled_output_window(
    plan: ResamplePlan,
    channels: usize,
    produced_frames: usize,
    output_samples: usize,
) -> (result: Result<(usize, usize), ProcessingError>)
    ensures
        match result {
            Ok((start, end)) => {
                &&& start == plan.delay_frames * channels
                &&& end == start + plan.expected_output_frames * channels
                &&& end - start == plan.expected_output_frames * channels
                &&& end <= produced_frames * channels
                &&& end <= output_samples
            },
            Err(e) => {
                let start = plan.delay_frames * channels;
                let len = plan.expected_output_frames * channels;
                if start > usize::MAX || len > usize::MAX || start + len > usize::MAX
                    || produced_frames * channels > usize::MAX {
                    e == ProcessingError::BufferSizeOverflow
                } else {
                    &&& start + len > produced_frames * channels || start + len > output_samples
                    &&& e matches ProcessingError::Resampling(m) && m@
                        == "resampler flush ended before the exact utterance output was available"@
                }
            },
        },
{
    let valid_start = frames_to_samples(plan.delay_frames, channels)?;
    let valid_samples = frames_to_samples(plan.expected_output_frames, channels)?;
    let valid_end = match valid_start.checked_add(valid_samples) {
        Some(end) => end,
        None => {
            return Err(ProcessingError::BufferSizeOverflow);
        },
    };
    let produced_samples = frames_to_samples(produced_frames, channels)?;
    if valid_end > produced_samples || valid_end > output_samples {
        return Err(
            ProcessingError::Resampling(
                String::from_str(
                    "resampler flush ended before the exact utterance output was available",
                ),
            ),
        );
    }
    Ok((valid_start, valid_end))
}

} // verus!
