//! What the desktop shell reports to its user interface: capture and dictation
//! errors, the stable error codes of commands, the transfer objects built
//! from library values, and the choice of input device and model for a
//! configured dictation.
use vstd::prelude::*;

use crate::audio::{
    AudioFailure, AudioFailureKind, AudioSampleFormat, AudioStreamConfig, InputDeviceInfo,
    InputDiscovery,
};
use crate::coordinator::SessionSnapshot;
use crate::insertion::{
    resolve_insertion_capability, InsertionBackend, InsertionCapability, InsertionError,
    InsertionErrorKind, InsertionReceipt,
};
use crate::models::{ModelError, ModelErrorKind, ModelStatus};
use crate::pipeline::{CaptureStats, MicrophoneTestReport};
use crate::platform::DesktopEnvironment;
use crate::session::{FailureStage, SessionId, SessionState};
use crate::settings::SettingsError;
use crate::text::str_eq;

verus! {

/// Longest microphone test, in milliseconds.
pub const MICROPHONE_TEST_MAX_DURATION_MS: u32 = 30000;

/// Longest dictation recording, in milliseconds.
pub const DEFAULT_DICTATION_MAX_DURATION_MS: u32 = 300000;

/// Number of history entries listed when none is asked for.
pub const DEFAULT_HISTORY_LIMIT: u32 = 100;

#[derive(Debug, Clone, Copy, PartialEq, Eq, Structural)]
pub enum DesktopCaptureErrorKind {
    Busy,
    InvalidDevice,
    StaleSession,
    PumpFailed,
    WorkerSpawn,
    WorkerJoin,
    Runtime,
    /// Voice-activity detection over a finalized dictation failed.
    SpeechDetection,
}

#[derive(Debug, Clone, PartialEq, Eq)]
pub struct DesktopCaptureError {
    kind: DesktopCaptureErrorKind,
    message: String,
}

impl DesktopCaptureError {
    pub closed spec fn spec_kind(&self) -> DesktopCaptureErrorKind {
        self.kind
    }

    pub closed spec fn spec_message(&self) -> Seq<char> {
        self.message@
    }

    pub fn new(kind: DesktopCaptureErrorKind, message: String) -> (error: Self)
        ensures
            error.spec_kind() == kind,
            error.spec_message() == message@,
    {
        DesktopCaptureError { kind, message }
    }

    pub fn kind(&self) -> (kind: DesktopCaptureErrorKind)
        ensures
            kind == self.spec_kind(),
    {
        self.kind
    }

    pub fn message(&self) -> (message: &str)
        ensures
            message@ == self.spec_message(),
    {
        self.message.as_str()
    }
}

#[derive(Debug, Clone, Copy, PartialEq, Eq, Structural)]
pub enum DesktopDictationErrorKind {
    Busy,
    InvalidConfiguration,
    StaleSession,
    RecognizerLoad,
    Capture,
    SpeechDetection,
    Transcription,
    Insertion,
}

#[derive(Debug, Clone, PartialEq, Eq)]
pub struct DesktopDictationError {
    kind: DesktopDictationErrorKind,
    message: String,
}

impl DesktopDictationError {
    pub closed spec fn spec_kind(&self) -> DesktopDictationErrorKind {
        self.kind
    }

    pub closed spec fn spec_message(&self) -> Seq<char> {
        self.message@
    }

    pub fn new(kind: DesktopDictationErrorKind, message: String) -> (error: Self)
        ensures
            error.spec_kind() == kind,
            error.spec_message() == message@,
    {
        DesktopDictationError { kind, message }
    }

    pub fn kind(&self) -> (kind: DesktopDictationErrorKind)
        ensures
            kind == self.spec_kind(),
    {
        self.kind
    }

    pub fn message(&self) -> (message: &str)
        ensures
            message@ == self.spec_message(),
    {
        self.message.as_str()
    }
}

/// The dictation error a capture error becomes.
pub open spec fn spec_dictation_kind_of_capture(kind: DesktopCaptureErrorKind) -> DesktopDictationErrorKind {
    match kind {
        DesktopCaptureErrorKind::Busy => DesktopDictationErrorKind::Busy,
        DesktopCaptureErrorKind::StaleSession => DesktopDictationErrorKind::StaleSession,
        DesktopCaptureErrorKind::SpeechDetection => DesktopDictationErrorKind::SpeechDetection,
        _ => DesktopDictationErrorKind::Capture,
    }
}

pub fn map_capture_error(error: DesktopCaptureError) -> (mapped: DesktopDictationError)
    ensures
        mapped.spec_kind() == spec_dictation_kind_of_capture(error.spec_kind()),
        mapped.spec_message() == error.spec_message(),
{
    let kind = match error.kind() {
        DesktopCaptureErrorKind::Busy => DesktopDictationErrorKind::Busy,
        DesktopCaptureErrorKind::StaleSession => DesktopDictationErrorKind::StaleSession,
        DesktopCaptureErrorKind::SpeechDetection => DesktopDictationErrorKind::SpeechDetection,
        _ => DesktopDictationErrorKind::Capture,
    };
    DesktopDictationError::new(kind, error.message)
}

pub open spec fn spec_session_state_name(state: SessionState) -> Seq<char> {
    match state {
        SessionState::Arming => "arming"@,
        SessionState::Recording => "recording"@,
        SessionState::FinalizingAudio => "finalizingAudio"@,
        SessionState::Transcribing => "transcribing"@,
        SessionState::Transforming => "transforming"@,
        SessionState::Inserting => "inserting"@,
        SessionState::Completed => "completed"@,
        SessionState::Failed => "failed"@,
        SessionState::Cancelled => "cancelled"@,
    }
}

/// The name a session state is shown under.
pub fn session_state_name(state: SessionState) -> (name: &'static str)
    ensures
        name@ == spec_session_state_name(state),
{
    match state {
        SessionState::Arming => "arming",
        SessionState::Recording => "recording",
        SessionState::FinalizingAudio => "finalizingAudio",
        SessionState::Transcribing => "transcribing",
        SessionState::Transforming => "transforming",
        SessionState::Inserting => "inserting",
        SessionState::Completed => "completed",
        SessionState::Failed => "failed",
        SessionState::Cancelled => "cancelled",
    }
}

pub open spec fn spec_failure_stage_name(stage: FailureStage) -> Seq<char> {
    match stage {
        FailureStage::AudioCapture => "AudioCapture"@,
        FailureStage::SpeechDetection => "SpeechDetection"@,
        FailureStage::SpeechRecognition => "SpeechRecognition"@,
        FailureStage::Transformation => "Transformation"@,
        FailureStage::TargetResolution => "TargetResolution"@,
        FailureStage::TextInsertion => "TextInsertion"@,
        FailureStage::Internal => "Internal"@,
    }
}

/// The name a failure stage is shown under.
pub fn failure_stage_name(stage: FailureStage) -> (name: &'static str)
    ensures
        name@ == spec_failure_stage_name(stage),
{
    match stage {
        FailureStage::AudioCapture => "AudioCapture",
        FailureStage::SpeechDetection => "SpeechDetection",
        FailureStage::SpeechRecognition => "SpeechRecognition",
        FailureStage::Transformation => "Transformation",
        FailureStage::TargetResolution => "TargetResolution",
        FailureStage::TextInsertion => "TextInsertion",
        FailureStage::Internal => "Internal",
    }
}

/// An error as a command reports it: a stable code, a message, and the
/// transcript the user can still recover, if any.
#[derive(Debug, Clone, PartialEq, Eq)]
pub struct CommandErrorDto {
    pub code: &'static str,
    pub message: String,
    pub recoverable_text: Option<String>,
}

pub open spec fn spec_capture_error_code(kind: DesktopCaptureErrorKind) -> Seq<char> {
    match kind {
        DesktopCaptureErrorKind::Busy => "capture_busy"@,
        DesktopCaptureErrorKind::InvalidDevice => "invalid_device"@,
        DesktopCaptureErrorKind::StaleSession => "stale_session"@,
        DesktopCaptureErrorKind::PumpFailed => "capture_pump_failed"@,
        DesktopCaptureErrorKind::WorkerSpawn => "capture_worker_spawn_failed"@,
        DesktopCaptureErrorKind::WorkerJoin => "capture_worker_join_failed"@,
        DesktopCaptureErrorKind::Runtime => "dictation_runtime_failed"@,
        DesktopCaptureErrorKind::SpeechDetection => "speech_detection_failed"@,
    }
}

pub open spec fn spec_dictation_error_code(kind: DesktopDictationErrorKind) -> Seq<char> {
    match kind {
        DesktopDictationErrorKind::Busy => "dictation_busy"@,
        DesktopDictationErrorKind::InvalidConfiguration => "dictation_invalid_configuration"@,
        DesktopDictationErrorKind::StaleSession => "stale_session"@,
        DesktopDictationErrorKind::RecognizerLoad => "recognizer_load_failed"@,
        DesktopDictationErrorKind::Capture => "dictation_capture_failed"@,
        DesktopDictationErrorKind::SpeechDetection => "dictation_speech_detection_failed"@,
        DesktopDictationErrorKind::Transcription => "dictation_transcription_failed"@,
        DesktopDictationErrorKind::Insertion => "dictation_insertion_lifecycle_failed"@,
    }
}

pub open spec fn spec_model_error_code(kind: ModelErrorKind) -> Seq<char> {
    match kind {
        ModelErrorKind::UnknownModel => "unknown_model"@,
        ModelErrorKind::Busy => "model_busy"@,
        ModelErrorKind::Network => "model_network_failed"@,
        ModelErrorKind::DownloadInvalid => "model_download_invalid"@,
        ModelErrorKind::Validation => "model_validation_failed"@,
        ModelErrorKind::Io => "model_io_failed"@,
    }
}

pub open spec fn spec_insertion_error_code(kind: InsertionErrorKind) -> Seq<char> {
    match kind {
        InsertionErrorKind::InvalidText => "insertion_invalid_text"@,
        InsertionErrorKind::PermissionDenied => "insertion_permission_denied"@,
        InsertionErrorKind::BackendUnavailable => "insertion_backend_unavailable"@,
        InsertionErrorKind::PartialSubmission => "insertion_partial_submission"@,
        InsertionErrorKind::BackendFailure => "insertion_backend_failed"@,
    }
}

impl CommandErrorDto {
    pub fn plain(code: &'static str, message: String) -> (dto: Self)
        ensures
            dto.code == code,
            dto.message@ == message@,
            dto.recoverable_text is None,
    {
        CommandErrorDto { code, message, recoverable_text: None }
    }

    pub fn blocking_worker(message: String) -> (dto: Self)
        ensures
            dto.code@ == "blocking_worker_failed"@,
            dto.message@ == message@,
            dto.recoverable_text is None,
    {
        CommandErrorDto::plain("blocking_worker_failed", message)
    }

    /// A failed insertion keeps the transcript so that it can be recovered.
    pub fn insertion(error: InsertionError, recoverable_text: String) -> (dto: Self)
        ensures
            dto.code@ == spec_insertion_error_code(error.spec_kind()),
            dto.message@ == error.spec_message(),
            crate::settings::string_opt_view(dto.recoverable_text) == Some(recoverable_text@),
    {
        let code = match error.kind() {
            InsertionErrorKind::InvalidText => "insertion_invalid_text",
            InsertionErrorKind::PermissionDenied => "insertion_permission_denied",
            InsertionErrorKind::BackendUnavailable => "insertion_backend_unavailable",
            InsertionErrorKind::PartialSubmission => "insertion_partial_submission",
            InsertionErrorKind::BackendFailure => "insertion_backend_failed",
        };
        CommandErrorDto {
            code,
            message: String::from_str(error.message()),
            recoverable_text: Some(recoverable_text),
        }
    }

    pub fn from_capture_error(error: DesktopCaptureError) -> (dto: Self)
        ensures
            dto.code@ == spec_capture_error_code(error.spec_kind()),
            dto.message@ == error.spec_message(),
            dto.recoverable_text is None,
    {
        let code = match error.kind() {
            DesktopCaptureErrorKind::Busy => "capture_busy",
            DesktopCaptureErrorKind::InvalidDevice => "invalid_device",
            DesktopCaptureErrorKind::StaleSession => "stale_session",
            DesktopCaptureErrorKind::PumpFailed => "capture_pump_failed",
            DesktopCaptureErrorKind::WorkerSpawn => "capture_worker_spawn_failed",
            DesktopCaptureErrorKind::WorkerJoin => "capture_worker_join_failed",
            DesktopCaptureErrorKind::Runtime => "dictation_runtime_failed",
            DesktopCaptureErrorKind::SpeechDetection => "speech_detection_failed",
        };
        CommandErrorDto::plain(code, error.message)
    }

    pub fn from_dictation_error(error: DesktopDictationError) -> (dto: Self)
        ensures
            dto.code@ == spec_dictation_error_code(error.spec_kind()),
            dto.message@ == error.spec_message(),
            dto.recoverable_text is None,
    {
        let code = match error.kind() {
            DesktopDictationErrorKind::Busy => "dictation_busy",
            DesktopDictationErrorKind::InvalidConfiguration => "dictation_invalid_configuration",
            DesktopDictationErrorKind::StaleSession => "stale_session",
            DesktopDictationErrorKind::RecognizerLoad => "recognizer_load_failed",
            DesktopDictationErrorKind::Capture => "dictation_capture_failed",
            DesktopDictationErrorKind::SpeechDetection => "dictation_speech_detection_failed",
            DesktopDictationErrorKind::Transcription => "dictation_transcription_failed",
            DesktopDictationErrorKind::Insertion => "dictation_insertion_lifecycle_failed",
        };
        CommandErrorDto::plain(code, error.message)
    }

    pub fn from_settings_error(error: SettingsError) -> (dto: Self)
        ensures
            dto.code@ == "settings_failed"@,
            dto.message@ == error.spec_message(),
            dto.recoverable_text is None,
    {
        CommandErrorDto::plain("settings_failed", String::from_str(error.message()))
    }

    pub fn from_model_error(error: ModelError) -> (dto: Self)
        ensures
            dto.code@ == spec_model_error_code(error.spec_kind()),
            dto.message@ == error.spec_message(),
            dto.recoverable_text is None,
    {
        let code = match error.kind() {
            ModelErrorKind::UnknownModel => "unknown_model",
            ModelErrorKind::Busy => "model_busy",
            ModelErrorKind::Network => "model_network_failed",
            ModelErrorKind::DownloadInvalid => "model_download_invalid",
            ModelErrorKind::Validation => "model_validation_failed",
            ModelErrorKind::Io => "model_io_failed",
        };
        CommandErrorDto::plain(code, String::from_str(error.message()))
    }

    pub fn code(&self) -> (code: &'static str)
        ensures
            code == self.code,
    {
        self.code
    }

    pub fn message(&self) -> (message: &str)
        ensures
            message@ == self.message@,
    {
        self.message.as_str()
    }

    pub fn recoverable_text(&self) -> (text: Option<&str>)
        ensures
            crate::platform::opt_view(text) == crate::settings::string_opt_view(self.recoverable_text),
    {
        match &self.recoverable_text {
            Some(t) => Some(t.as_str()),
            None => None,
        }
    }
}

#[derive(Debug, Clone, PartialEq, Eq)]
pub struct SessionDto {
    pub id: u64,
    pub state: &'static str,
    pub failure_stage: Option<String>,
}

impl SessionDto {
    pub fn from_snapshot(session: SessionSnapshot) -> (dto: Self)
        ensures
            dto.id == session.id@,
            dto.state@ == spec_session_state_name(session.state),
            crate::settings::string_opt_view(dto.failure_stage) == match session.failure_stage {
                Some(stage) => Some(spec_failure_stage_name(stage)),
                None => None,
            },
    {
        SessionDto {
            id: session.id.get(),
            state: session_state_name(session.state),
            failure_stage: match session.failure_stage {
                Some(stage) => Some(String::from_str(failure_stage_name(stage))),
                None => None,
            },
        }
    }
}

#[derive(Debug, Clone, PartialEq, Eq)]
pub struct InsertionCapabilityDto {
    pub backend: Option<String>,
    pub authorization: Option<String>,
    pub semantic_delivery_verifiable: bool,
    pub available: bool,
    pub error: Option<String>,
}

impl InsertionCapabilityDto {
    /// The report of an insertion capability, or of why there is none.
    pub fn from_capability(capability: Result<InsertionCapability, InsertionError>) -> (dto: Self)
        ensures
            match capability {
                Ok(c) => {
                    &&& dto.available
                    &&& dto.error is None
                    &&& !dto.semantic_delivery_verifiable
                    &&& crate::settings::string_opt_view(dto.backend) == Some(
                        crate::insertion::spec_backend_name(c.spec_backend()),
                    )
                    &&& crate::settings::string_opt_view(dto.authorization) == Some(
                        crate::insertion::spec_authorization_name(c.spec_authorization()),
                    )
                },
                Err(e) => {
                    &&& !dto.available
                    &&& dto.backend is None
                    &&& dto.authorization is None
                    &&& !dto.semantic_delivery_verifiable
                    &&& crate::settings::string_opt_view(dto.error) == Some(e.spec_message())
                },
            },
    {
        match capability {
            Ok(capability) => InsertionCapabilityDto {
                backend: Some(String::from_str(capability.backend().name())),
                authorization: Some(String::from_str(capability.authorization().name())),
                semantic_delivery_verifiable: capability.semantic_delivery_verifiable(),
                available: true,
                error: None,
            },
            Err(error) => InsertionCapabilityDto {
                backend: None,
                authorization: None,
                semantic_delivery_verifiable: false,
                available: false,
                error: Some(String::from_str(error.message())),
            },
        }
    }
}

#[derive(Debug, Clone, PartialEq, Eq)]
pub struct DesktopStatusDto {
    pub session: Option<SessionDto>,
    pub last_pump_failure: Option<String>,
    pub dictation_state: &'static str,
    pub dictation_session_id: Option<u64>,
    pub insertion: InsertionCapabilityDto,
}

#[derive(Debug, Clone, PartialEq, Eq)]
pub struct AudioStreamConfigDto {
    pub channels: u16,
    pub sample_rate_hz: u32,
    pub sample_format: String,
}

impl AudioStreamConfigDto {
    pub fn from_config(config: &AudioStreamConfig) -> (dto: Self)
        ensures
            dto.channels == config.channels,
            dto.sample_rate_hz == config.sample_rate_hz,
            dto.sample_format@ == crate::audio::spec_sample_format_name(config.sample_format),
    {
        AudioStreamConfigDto {
            channels: config.channels,
            sample_rate_hz: config.sample_rate_hz,
            sample_format: config.sample_format.name(),
        }
    }
}

#[derive(Debug, Clone, PartialEq, Eq)]
pub struct InputDeviceDto {
    pub id: String,
    pub name: String,
    pub backend: String,
    pub is_default: bool,
    pub default_config: Option<AudioStreamConfigDto>,
}

/// `dto` reports the stream configuration `config`.
pub open spec fn config_dto_of(dto: AudioStreamConfigDto, config: AudioStreamConfig) -> bool {
    &&& dto.channels == config.channels
    &&& dto.sample_rate_hz == config.sample_rate_hz
    &&& dto.sample_format@ == crate::audio::spec_sample_format_name(config.sample_format)
}

/// `dto` reports the input device `device`.
pub open spec fn device_dto_of(dto: InputDeviceDto, device: InputDeviceInfo) -> bool {
    &&& dto.id@ == device.id@
    &&& dto.name@ == device.name@
    &&& dto.backend@ == crate::audio::spec_backend_display_name(device.backend@)
    &&& dto.is_default == device.is_default
    &&& match (dto.default_config, device.default_config) {
        (Some(c), Some(d)) => config_dto_of(c, d),
        (None, None) => true,
        _ => false,
    }
}

impl InputDeviceDto {
    pub fn from_device(device: &InputDeviceInfo) -> (dto: Self)
        ensures
            device_dto_of(dto, *device),
    {
        InputDeviceDto {
            id: String::from_str(device.id.as_str()),
            name: device.name.clone(),
            backend: device.backend.name(),
            is_default: device.is_default,
            default_config: match &device.default_config {
                Some(config) => Some(AudioStreamConfigDto::from_config(config)),
                None => None,
            },
        }
    }
}

#[derive(Debug, Clone, PartialEq, Eq)]
pub struct AudioFailureDto {
    pub backend: Option<String>,
    pub device_id: Option<String>,
    pub kind: &'static str,
    pub message: String,
}

/// `dto` reports the capture failure `failure`.
pub open spec fn failure_dto_of(dto: AudioFailureDto, failure: AudioFailure) -> bool {
    &&& crate::settings::string_opt_view(dto.backend) == match failure.backend {
        Some(backend) => Some(crate::audio::spec_backend_display_name(backend@)),
        None => None,
    }
    &&& crate::settings::string_opt_view(dto.device_id) == match failure.device_id {
        Some(id) => Some(id@),
        None => None,
    }
    &&& dto.kind@ == crate::audio::spec_failure_kind_name(failure.kind)
    &&& dto.message@ == failure.message@
}

impl AudioFailureDto {
    pub fn from_failure(failure: &AudioFailure) -> (dto: Self)
        ensures
            failure_dto_of(dto, *failure),
    {
        AudioFailureDto {
            backend: match &failure.backend {
                Some(backend) => Some(backend.name()),
                None => None,
            },
            device_id: match &failure.device_id {
                Some(id) => Some(String::from_str(id.as_str())),
                None => None,
            },
            kind: failure.kind.name(),
            message: failure.message.clone(),
        }
    }
}

#[derive(Debug, Clone, PartialEq, Eq)]
pub struct InputDiscoveryDto {
    pub selected_backend: Option<String>,
    pub devices: Vec<InputDeviceDto>,
    pub failures: Vec<AudioFailureDto>,
}

impl InputDiscoveryDto {
    pub fn from_discovery(discovery: &InputDiscovery) -> (dto: Self)
        ensures
            crate::settings::string_opt_view(dto.selected_backend) == match discovery.selected_backend {
                Some(backend) => Some(crate::audio::spec_backend_display_name(backend@)),
                None => None,
            },
            dto.devices@.len() == discovery.devices@.len(),
            forall|i: int| 0 <= i < dto.devices@.len() ==> device_dto_of(
                #[trigger] dto.devices@[i],
                discovery.devices@[i],
            ),
            dto.failures@.len() == discovery.failures@.len(),
            forall|i: int| 0 <= i < dto.failures@.len() ==> failure_dto_of(
                #[trigger] dto.failures@[i],
                discovery.failures@[i],
            ),
    {
        let mut devices: Vec<InputDeviceDto> = Vec::new();
        let mut i: usize = 0;
        let n = discovery.devices.len();
        while i < n
            invariant
                n == discovery.devices@.len(),
                i <= n,
                devices@.len() == i,
                forall|j: int| 0 <= j < i ==> device_dto_of(#[trigger] devices@[j], discovery.devices@[j]),
            decreases n - i,
        {
            devices.push(InputDeviceDto::from_device(&discovery.devices[i]));
            i = i + 1;
        }
        let mut failures: Vec<AudioFailureDto> = Vec::new();
        let mut i: usize = 0;
        let n = discovery.failures.len();
        while i < n
            invariant
                n == discovery.failures@.len(),
                i <= n,
                failures@.len() == i,
                forall|j: int| 0 <= j < i ==> failure_dto_of(#[trigger] failures@[j], discovery.failures@[j]),
            decreases n - i,
        {
            failures.push(AudioFailureDto::from_failure(&discovery.failures[i]));
            i = i + 1;
        }
        InputDiscoveryDto {
            selected_backend: match &discovery.selected_backend {
                Some(backend) => Some(backend.name()),
                None => None,
            },
            devices,
            failures,
        }
    }
}

#[derive(Debug, Clone, PartialEq, Eq)]
pub struct CaptureStatsDto {
    pub received_samples: u64,
    pub dropped_samples: u64,
    pub callback_errors: u64,
    pub last_failure: Option<String>,
}

impl CaptureStatsDto {
    pub fn from_stats(stats: CaptureStats) -> (dto: Self)
        ensures
            dto.received_samples == stats.received_samples,
            dto.dropped_samples == stats.dropped_samples,
            dto.callback_errors == stats.callback_errors,
            crate::settings::string_opt_view(dto.last_failure) == match stats.last_failure {
                Some(kind) => Some(crate::audio::spec_failure_kind_name(kind)),
                None => None,
            },
    {
        CaptureStatsDto {
            received_samples: stats.received_samples,
            dropped_samples: stats.dropped_samples,
            callback_errors: stats.callback_errors,
            last_failure: match stats.last_failure {
                Some(kind) => Some(String::from_str(kind.name())),
                None => None,
            },
        }
    }
}

#[derive(Debug, Clone, PartialEq, Eq)]
pub struct MicrophoneTestReportDto {
    pub session_id: u64,
    pub captured_frames: usize,
    pub capture_stats: CaptureStatsDto,
    pub finalized_state: &'static str,
    pub terminal_state: &'static str,
}

impl MicrophoneTestReportDto {
    pub fn from_report(report: MicrophoneTestReport) -> (dto: Self)
        ensures
            dto.session_id == report.finalized.session.id@,
            dto.captured_frames == report.finalized.source_frames,
            dto.capture_stats.received_samples == report.finalized.capture_stats.received_samples,
            dto.finalized_state@ == spec_session_state_name(report.finalized.session.state),
            dto.terminal_state@ == spec_session_state_name(report.terminal_session.state),
    {
        MicrophoneTestReportDto {
            session_id: report.finalized.session.id.get(),
            captured_frames: report.finalized.source_frames,
            capture_stats: CaptureStatsDto::from_stats(report.finalized.capture_stats),
            finalized_state: session_state_name(report.finalized.session.state),
            terminal_state: session_state_name(report.terminal_session.state),
        }
    }
}

#[derive(Debug, Clone, PartialEq, Eq)]
pub struct DictationReportDto {
    pub session_id: u64,
    pub state: &'static str,
    pub text: String,
    pub raw_text: Option<String>,
    pub detected_language: Option<String>,
    pub engine_id: String,
    pub model_id: String,
    pub backend_name: String,
    pub source_frames: usize,
    pub asr_frames: usize,
    pub capture_stats: CaptureStatsDto,
    pub insertion_backend: String,
    pub submitted_utf8_bytes: usize,
    pub semantic_delivery_verified: bool,
}

#[derive(Debug, Clone, PartialEq, Eq)]
pub struct ModelStatusDto {
    pub id: &'static str,
    pub name: &'static str,
    pub description: &'static str,
    pub tier: &'static str,
    pub advertised_bytes: u64,
    pub installed: bool,
    pub installed_bytes: Option<u64>,
    pub recommended: bool,
    pub selected: bool,
}

impl ModelStatusDto {
    /// The report of a model, marked selected when it is the selected model.
    pub fn from_status(status: &ModelStatus, selected_model_id: Option<&str>) -> (dto: Self)
        ensures
            dto.id@ == status.spec.spec_id(),
            dto.name@ == status.spec.spec_name(),
            dto.advertised_bytes == status.spec.spec_advertised_bytes(),
            dto.installed == status.installed,
            dto.installed_bytes == status.installed_bytes,
            dto.recommended == status.recommended,
            dto.selected == (selected_model_id matches Some(s) && s@ == status.spec.spec_id()),
    {
        let id = status.spec.id();
        ModelStatusDto {
            id,
            name: status.spec.name(),
            description: status.spec.description(),
            tier: status.spec.tier().as_str(),
            advertised_bytes: status.spec.advertised_bytes(),
            installed: status.installed,
            installed_bytes: status.installed_bytes,
            recommended: status.recommended,
            selected: match selected_model_id {
                Some(selected) => str_eq(selected, id),
                None => false,
            },
        }
    }
}

/// The device a configured dictation records from: the selected device when
/// it is present, else the default device, else the first one.
pub open spec fn spec_choose_input_device(selected: Option<Seq<char>>, devices: Seq<InputDeviceInfo>) -> Option<int> {
    let by_selection = match selected {
        Some(s) => first_device_with_id(devices, s, 0),
        None => None,
    };
    if by_selection is Some {
        by_selection
    } else if first_default_device(devices, 0) is Some {
        first_default_device(devices, 0)
    } else if devices.len() > 0 {
        Some(0)
    } else {
        None
    }
}

pub open spec fn first_device_with_id(devices: Seq<InputDeviceInfo>, id: Seq<char>, from: int) -> Option<int>
    decreases devices.len() - from,
{
    if from < 0 || from >= devices.len() {
        None
    } else if devices[from].id@ == id {
        Some(from)
    } else {
        first_device_with_id(devices, id, from + 1)
    }
}

pub open spec fn first_default_device(devices: Seq<InputDeviceInfo>, from: int) -> Option<int>
    decreases devices.len() - from,
{
    if from < 0 || from >= devices.len() {
        None
    } else if devices[from].is_default {
        Some(from)
    } else {
        first_default_device(devices, from + 1)
    }
}

/// Index of the device a configured dictation records from, if any device is
/// available.
pub fn choose_input_device(selected: Option<&str>, devices: &Vec<InputDeviceInfo>) -> (index: Option<usize>)
    ensures
        match index {
            Some(i) => spec_choose_input_device(crate::platform::opt_view(selected), devices@) == Some(
                i as int,
            ),
            None => spec_choose_input_device(crate::platform::opt_view(selected), devices@) is None,
        },
{
    let n = devices.len();
    if let Some(s) = selected {
        let mut i: usize = 0;
        while i < n
            invariant
                n == devices@.len(),
                i <= n,
                selected == Some(s),
                first_device_with_id(devices@, s@, 0) == first_device_with_id(devices@, s@, i as int),
            decreases n - i,
        {
            if str_eq(devices[i].id.as_str(), s) {
                assert(devices@[i as int].id@ == s@);
                assert(first_device_with_id(devices@, s@, i as int) == Some(i as int));
                assert(crate::platform::opt_view(selected) == Some(s@));
                return Some(i);
            }
            i = i + 1;
        }
    }
    let mut i: usize = 0;
    while i < n
        invariant
            n == devices@.len(),
            i <= n,
            first_default_device(devices@, 0) == first_default_device(devices@, i as int),
            match selected {
                Some(s) => first_device_with_id(devices@, s@, 0) is None,
                None => true,
            },
        decreases n - i,
    {
        if devices[i].is_default {
            return Some(i);
        }
        i = i + 1;
    }
    if n > 0 {
        Some(0)
    } else {
        None
    }
}

/// The model a configured dictation falls back to: the first installed
/// recommended model, else the first installed one.
pub open spec fn spec_fallback_model(catalog: Seq<ModelStatus>) -> Option<int> {
    if first_model_where(catalog, true, 0) is Some {
        first_model_where(catalog, true, 0)
    } else {
        first_model_where(catalog, false, 0)
    }
}

/// The first installed model (and recommended, when `recommended_only`).
pub open spec fn first_model_where(catalog: Seq<ModelStatus>, recommended_only: bool, from: int) -> Option<int>
    decreases catalog.len() - from,
{
    if from < 0 || from >= catalog.len() {
        None
    } else if catalog[from].installed && (!recommended_only || catalog[from].recommended) {
        Some(from)
    } else {
        first_model_where(catalog, recommended_only, from + 1)
    }
}

fn find_model_where(catalog: &Vec<ModelStatus>, recommended_only: bool) -> (index: Option<usize>)
    ensures
        match index {
            Some(i) => first_model_where(catalog@, recommended_only, 0) == Some(i as int),
            None => first_model_where(catalog@, recommended_only, 0) is None,
        },
{
    let n = catalog.len();
    let mut i: usize = 0;
    while i < n
        invariant
            n == catalog@.len(),
            i <= n,
            first_model_where(catalog@, recommended_only, 0) == first_model_where(
                catalog@,
                recommended_only,
                i as int,
            ),
        decreases n - i,
    {
        if catalog[i].installed && (!recommended_only || catalog[i].recommended) {
            return Some(i);
        }
        i = i + 1;
    }
    None
}

/// Index of the model a configured dictation uses when no installed model is
/// selected.
pub fn choose_fallback_model(catalog: &Vec<ModelStatus>) -> (index: Option<usize>)
    ensures
        match index {
            Some(i) => spec_fallback_model(catalog@) == Some(i as int),
            None => spec_fallback_model(catalog@) is None,
        },
{
    match find_model_where(catalog, true) {
        Some(i) => Some(i),
        None => find_model_where(catalog, false),
    }
}

/// Insertion for the desktop session: which backend applies. Connecting to it
/// and submitting text are left to the caller.
#[derive(Debug, Clone, Copy)]
pub struct DesktopInsertionService {
    environment: DesktopEnvironment,
}

impl DesktopInsertionService {
    pub closed spec fn spec_environment(&self) -> DesktopEnvironment {
        self.environment
    }

    pub fn for_environment(environment: DesktopEnvironment) -> (service: Self)
        ensures
            service.spec_environment() == environment,
    {
        DesktopInsertionService { environment }
    }

    pub fn environment(&self) -> (environment: DesktopEnvironment)
        ensures
            environment == self.spec_environment(),
    {
        self.environment
    }

    /// The insertion capability of the session; an environment without one is
    /// reported as an unavailable backend.
    pub fn capability(&self) -> (result: Result<InsertionCapability, InsertionError>)
        ensures
            match crate::insertion::spec_insertion_choice(
                self.spec_environment().spec_platform(),
                self.spec_environment().spec_linux_display_server(),
            ) {
                Ok((backend, authorization)) => result matches Ok(c) && c.spec_backend() == backend
                    && c.spec_authorization() == authorization,
                Err(e) => result matches Err(err) && err.spec_kind()
                    == InsertionErrorKind::BackendUnavailable && err.spec_message()
                    == crate::insertion::spec_capability_error_message(e),
            },
    {
        match resolve_insertion_capability(self.environment) {
            Ok(capability) => Ok(capability),
            Err(error) => Err(
                InsertionError::with_message(
                    InsertionErrorKind::BackendUnavailable,
                    String::from_str(error.message()),
                ),
            ),
        }
    }
}

/// A connection is dropped after an error that leaves the backend unusable,
/// and kept after the others.
pub fn drops_connection(kind: InsertionErrorKind) -> (drop_it: bool)
    ensures
        drop_it == (kind == InsertionErrorKind::BackendUnavailable || kind
            == InsertionErrorKind::BackendFailure),
{
    match kind {
        InsertionErrorKind::BackendUnavailable | InsertionErrorKind::BackendFailure => true,
        _ => false,
    }
}

/// How a submission proceeds: with the inserter already connected, or by
/// connecting to `backend` first (an EIS connection resumes with the token
/// of the previous one).
pub enum InsertPlan<I> {
    Submit(I),
    Connect { backend: InsertionBackend, restore_token: Option<String> },
}

/// The connection state of desktop insertion: the connected inserter, kept
/// between submissions, and the token with which the Wayland portal resumes
/// its remote-desktop session.
pub struct InsertionConnection<I> {
    inserter: Option<I>,
    restore_token: Option<String>,
}

impl<I> InsertionConnection<I> {
    pub closed spec fn spec_inserter(&self) -> Option<I> {
        self.inserter
    }

    pub closed spec fn spec_restore_token(&self) -> Option<Seq<char>> {
        crate::settings::string_opt_view(self.restore_token)
    }

    pub fn new() -> (connection: Self)
        ensures
            connection.spec_inserter() is None,
            connection.spec_restore_token() is None,
    {
        InsertionConnection { inserter: None, restore_token: None }
    }

    pub fn is_connected(&self) -> (connected: bool)
        ensures
            connected == self.spec_inserter() is Some,
    {
        self.inserter.is_some()
    }

    /// The first step of a submission: an environment without insertion
    /// fails before anything else; a connected inserter is taken out for the
    /// submission; otherwise the capability's backend is to be connected.
    pub fn prepare(&mut self, service: &DesktopInsertionService) -> (result: Result<
        InsertPlan<I>,
        InsertionError,
    >)
        ensures
            final(self).spec_restore_token() == old(self).spec_restore_token(),
            match crate::insertion::spec_insertion_choice(
                service.spec_environment().spec_platform(),
                service.spec_environment().spec_linux_display_server(),
            ) {
                Ok((backend, _)) => match old(self).spec_inserter() {
                    Some(inserter) => result matches Ok(InsertPlan::Submit(i)) && i == inserter
                        && final(self).spec_inserter() is None,
                    None => result matches Ok(InsertPlan::Connect { backend: b, restore_token })
                        && b == backend && crate::settings::string_opt_view(restore_token) == (
                    if backend == InsertionBackend::XdgRemoteDesktopEis {
                        old(self).spec_restore_token()
                    } else {
                        None
                    }) && final(self).spec_inserter() is None,
                },
                Err(e) => result matches Err(err) && err.spec_kind()
                    == InsertionErrorKind::BackendUnavailable && err.spec_message()
                    == crate::insertion::spec_capability_error_message(e) && final(self).spec_inserter()
                    == old(self).spec_inserter(),
            },
    {
        let capability = service.capability()?;
        match self.inserter.take() {
            Some(inserter) => Ok(InsertPlan::Submit(inserter)),
            None => {
                let backend = capability.backend();
                let restore_token = match backend {
                    InsertionBackend::XdgRemoteDesktopEis => match &self.restore_token {
                        Some(token) => Some(token.clone()),
                        None => None,
                    },
                    _ => None,
                };
                Ok(InsertPlan::Connect { backend, restore_token })
            },
        }
    }

    /// A connection to `backend` was made; an EIS connection leaves the token
    /// with which the next one resumes.
    pub fn connected(&mut self, backend: InsertionBackend, restore_token: Option<String>)
        ensures
            final(self).spec_inserter() == old(self).spec_inserter(),
            final(self).spec_restore_token() == if backend == InsertionBackend::XdgRemoteDesktopEis {
                crate::settings::string_opt_view(restore_token)
            } else {
                old(self).spec_restore_token()
            },
    {
        if backend == InsertionBackend::XdgRemoteDesktopEis {
            self.restore_token = restore_token;
        }
    }

    /// After a submission the inserter is kept for the next one, unless the
    /// submission failed in a way that leaves the backend unusable.
    pub fn submitted(&mut self, inserter: I, result: &Result<InsertionReceipt, InsertionError>)
        ensures
            final(self).spec_restore_token() == old(self).spec_restore_token(),
            final(self).spec_inserter() == match result {
                Err(e) => if e.spec_kind() == InsertionErrorKind::BackendUnavailable || e.spec_kind()
                    == InsertionErrorKind::BackendFailure {
                    None
                } else {
                    Some(inserter)
                },
                Ok(_) => Some(inserter),
            },
    {
        let keep = match result {
            Err(e) => !drops_connection(e.kind()),
            Ok(_) => true,
        };
        if keep {
            self.inserter = Some(inserter);
        } else {
            self.inserter = None;
        }
    }
}

proof fn lemma_first_model_where_sound(catalog: Seq<ModelStatus>, recommended_only: bool, from: int)
    ensures
        first_model_where(catalog, recommended_only, from) matches Some(j) ==> 0 <= from <= j
            < catalog.len() && catalog[j].installed && (!recommended_only || catalog[j].recommended),
    decreases catalog.len() - from,
{
    if !(from < 0 || from >= catalog.len()) && !(catalog[from].installed && (!recommended_only
        || catalog[from].recommended)) {
        lemma_first_model_where_sound(catalog, recommended_only, from + 1);
    }
}

proof fn lemma_first_model_where_finds(
    catalog: Seq<ModelStatus>,
    recommended_only: bool,
    from: int,
    k: int,
)
    requires
        0 <= from <= k < catalog.len(),
        catalog[k].installed,
        !recommended_only || catalog[k].recommended,
    ensures
        first_model_where(catalog, recommended_only, from) is Some,
    decreases k - from,
{
    if from < k && !(catalog[from].installed && (!recommended_only || catalog[from].recommended)) {
        lemma_first_model_where_finds(catalog, recommended_only, from + 1, k);
    }
}

/// A configured dictation never refuses for want of a model while one is
/// installed: the fallback names an installed model whenever any model is
/// installed, and an installed recommended model whenever there is one.
/// When there is no fallback, no model is installed.
pub proof fn law_installed_model_is_chosen(catalog: Seq<ModelStatus>)
    ensures
        (exists|k: int| 0 <= k < catalog.len() && #[trigger] catalog[k].installed) ==> (
        spec_fallback_model(catalog) matches Some(j) && 0 <= j < catalog.len()
            && catalog[j].installed),
        (exists|k: int|
            0 <= k < catalog.len() && #[trigger] catalog[k].installed && catalog[k].recommended)
            ==> (spec_fallback_model(catalog) matches Some(j) && 0 <= j < catalog.len()
            && catalog[j].installed && catalog[j].recommended),
        spec_fallback_model(catalog) is None ==> forall|k: int|
            0 <= k < catalog.len() ==> !#[trigger] catalog[k].installed,
{
    lemma_first_model_where_sound(catalog, true, 0);
    lemma_first_model_where_sound(catalog, false, 0);
    if exists|k: int| 0 <= k < catalog.len() && #[trigger] catalog[k].installed {
        let k = choose|k: int| 0 <= k < catalog.len() && #[trigger] catalog[k].installed;
        lemma_first_model_where_finds(catalog, false, 0, k);
    }
    if exists|k: int|
        0 <= k < catalog.len() && #[trigger] catalog[k].installed && catalog[k].recommended {
        let k = choose|k: int|
            0 <= k < catalog.len() && #[trigger] catalog[k].installed && catalog[k].recommended;
        lemma_first_model_where_finds(catalog, true, 0, k);
    }
    assert forall|k: int| 0 <= k < catalog.len() && spec_fallback_model(catalog) is None implies !#[trigger] catalog[k].installed by {
        if catalog[k].installed {
            lemma_first_model_where_finds(catalog, false, 0, k);
        }
    }
}

} // verus!
