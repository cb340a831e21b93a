//! Input-device identities, audio backends and discovery results.
use vstd::prelude::*;

use crate::text::{ascii_lower, ascii_lower_char, chars_of, is_blank, is_blank_str, string_push};

verus! {

/// Stable, backend-qualified identifier for an input device.
#[derive(Debug, Clone, PartialEq, Eq, Hash, PartialOrd, Ord)]
pub struct AudioDeviceId(String);

impl View for AudioDeviceId {
    type V = Seq<char>;

    closed spec fn view(&self) -> Seq<char> {
        self.0@
    }
}

#[derive(Debug, Clone, Copy, PartialEq, Eq, Structural)]
pub struct InvalidAudioDeviceId;

impl InvalidAudioDeviceId {
    /// The human-readable message of the error.
    pub fn message(self) -> (message: &'static str)
        ensures
            message@ == "audio device id cannot be empty"@,
    {
        "audio device id cannot be empty"
    }
}

impl AudioDeviceId {
    /// A device identifier; blank identifiers are rejected.
    pub fn new(value: &str) -> (result: Result<Self, InvalidAudioDeviceId>)
        ensures
            match result {
                Ok(id) => !is_blank(value@) && id@ == value@,
                Err(_) => is_blank(value@),
            },
    {
        if is_blank_str(value) {
            return Err(InvalidAudioDeviceId);
        }
        Ok(AudioDeviceId(value.to_owned()))
    }

    pub fn as_str(&self) -> (s: &str)
        ensures
            s@ == self@,
    {
        self.0.as_str()
    }

    /// The identifier is never blank.
    pub closed spec fn wf(&self) -> bool {
        !is_blank(self.0@)
    }
}

/// Audio host/backend selected by the platform adapter.
#[derive(Debug, Clone, PartialEq, Eq, Hash)]
pub enum AudioBackend {
    PipeWire,
    PulseAudio,
    Alsa,
    Wasapi,
    CoreAudio,
    Jack,
    Asio,
    AAudio,
    Other(String),
}

pub open spec fn is_ascii_alphanumeric(c: char) -> bool {
    ('0' <= c && c <= '9') || ('a' <= c && c <= 'z') || ('A' <= c && c <= 'Z')
}

/// A host name reduced to its lowercase ASCII letters and digits.
pub open spec fn normalized_host_name(name: Seq<char>) -> Seq<char>
    decreases name.len(),
{
    if name.len() == 0 {
        Seq::empty()
    } else if is_ascii_alphanumeric(name.last()) {
        normalized_host_name(name.drop_last()).push(ascii_lower(name.last()))
    } else {
        normalized_host_name(name.drop_last())
    }
}

/// The backend a host name denotes.
pub open spec fn spec_backend_from_host_name(name: Seq<char>) -> AudioBackendKind {
    let n = normalized_host_name(name);
    if n == "pipewire"@ {
        AudioBackendKind::PipeWire
    } else if n == "pulseaudio"@ || n == "pulse"@ {
        AudioBackendKind::PulseAudio
    } else if n == "alsa"@ {
        AudioBackendKind::Alsa
    } else if n == "wasapi"@ {
        AudioBackendKind::Wasapi
    } else if n == "coreaudio"@ {
        AudioBackendKind::CoreAudio
    } else if n == "jack"@ {
        AudioBackendKind::Jack
    } else if n == "asio"@ {
        AudioBackendKind::Asio
    } else if n == "aaudio"@ {
        AudioBackendKind::AAudio
    } else {
        AudioBackendKind::Other(name)
    }
}

pub open spec fn spec_backend_display_name(backend: AudioBackendKind) -> Seq<char> {
    match backend {
        AudioBackendKind::PipeWire => "PipeWire"@,
        AudioBackendKind::PulseAudio => "PulseAudio"@,
        AudioBackendKind::Alsa => "ALSA"@,
        AudioBackendKind::Wasapi => "WASAPI"@,
        AudioBackendKind::CoreAudio => "CoreAudio"@,
        AudioBackendKind::Jack => "JACK"@,
        AudioBackendKind::Asio => "ASIO"@,
        AudioBackendKind::AAudio => "AAudio"@,
        AudioBackendKind::Other(name) => name,
    }
}

/// The mathematical model of an audio backend.
pub enum AudioBackendKind {
    PipeWire,
    PulseAudio,
    Alsa,
    Wasapi,
    CoreAudio,
    Jack,
    Asio,
    AAudio,
    Other(Seq<char>),
}

impl View for AudioBackend {
    type V = AudioBackendKind;

    open spec fn view(&self) -> AudioBackendKind {
        match self {
            AudioBackend::PipeWire => AudioBackendKind::PipeWire,
            AudioBackend::PulseAudio => AudioBackendKind::PulseAudio,
            AudioBackend::Alsa => AudioBackendKind::Alsa,
            AudioBackend::Wasapi => AudioBackendKind::Wasapi,
            AudioBackend::CoreAudio => AudioBackendKind::CoreAudio,
            AudioBackend::Jack => AudioBackendKind::Jack,
            AudioBackend::Asio => AudioBackendKind::Asio,
            AudioBackend::AAudio => AudioBackendKind::AAudio,
            AudioBackend::Other(name) => AudioBackendKind::Other(name@),
        }
    }
}

fn normalize_host_name(name: &str) -> (n: Vec<char>)
    ensures
        n@ == normalized_host_name(name@),
{
    let chars = chars_of(name);
    let mut out: Vec<char> = Vec::new();
    let mut i: usize = 0;
    while i < chars.len()
        invariant
            chars@ == name@,
            i <= chars@.len(),
            out@ == normalized_host_name(chars@.subrange(0, i as int)),
        decreases chars@.len() - i,
    {
        let c = chars[i];
        assert(chars@.subrange(0, i + 1).drop_last() =~= chars@.subrange(0, i as int));
        if ('0' <= c && c <= '9') || ('a' <= c && c <= 'z') || ('A' <= c && c <= 'Z') {
            out.push(ascii_lower_char(c));
        }
        i = i + 1;
    }
    assert(chars@.subrange(0, chars@.len() as int) =~= name@);
    out
}

fn chars_equal_str(a: &Vec<char>, b: &str) -> (eq: bool)
    ensures
        eq == (a@ == b@),
{
    let y = chars_of(b);
    if a.len() != y.len() {
        return false;
    }
    let mut i: usize = 0;
    while i < a.len()
        invariant
            y@ == b@,
            a@.len() == y@.len(),
            i <= a@.len(),
            forall|j: int| 0 <= j < i ==> a@[j] == y@[j],
        decreases a@.len() - i,
    {
        if a[i] != y[i] {
            return false;
        }
        i = i + 1;
    }
    assert(a@ =~= y@);
    true
}

impl AudioBackend {
    /// The backend a host name denotes; case, spaces and punctuation are ignored,
    /// and unknown hosts stay visible by name.
    pub fn from_host_name(name: &str) -> (backend: Self)
        ensures
            backend@ == spec_backend_from_host_name(name@),
    {
        let n = normalize_host_name(name);
        if chars_equal_str(&n, "pipewire") {
            AudioBackend::PipeWire
        } else if chars_equal_str(&n, "pulseaudio") || chars_equal_str(&n, "pulse") {
            AudioBackend::PulseAudio
        } else if chars_equal_str(&n, "alsa") {
            AudioBackend::Alsa
        } else if chars_equal_str(&n, "wasapi") {
            AudioBackend::Wasapi
        } else if chars_equal_str(&n, "coreaudio") {
            AudioBackend::CoreAudio
        } else if chars_equal_str(&n, "jack") {
            AudioBackend::Jack
        } else if chars_equal_str(&n, "asio") {
            AudioBackend::Asio
        } else if chars_equal_str(&n, "aaudio") {
            AudioBackend::AAudio
        } else {
            AudioBackend::Other(name.to_owned())
        }
    }

    /// The display name of the backend.
    pub fn name(&self) -> (name: String)
        ensures
            name@ == spec_backend_display_name(self@),
    {
        match self {
            AudioBackend::PipeWire => String::from_str("PipeWire"),
            AudioBackend::PulseAudio => String::from_str("PulseAudio"),
            AudioBackend::Alsa => String::from_str("ALSA"),
            AudioBackend::Wasapi => String::from_str("WASAPI"),
            AudioBackend::CoreAudio => String::from_str("CoreAudio"),
            AudioBackend::Jack => String::from_str("JACK"),
            AudioBackend::Asio => String::from_str("ASIO"),
            AudioBackend::AAudio => String::from_str("AAudio"),
            AudioBackend::Other(name) => name.clone(),
        }
    }
}

/// Preference order among audio hosts: lower is preferred. Desktop-native
/// servers come first, then ALSA, then pro-audio hosts, then unknown hosts.
pub open spec fn spec_host_priority(backend: AudioBackendKind) -> u8 {
    match backend {
        AudioBackendKind::PipeWire => 0,
        AudioBackendKind::PulseAudio => 1,
        AudioBackendKind::Wasapi | AudioBackendKind::CoreAudio => 0,
        AudioBackendKind::Alsa => 2,
        AudioBackendKind::Jack | AudioBackendKind::Asio => 3,
        AudioBackendKind::AAudio => 0,
        AudioBackendKind::Other(_) => 10,
    }
}

/// The preference rank of the host named `name` (lower is preferred).
pub fn host_priority(name: &str) -> (priority: u8)
    ensures
        priority == spec_host_priority(spec_backend_from_host_name(name@)),
{
    match AudioBackend::from_host_name(name) {
        AudioBackend::PipeWire => 0,
        AudioBackend::PulseAudio => 1,
        AudioBackend::Wasapi | AudioBackend::CoreAudio => 0,
        AudioBackend::Alsa => 2,
        AudioBackend::Jack | AudioBackend::Asio => 3,
        AudioBackend::AAudio => 0,
        AudioBackend::Other(_) => 10,
    }
}

/// Device-native sample representation. Conversion/resampling belongs downstream.
#[derive(Debug, Clone, PartialEq, Eq, Hash)]
pub enum AudioSampleFormat {
    F32,
    F64,
    I8,
    I16,
    I24,
    I32,
    I64,
    U8,
    U16,
    U24,
    U32,
    U64,
    DsdU8,
    DsdU16,
    DsdU32,
    Other(String),
}

pub open spec fn spec_sample_format_name(format: AudioSampleFormat) -> Seq<char> {
    match format {
        AudioSampleFormat::F32 => "f32"@,
        AudioSampleFormat::F64 => "f64"@,
        AudioSampleFormat::I8 => "i8"@,
        AudioSampleFormat::I16 => "i16"@,
        AudioSampleFormat::I24 => "i24"@,
        AudioSampleFormat::I32 => "i32"@,
        AudioSampleFormat::I64 => "i64"@,
        AudioSampleFormat::U8 => "u8"@,
        AudioSampleFormat::U16 => "u16"@,
        AudioSampleFormat::U24 => "u24"@,
        AudioSampleFormat::U32 => "u32"@,
        AudioSampleFormat::U64 => "u64"@,
        AudioSampleFormat::DsdU8 => "dsd-u8"@,
        AudioSampleFormat::DsdU16 => "dsd-u16"@,
        AudioSampleFormat::DsdU32 => "dsd-u32"@,
        AudioSampleFormat::Other(name) => name@,
    }
}

impl AudioSampleFormat {
    /// The wire name of the sample format.
    pub fn name(&self) -> (name: String)
        ensures
            name@ == spec_sample_format_name(*self),
    {
        match self {
            AudioSampleFormat::F32 => String::from_str("f32"),
            AudioSampleFormat::F64 => String::from_str("f64"),
            AudioSampleFormat::I8 => String::from_str("i8"),
            AudioSampleFormat::I16 => String::from_str("i16"),
            AudioSampleFormat::I24 => String::from_str("i24"),
            AudioSampleFormat::I32 => String::from_str("i32"),
            AudioSampleFormat::I64 => String::from_str("i64"),
            AudioSampleFormat::U8 => String::from_str("u8"),
            AudioSampleFormat::U16 => String::from_str("u16"),
            AudioSampleFormat::U24 => String::from_str("u24"),
            AudioSampleFormat::U32 => String::from_str("u32"),
            AudioSampleFormat::U64 => String::from_str("u64"),
            AudioSampleFormat::DsdU8 => String::from_str("dsd-u8"),
            AudioSampleFormat::DsdU16 => String::from_str("dsd-u16"),
            AudioSampleFormat::DsdU32 => String::from_str("dsd-u32"),
            AudioSampleFormat::Other(name) => name.clone(),
        }
    }
}

#[derive(Debug, Clone, PartialEq, Eq)]
pub struct AudioStreamConfig {
    pub channels: u16,
    pub sample_rate_hz: u32,
    pub sample_format: AudioSampleFormat,
}

#[derive(Debug, Clone, PartialEq, Eq)]
pub struct InputDeviceInfo {
    pub id: AudioDeviceId,
    pub name: String,
    pub backend: AudioBackend,
    pub is_default: bool,
    pub default_config: Option<AudioStreamConfig>,
}

/// Cross-runtime failure categories used by diagnostics and recovery policy.
#[derive(Debug, Clone, Copy, PartialEq, Eq, Hash, Structural)]
pub enum AudioFailureKind {
    NoInputDevices,
    DeviceBusy,
    DeviceChanged,
    DeviceNotAvailable,
    BackendUnavailable,
    InvalidInput,
    PermissionDenied,
    RealtimeDenied,
    ResourceExhausted,
    StreamInvalidated,
    UnsupportedConfig,
    UnsupportedOperation,
    Xrun,
    BackendError,
    Other,
}

pub open spec fn spec_failure_kind_name(kind: AudioFailureKind) -> Seq<char> {
    match kind {
        AudioFailureKind::NoInputDevices => "no_input_devices"@,
        AudioFailureKind::DeviceBusy => "device_busy"@,
        AudioFailureKind::DeviceChanged => "device_changed"@,
        AudioFailureKind::DeviceNotAvailable => "device_not_available"@,
        AudioFailureKind::BackendUnavailable => "backend_unavailable"@,
        AudioFailureKind::InvalidInput => "invalid_input"@,
        AudioFailureKind::PermissionDenied => "permission_denied"@,
        AudioFailureKind::RealtimeDenied => "realtime_denied"@,
        AudioFailureKind::ResourceExhausted => "resource_exhausted"@,
        AudioFailureKind::StreamInvalidated => "stream_invalidated"@,
        AudioFailureKind::UnsupportedConfig => "unsupported_config"@,
        AudioFailureKind::UnsupportedOperation => "unsupported_operation"@,
        AudioFailureKind::Xrun => "xrun"@,
        AudioFailureKind::BackendError => "backend_error"@,
        AudioFailureKind::Other => "other"@,
    }
}

impl AudioFailureKind {
    /// The wire name of the failure kind.
    pub fn name(self) -> (name: &'static str)
        ensures
            name@ == spec_failure_kind_name(self),
    {
        match self {
            AudioFailureKind::NoInputDevices => "no_input_devices",
            AudioFailureKind::DeviceBusy => "device_busy",
            AudioFailureKind::DeviceChanged => "device_changed",
            AudioFailureKind::DeviceNotAvailable => "device_not_available",
            AudioFailureKind::BackendUnavailable => "backend_unavailable",
            AudioFailureKind::InvalidInput => "invalid_input",
            AudioFailureKind::PermissionDenied => "permission_denied",
            AudioFailureKind::RealtimeDenied => "realtime_denied",
            AudioFailureKind::ResourceExhausted => "resource_exhausted",
            AudioFailureKind::StreamInvalidated => "stream_invalidated",
            AudioFailureKind::UnsupportedConfig => "unsupported_config",
            AudioFailureKind::UnsupportedOperation => "unsupported_operation",
            AudioFailureKind::Xrun => "xrun",
            AudioFailureKind::BackendError => "backend_error",
            AudioFailureKind::Other => "other",
        }
    }
}

#[derive(Debug, Clone, PartialEq, Eq)]
pub struct AudioFailure {
    pub backend: Option<AudioBackend>,
    pub device_id: Option<AudioDeviceId>,
    pub kind: AudioFailureKind,
    pub message: String,
}

#[derive(Debug, Clone, PartialEq, Eq)]
pub struct InputDiscovery {
    pub selected_backend: Option<AudioBackend>,
    pub devices: Vec<InputDeviceInfo>,
    pub failures: Vec<AudioFailure>,
}

impl Default for InputDiscovery {
    fn default() -> (discovery: Self)
        ensures
            discovery.selected_backend is None,
            discovery.devices@.len() == 0,
            discovery.failures@.len() == 0,
    {
        InputDiscovery { selected_backend: None, devices: Vec::new(), failures: Vec::new() }
    }
}

impl InputDiscovery {
    /// A discovery is usable when it selected a backend and found a device.
    pub fn has_usable_input(&self) -> (usable: bool)
        ensures
            usable == (self.selected_backend is Some && self.devices@.len() > 0),
    {
        self.selected_backend.is_some() && self.devices.len() > 0
    }
}

/// Runtime adapter contract for discovering microphone/input devices.
pub trait InputDeviceDiscovery {
    fn discover_input_devices(&self) -> InputDiscovery;
}

} // verus!
