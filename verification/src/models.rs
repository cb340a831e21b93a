//! The speech-model catalog, memory-based recommendation, and the checks a
//! model download must pass.
use vstd::prelude::*;

use crate::text::{decimal, str_eq, u64_to_decimal};

verus! {

pub const GIB: u64 = 1073741824;

/// Slack above the advertised size that a download may use.
pub const DOWNLOAD_SLACK_BYTES: u64 = 33554432;

#[derive(Debug, Clone, Copy, PartialEq, Eq, Structural)]
pub enum ModelTier {
    Fast,
    Balanced,
    Quality,
}

impl ModelTier {
    pub fn as_str(self) -> (name: &'static str)
        ensures
            name@ == match self {
                ModelTier::Fast => "fast"@,
                ModelTier::Balanced => "balanced"@,
                ModelTier::Quality => "quality"@,
            },
    {
        match self {
            ModelTier::Fast => "fast",
            ModelTier::Balanced => "balanced",
            ModelTier::Quality => "quality",
        }
    }
}

#[derive(Debug, Clone, Copy, PartialEq, Eq)]
pub struct ModelSpec {
    id: &'static str,
    name: &'static str,
    description: &'static str,
    tier: ModelTier,
    filename: &'static str,
    url: &'static str,
    advertised_bytes: u64,
}

impl ModelSpec {
    pub closed spec fn spec_id(self) -> Seq<char> {
        self.id@
    }

    pub closed spec fn spec_name(self) -> Seq<char> {
        self.name@
    }

    pub closed spec fn spec_description(self) -> Seq<char> {
        self.description@
    }

    pub closed spec fn spec_tier(self) -> ModelTier {
        self.tier
    }

    pub closed spec fn spec_filename(self) -> Seq<char> {
        self.filename@
    }

    pub closed spec fn spec_url(self) -> Seq<char> {
        self.url@
    }

    pub closed spec fn spec_advertised_bytes(self) -> u64 {
        self.advertised_bytes
    }

    pub fn id(self) -> (id: &'static str)
        ensures
            id@ == self.spec_id(),
    {
        self.id
    }

    pub fn name(self) -> (name: &'static str)
        ensures
            name@ == self.spec_name(),
    {
        self.name
    }

    pub fn description(self) -> (description: &'static str)
        ensures
            description@ == self.spec_description(),
    {
        self.description
    }

    pub fn tier(self) -> (tier: ModelTier)
        ensures
            tier == self.spec_tier(),
    {
        self.tier
    }

    pub fn filename(self) -> (filename: &'static str)
        ensures
            filename@ == self.spec_filename(),
    {
        self.filename
    }

    pub fn url(self) -> (url: &'static str)
        ensures
            url@ == self.spec_url(),
    {
        self.url
    }

    pub fn advertised_bytes(self) -> (bytes: u64)
        ensures
            bytes == self.spec_advertised_bytes(),
    {
        self.advertised_bytes
    }

    /// The largest download accepted for this model: its advertised size plus slack.
    pub fn maximum_download_bytes(self) -> (bytes: u64)
        requires
            self.spec_advertised_bytes() + DOWNLOAD_SLACK_BYTES <= u64::MAX,
        ensures
            bytes == self.spec_advertised_bytes() + DOWNLOAD_SLACK_BYTES,
    {
        self.advertised_bytes + DOWNLOAD_SLACK_BYTES
    }
}

pub open spec fn spec_catalog_ids() -> Seq<Seq<char>> {
    seq!["whisper-base-q5km"@, "whisper-small-q5km"@, "whisper-large-v3-turbo-q4km"@]
}

/// The catalog of installable models, from the lightest to the heaviest.
pub fn model_catalog() -> (catalog: Vec<ModelSpec>)
    ensures
        catalog@.len() == 3,
        forall|i: int| 0 <= i < 3 ==> #[trigger] catalog@[i].spec_id() == spec_catalog_ids()[i],
        catalog@[0].spec_tier() == ModelTier::Fast,
        catalog@[1].spec_tier() == ModelTier::Balanced,
        catalog@[2].spec_tier() == ModelTier::Quality,
        forall|i: int|
            0 <= i < 3 ==> #[trigger] catalog@[i].spec_advertised_bytes() + DOWNLOAD_SLACK_BYTES
                <= u64::MAX,
{
    let mut catalog = Vec::new();
    catalog.push(
        ModelSpec {
            id: "whisper-base-q5km",
            name: "Whisper Base Q5",
            description: "Lowest memory footprint for fast local dictation.",
            tier: ModelTier::Fast,
            filename: "whisper-base-Q5_K_M.gguf",
            url: "https://huggingface.co/handy-computer/whisper-base-gguf/resolve/main/whisper-base-Q5_K_M.gguf",
            advertised_bytes: 63963136,
        },
    );
    catalog.push(
        ModelSpec {
            id: "whisper-small-q5km",
            name: "Whisper Small Q5",
            description: "Balanced accuracy and resource use; recommended for most systems.",
            tier: ModelTier::Balanced,
            filename: "whisper-small-Q5_K_M.gguf",
            url: "https://huggingface.co/handy-computer/whisper-small-gguf/resolve/main/whisper-small-Q5_K_M.gguf",
            advertised_bytes: 193986560,
        },
    );
    catalog.push(
        ModelSpec {
            id: "whisper-large-v3-turbo-q4km",
            name: "Whisper Large v3 Turbo Q4",
            description: "Higher-quality local transcription for systems with more memory.",
            tier: ModelTier::Quality,
            filename: "whisper-large-v3-turbo-Q4_K_M.gguf",
            url: "https://huggingface.co/handy-computer/whisper-large-v3-turbo-gguf/resolve/main/whisper-large-v3-turbo-Q4_K_M.gguf",
            advertised_bytes: 535822336,
        },
    );
    catalog
}

#[derive(Debug, Clone, Copy, PartialEq, Eq, Structural)]
pub enum ModelErrorKind {
    UnknownModel,
    Busy,
    Network,
    DownloadInvalid,
    Validation,
    Io,
}

#[derive(Debug, Clone, PartialEq, Eq)]
pub struct ModelError {
    kind: ModelErrorKind,
    message: String,
}

impl ModelError {
    pub closed spec fn spec_kind(&self) -> ModelErrorKind {
        self.kind
    }

    pub closed spec fn spec_message(&self) -> Seq<char> {
        self.message@
    }

    pub fn new(kind: ModelErrorKind, message: String) -> (error: Self)
        ensures
            error.spec_kind() == kind,
            error.spec_message() == message@,
    {
        ModelError { kind, message }
    }

    pub fn kind(&self) -> (kind: ModelErrorKind)
        ensures
            kind == self.spec_kind(),
    {
        self.kind
    }

    pub fn message(&self) -> (message: &str)
        ensures
            message@ == self.spec_message(),
    {
        self.message.as_str()
    }
}

#[derive(Debug, Clone, PartialEq, Eq)]
pub struct ModelStatus {
    pub spec: ModelSpec,
    pub installed: bool,
    pub installed_bytes: Option<u64>,
    pub recommended: bool,
}

/// The status of a catalog model given the size of its installed file, if it
/// is installed, and the identifier of the model recommended for this machine.
pub fn model_status(spec: ModelSpec, installed_bytes: Option<u64>, recommended_id: &str) -> (status:
    ModelStatus)
    ensures
        status.spec == spec,
        status.installed == installed_bytes is Some,
        status.installed_bytes == installed_bytes,
        status.recommended == (spec.spec_id() == recommended_id@),
{
    ModelStatus {
        spec,
        installed: installed_bytes.is_some(),
        installed_bytes,
        recommended: str_eq(spec.id(), recommended_id),
    }
}

/// The statuses of the whole catalog, in catalog order; `installed_bytes`
/// holds the installed size of each catalog model, in the same order.
pub fn catalog_statuses(installed_bytes: &Vec<Option<u64>>, recommended_id: &str) -> (statuses: Vec<
    ModelStatus,
>)
    requires
        installed_bytes@.len() == 3,
    ensures
        statuses@.len() == 3,
        forall|i: int|
            0 <= i < 3 ==> {
                &&& (#[trigger] statuses@[i]).spec.spec_id() == spec_catalog_ids()[i]
                &&& statuses@[i].installed_bytes == installed_bytes@[i]
                &&& statuses@[i].installed == installed_bytes@[i] is Some
                &&& statuses@[i].recommended == (spec_catalog_ids()[i] == recommended_id@)
            },
{
    let catalog = model_catalog();
    let mut statuses: Vec<ModelStatus> = Vec::new();
    let mut i: usize = 0;
    while i < 3
        invariant
            catalog@.len() == 3,
            forall|k: int| 0 <= k < 3 ==> #[trigger] catalog@[k].spec_id() == spec_catalog_ids()[k],
            installed_bytes@.len() == 3,
            i <= 3,
            statuses@.len() == i,
            forall|k: int|
                0 <= k < i ==> {
                    &&& (#[trigger] statuses@[k]).spec.spec_id() == spec_catalog_ids()[k]
                    &&& statuses@[k].installed_bytes == installed_bytes@[k]
                    &&& statuses@[k].installed == installed_bytes@[k] is Some
                    &&& statuses@[k].recommended == (spec_catalog_ids()[k] == recommended_id@)
                },
        decreases 3 - i,
    {
        let status = model_status(catalog[i], installed_bytes[i], recommended_id);
        statuses.push(status);
        i = i + 1;
    }
    statuses
}

/// The catalog entry whose identifier is `id`.
pub fn find_model(id: &str) -> (result: Result<ModelSpec, ModelError>)
    ensures
        match result {
            Ok(spec) => spec.spec_id() == id@ && spec_catalog_ids().contains(id@),
            Err(e) => !spec_catalog_ids().contains(id@) && e.spec_kind()
                == ModelErrorKind::UnknownModel && e.spec_message() == "unknown BLCVoice model id "@
                + id@,
        },
{
    let catalog = model_catalog();
    let mut i: usize = 0;
    while i < catalog.len()
        invariant
            catalog@.len() == 3,
            forall|k: int| 0 <= k < 3 ==> #[trigger] catalog@[k].spec_id() == spec_catalog_ids()[k],
            i <= 3,
            forall|k: int| 0 <= k < i ==> spec_catalog_ids()[k] != id@,
        decreases 3 - i,
    {
        let spec = catalog[i];
        if str_eq(spec.id(), id) {
            assert(spec_catalog_ids()[i as int] == id@);
            return Ok(spec);
        }
        i = i + 1;
    }
    let mut message = String::from_str("unknown BLCVoice model id ");
    message.append(id);
    Err(ModelError::new(ModelErrorKind::UnknownModel, message))
}

/// The model recommended for a machine with `total_memory_bytes` of memory.
pub open spec fn spec_recommend_for_memory(total_memory_bytes: u64) -> Seq<char> {
    if total_memory_bytes < 8 * GIB {
        "whisper-base-q5km"@
    } else if total_memory_bytes < 16 * GIB {
        "whisper-small-q5km"@
    } else {
        "whisper-large-v3-turbo-q4km"@
    }
}

pub fn recommend_for_memory(total_memory_bytes: u64) -> (id: &'static str)
    ensures
        id@ == spec_recommend_for_memory(total_memory_bytes),
{
    if total_memory_bytes < 8 * GIB {
        "whisper-base-q5km"
    } else if total_memory_bytes < 16 * GIB {
        "whisper-small-q5km"
    } else {
        "whisper-large-v3-turbo-q4km"
    }
}

/// More memory never yields a lighter recommendation.
pub proof fn law_recommendation_is_monotonic(a: u64, b: u64)
    requires
        a <= b,
    ensures
        spec_recommend_for_memory(a) == "whisper-large-v3-turbo-q4km"@
            ==> spec_recommend_for_memory(b) == "whisper-large-v3-turbo-q4km"@,
        spec_recommend_for_memory(b) == "whisper-base-q5km"@ ==> spec_recommend_for_memory(a)
            == "whisper-base-q5km"@,
        spec_catalog_ids().contains(spec_recommend_for_memory(a)),
{
    assert(spec_catalog_ids()[0] == "whisper-base-q5km"@);
    assert(spec_catalog_ids()[1] == "whisper-small-q5km"@);
    assert(spec_catalog_ids()[2] == "whisper-large-v3-turbo-q4km"@);
    if spec_recommend_for_memory(b) == "whisper-base-q5km"@ {
        if b >= 8 * GIB {
            reveal_strlit("whisper-base-q5km");
            reveal_strlit("whisper-small-q5km");
            reveal_strlit("whisper-large-v3-turbo-q4km");
            assert(spec_recommend_for_memory(b)[9] != "whisper-base-q5km"@[9]);
        }
    }
    if spec_recommend_for_memory(a) == "whisper-large-v3-turbo-q4km"@ {
        if a < 16 * GIB {
            reveal_strlit("whisper-base-q5km");
            reveal_strlit("whisper-small-q5km");
            reveal_strlit("whisper-large-v3-turbo-q4km");
            assert(spec_recommend_for_memory(a)[9] != "whisper-large-v3-turbo-q4km"@[9]);
        }
    }
}

/// Total physical memory in bytes, as `sysinfo` reports it for this machine, or
/// `None` when the system information could not be read.
#[verifier::external_body]
fn system_total_memory_bytes() -> (bytes: Option<u64>) {
    match sysinfo::System::new_all() {
        Ok(system) => Some(system.total_memory()),
        Err(_) => None,
    }
}

/// The model recommended for the memory the system reported; when no amount
/// could be read, the lightest model.
pub open spec fn spec_recommend_for_reported_memory(total_memory_bytes: Option<u64>) -> Seq<char> {
    match total_memory_bytes {
        Some(bytes) => spec_recommend_for_memory(bytes),
        None => "whisper-base-q5km"@,
    }
}

pub fn recommend_for_reported_memory(total_memory_bytes: Option<u64>) -> (id: &'static str)
    ensures
        id@ == spec_recommend_for_reported_memory(total_memory_bytes),
        spec_catalog_ids().contains(id@),
{
    proof {
        law_recommendation_is_monotonic(0, 0);
    }
    match total_memory_bytes {
        Some(bytes) => {
            proof {
                law_recommendation_is_monotonic(bytes, bytes);
            }
            recommend_for_memory(bytes)
        },
        None => recommend_for_memory(0),
    }
}

/// The model recommended for this machine, from the memory the system
/// reports (a value that differs between machines and calls).
pub fn recommended_model_id() -> (id: &'static str)
    ensures
        spec_catalog_ids().contains(id@),
        exists|memory: Option<u64>| id@ == spec_recommend_for_reported_memory(memory),
{
    let memory = system_total_memory_bytes();
    recommend_for_reported_memory(memory)
}

/// A response announcing more bytes than the model may take is refused before
/// anything is written.
pub fn check_announced_length(spec: ModelSpec, content_length: Option<u64>) -> (result: Result<
    (),
    ModelError,
>)
    requires
        spec.spec_advertised_bytes() + DOWNLOAD_SLACK_BYTES <= u64::MAX,
    ensures
        match result {
            Ok(()) => content_length matches None || content_length->0 <= spec.spec_advertised_bytes()
                + DOWNLOAD_SLACK_BYTES,
            Err(e) => content_length matches Some(n) && n > spec.spec_advertised_bytes()
                + DOWNLOAD_SLACK_BYTES && e.spec_kind() == ModelErrorKind::DownloadInvalid
                && e.spec_message() == spec.spec_name() + " download is unexpectedly large"@,
        },
{
    if let Some(length) = content_length {
        if length > spec.maximum_download_bytes() {
            let mut message = String::from_str(spec.name());
            message.append(" download is unexpectedly large");
            return Err(ModelError::new(ModelErrorKind::DownloadInvalid, message));
        }
    }
    Ok(())
}

/// The running byte count of a download must stay within the model's limit.
pub fn check_download_progress(spec: ModelSpec, downloaded: u64) -> (result: Result<(), ModelError>)
    requires
        spec.spec_advertised_bytes() + DOWNLOAD_SLACK_BYTES <= u64::MAX,
    ensures
        match result {
            Ok(()) => downloaded <= spec.spec_advertised_bytes() + DOWNLOAD_SLACK_BYTES,
            Err(e) => downloaded > spec.spec_advertised_bytes() + DOWNLOAD_SLACK_BYTES
                && e.spec_kind() == ModelErrorKind::DownloadInvalid && e.spec_message()
                == spec.spec_name() + " download exceeded its safety limit"@,
        },
{
    if downloaded > spec.maximum_download_bytes() {
        let mut message = String::from_str(spec.name());
        message.append(" download exceeded its safety limit");
        return Err(ModelError::new(ModelErrorKind::DownloadInvalid, message));
    }
    Ok(())
}

/// A finished download must match its announced length and must not be
/// suspiciously small.
pub fn check_download_complete(
    spec: ModelSpec,
    expected_length: Option<u64>,
    downloaded: u64,
) -> (result: Result<(), ModelError>)
    ensures
        match result {
            Ok(()) => (expected_length matches None || expected_length->0 == downloaded)
                && downloaded >= spec.spec_advertised_bytes() - DOWNLOAD_SLACK_BYTES,
            Err(e) => e.spec_kind() == ModelErrorKind::DownloadInvalid && if expected_length
                matches Some(n) && n != downloaded {
                e.spec_message() == spec.spec_name() + " download was incomplete: expected "@
                    + decimal(expected_length->0 as nat) + " bytes, received "@ + decimal(
                    downloaded as nat,
                )
            } else {
                downloaded < spec.spec_advertised_bytes() - DOWNLOAD_SLACK_BYTES && e.spec_message()
                    == spec.spec_name() + " download is unexpectedly small"@
            },
        },
{
    if let Some(length) = expected_length {
        if length != downloaded {
            let mut message = String::from_str(spec.name());
            message.append(" download was incomplete: expected ");
            message.append(u64_to_decimal(length).as_str());
            message.append(" bytes, received ");
            message.append(u64_to_decimal(downloaded).as_str());
            return Err(ModelError::new(ModelErrorKind::DownloadInvalid, message));
        }
    }
    let floor = spec.advertised_bytes().saturating_sub(DOWNLOAD_SLACK_BYTES);
    if downloaded < floor {
        let mut message = String::from_str(spec.name());
        message.append(" download is unexpectedly small");
        return Err(ModelError::new(ModelErrorKind::DownloadInvalid, message));
    }
    Ok(())
}

} // verus!
