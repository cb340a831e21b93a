//! What the desktop shell records in the dictation history: the provenance of
//! a dictation, the record built from a finished dictation or from a failed
//! insertion, and the names shown for stored values.
use vstd::prelude::*;

use crate::desktop::{CommandErrorDto, DictationReportDto};
use crate::settings::string_opt_view;
use crate::storage::{DeliveryState, HistoryEntry, InvocationSource, NewHistoryEntry, StorageError};
use crate::text::{is_blank, is_blank_str};

verus! {

/// Who started a dictation.
#[derive(Debug, Clone, Copy, PartialEq, Eq, Structural)]
pub enum InvocationOrigin {
    Shortcut,
    DesktopUi,
}

impl From<InvocationOrigin> for InvocationSource {
    fn from(origin: InvocationOrigin) -> (source: Self) {
        match origin {
            InvocationOrigin::Shortcut => InvocationSource::Shortcut,
            InvocationOrigin::DesktopUi => InvocationSource::DesktopUi,
        }
    }
}

impl vstd::std_specs::convert::FromSpecImpl<InvocationOrigin> for InvocationSource {
    open spec fn obeys_from_spec() -> bool {
        true
    }

    open spec fn from_spec(origin: InvocationOrigin) -> Self {
        spec_source_of(origin)
    }
}

/// The stored source of a dictation started from `origin`.
pub open spec fn spec_source_of(origin: InvocationOrigin) -> InvocationSource {
    match origin {
        InvocationOrigin::Shortcut => InvocationSource::Shortcut,
        InvocationOrigin::DesktopUi => InvocationSource::DesktopUi,
    }
}

pub open spec fn spec_invocation_source_name(source: InvocationSource) -> Seq<char> {
    match source {
        InvocationSource::Shortcut => "shortcut"@,
        InvocationSource::DesktopUi => "desktopUi"@,
    }
}

pub open spec fn spec_delivery_state_name(state: DeliveryState) -> Seq<char> {
    match state {
        DeliveryState::TranscribedOnly => "transcribedOnly"@,
        DeliveryState::BackendSubmittedUnverified => "backendSubmittedUnverified"@,
        DeliveryState::DeliveredVerified => "deliveredVerified"@,
        DeliveryState::InsertionFailed => "insertionFailed"@,
    }
}

/// The name an invocation source is shown under.
pub fn invocation_source_name(source: InvocationSource) -> (name: &'static str)
    ensures
        name@ == spec_invocation_source_name(source),
{
    match source {
        InvocationSource::Shortcut => "shortcut",
        InvocationSource::DesktopUi => "desktopUi",
    }
}

/// The name a delivery state is shown under.
pub fn delivery_state_name(state: DeliveryState) -> (name: &'static str)
    ensures
        name@ == spec_delivery_state_name(state),
{
    match state {
        DeliveryState::TranscribedOnly => "transcribedOnly",
        DeliveryState::BackendSubmittedUnverified => "backendSubmittedUnverified",
        DeliveryState::DeliveredVerified => "deliveredVerified",
        DeliveryState::InsertionFailed => "insertionFailed",
    }
}

/// Delivery names never upgrade a submission the backend could not verify:
/// distinct states are shown under distinct names.
pub proof fn law_delivery_names_are_distinct(a: DeliveryState, b: DeliveryState)
    requires
        a != b,
    ensures
        spec_delivery_state_name(a) != spec_delivery_state_name(b),
{
    reveal_strlit("transcribedOnly");
    reveal_strlit("backendSubmittedUnverified");
    reveal_strlit("deliveredVerified");
    reveal_strlit("insertionFailed");
    assert(spec_delivery_state_name(a).len() != spec_delivery_state_name(b).len()
        || spec_delivery_state_name(a)[0] != spec_delivery_state_name(b)[0]);
}

#[derive(Debug, Clone, PartialEq, Eq)]
pub struct HistoryHealthDto {
    pub available: bool,
    pub database_path: String,
    pub last_error: Option<String>,
}

#[derive(Debug, Clone, PartialEq, Eq)]
pub struct HistoryEntryDto {
    pub id: i64,
    pub created_at_unix_ms: i64,
    pub transcript: String,
    pub invocation_source: &'static str,
    pub engine_id: String,
    pub model_id: String,
    pub detected_language: Option<String>,
    pub insertion_backend: Option<String>,
    pub delivery_state: &'static str,
}

impl HistoryEntryDto {
    pub fn from_entry(entry: HistoryEntry) -> (dto: Self)
        ensures
            dto.id == entry.id,
            dto.created_at_unix_ms == entry.created_at_unix_ms,
            dto.transcript@ == entry.transcript@,
            dto.invocation_source@ == spec_invocation_source_name(entry.invocation_source),
            dto.engine_id@ == entry.engine_id@,
            dto.model_id@ == entry.model_id@,
            string_opt_view(dto.detected_language) == string_opt_view(entry.detected_language),
            string_opt_view(dto.insertion_backend) == string_opt_view(entry.insertion_backend),
            dto.delivery_state@ == spec_delivery_state_name(entry.delivery_state),
    {
        HistoryEntryDto {
            id: entry.id,
            created_at_unix_ms: entry.created_at_unix_ms,
            transcript: entry.transcript,
            invocation_source: invocation_source_name(entry.invocation_source),
            engine_id: entry.engine_id,
            model_id: entry.model_id,
            detected_language: entry.detected_language,
            insertion_backend: entry.insertion_backend,
            delivery_state: delivery_state_name(entry.delivery_state),
        }
    }
}

/// Why the metadata of a finished dictation cannot be recorded, if it cannot.
pub open spec fn spec_report_problem(report: DictationReportDto) -> Option<Seq<char>> {
    if is_blank(report.engine_id@) {
        Some("dictation report is missing engineId"@)
    } else if is_blank(report.model_id@) {
        Some("dictation report is missing modelId"@)
    } else if string_opt_view(report.detected_language) matches Some(l) && is_blank(l) {
        Some("dictation report contains blank detectedLanguage"@)
    } else {
        None
    }
}

/// The history record of a finished dictation: its transcript and metadata,
/// delivered-verified only when the backend verified the delivery.
pub fn report_history_entry(
    report: &DictationReportDto,
    origin: InvocationOrigin,
    created_at_unix_ms: i64,
) -> (result: Result<NewHistoryEntry, StorageError>)
    ensures
        match result {
            Ok(entry) => {
                &&& spec_report_problem(*report) is None
                &&& entry.created_at_unix_ms == created_at_unix_ms
                &&& entry.transcript@ == report.text@
                &&& entry.invocation_source == spec_source_of(origin)
                &&& entry.engine_id@ == report.engine_id@
                &&& entry.model_id@ == report.model_id@
                &&& string_opt_view(entry.detected_language) == string_opt_view(report.detected_language)
                &&& string_opt_view(entry.insertion_backend) == Some(report.insertion_backend@)
                &&& entry.delivery_state == (if report.semantic_delivery_verified {
                    DeliveryState::DeliveredVerified
                } else {
                    DeliveryState::BackendSubmittedUnverified
                })
            },
            Err(StorageError::CorruptData(m)) => spec_report_problem(*report) == Some(m@),
            Err(_) => false,
        },
{
    if is_blank_str(report.engine_id.as_str()) {
        return Err(StorageError::CorruptData(String::from_str("dictation report is missing engineId")));
    }
    if is_blank_str(report.model_id.as_str()) {
        return Err(StorageError::CorruptData(String::from_str("dictation report is missing modelId")));
    }
    let detected_language = match &report.detected_language {
        Some(language) => {
            if is_blank_str(language.as_str()) {
                return Err(
                    StorageError::CorruptData(
                        String::from_str("dictation report contains blank detectedLanguage"),
                    ),
                );
            }
            Some(language.clone())
        },
        None => None,
    };
    Ok(
        NewHistoryEntry {
            created_at_unix_ms,
            transcript: report.text.clone(),
            invocation_source: InvocationSource::from(origin),
            engine_id: report.engine_id.clone(),
            model_id: report.model_id.clone(),
            detected_language,
            insertion_backend: Some(report.insertion_backend.clone()),
            delivery_state: if report.semantic_delivery_verified {
                DeliveryState::DeliveredVerified
            } else {
                DeliveryState::BackendSubmittedUnverified
            },
        },
    )
}

/// Whether `code` names an insertion failure.
pub open spec fn is_insertion_code(code: Seq<char>) -> bool {
    code.len() >= 10 && code.subrange(0, 10) == "insertion_"@
}

fn starts_with_insertion(code: &str) -> (found: bool)
    ensures
        found == is_insertion_code(code@),
{
    let chars = crate::text::chars_of(code);
    let prefix = crate::text::chars_of("insertion_");
    proof {
        reveal_strlit("insertion_");
    }
    if chars.len() < 10 {
        return false;
    }
    let mut i: usize = 0;
    while i < 10
        invariant
            chars@ == code@,
            prefix@ == "insertion_"@,
            prefix@.len() == 10,
            chars@.len() >= 10,
            i <= 10,
            forall|j: int| 0 <= j < i ==> chars@[j] == prefix@[j],
        decreases 10 - i,
    {
        if chars[i] != prefix[i] {
            assert(code@.subrange(0, 10)[i as int] != "insertion_"@[i as int]);
            return false;
        }
        i = i + 1;
    }
    assert(code@.subrange(0, 10) =~= "insertion_"@);
    true
}

/// The history record of a failed insertion: the recoverable transcript, kept
/// without inventing its recognizer provenance. Only insertion failures with
/// a recoverable transcript are recorded.
pub fn failure_history_entry(
    error: &CommandErrorDto,
    origin: InvocationOrigin,
    created_at_unix_ms: i64,
) -> (entry: Option<NewHistoryEntry>)
    ensures
        match entry {
            Some(e) => {
                &&& error.recoverable_text is Some
                &&& is_insertion_code(error.code@)
                &&& e.created_at_unix_ms == created_at_unix_ms
                &&& e.transcript@ == error.recoverable_text->0@
                &&& e.invocation_source == spec_source_of(origin)
                &&& e.engine_id@ == "unknown"@
                &&& e.model_id@ == "unknown"@
                &&& e.detected_language is None
                &&& e.insertion_backend is None
                &&& e.delivery_state == DeliveryState::InsertionFailed
            },
            None => error.recoverable_text is None || !is_insertion_code(error.code@),
        },
{
    let text = match &error.recoverable_text {
        Some(text) => text,
        None => {
            return None;
        },
    };
    if !starts_with_insertion(error.code) {
        return None;
    }
    Some(
        NewHistoryEntry {
            created_at_unix_ms,
            transcript: text.clone(),
            invocation_source: InvocationSource::from(origin),
            engine_id: String::from_str("unknown"),
            model_id: String::from_str("unknown"),
            detected_language: None,
            insertion_backend: None,
            delivery_state: DeliveryState::InsertionFailed,
        },
    )
}

/// Every failed insertion is reported under an insertion code, so the
/// transcript it returns for recovery is also kept in the history.
pub proof fn law_failed_insertions_are_recorded(kind: crate::insertion::InsertionErrorKind)
    ensures
        is_insertion_code(crate::desktop::spec_insertion_error_code(kind)),
{
    reveal_strlit("insertion_");
    reveal_strlit("insertion_invalid_text");
    reveal_strlit("insertion_permission_denied");
    reveal_strlit("insertion_backend_unavailable");
    reveal_strlit("insertion_partial_submission");
    reveal_strlit("insertion_backend_failed");
    assert(crate::desktop::spec_insertion_error_code(kind).subrange(0, 10) =~= "insertion_"@);
}

} // verus!
