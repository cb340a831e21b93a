//! Dictation history records: their stored names, the checks a record must
//! pass before it is written, the bounds of a listing, and the decision of
//! what a database of a given schema version needs before use.
use vstd::prelude::*;

use crate::text::{decimal, i64_to_decimal, is_blank, is_blank_str, signed_decimal, str_eq};

verus! {

/// Version of the history database layout this library writes.
pub const SCHEMA_VERSION: i64 = 1;

/// Largest number of entries one listing may return.
pub const MAX_LIST_LIMIT: u32 = 500;

#[derive(Debug, Clone, Copy, PartialEq, Eq, Structural)]
pub enum InvocationSource {
    Shortcut,
    DesktopUi,
}

impl InvocationSource {
    pub open spec fn spec_as_str(self) -> Seq<char> {
        match self {
            InvocationSource::Shortcut => "shortcut"@,
            InvocationSource::DesktopUi => "desktop_ui"@,
        }
    }

    /// The name under which the source is stored.
    pub fn as_str(self) -> (name: &'static str)
        ensures
            name@ == self.spec_as_str(),
    {
        match self {
            InvocationSource::Shortcut => "shortcut",
            InvocationSource::DesktopUi => "desktop_ui",
        }
    }

    /// Reads a stored name back; an unknown name means the database is corrupt.
    pub fn parse(value: &str) -> (result: Result<Self, StorageError>)
        ensures
            match result {
                Ok(source) => source.spec_as_str() == value@,
                Err(StorageError::CorruptData(m)) => (forall|s: InvocationSource|
                    #[trigger] s.spec_as_str() != value@) && m@ == "unknown invocation source `"@
                    + value@ + "`"@,
                Err(_) => false,
            },
    {
        if str_eq(value, "shortcut") {
            Ok(InvocationSource::Shortcut)
        } else if str_eq(value, "desktop_ui") {
            Ok(InvocationSource::DesktopUi)
        } else {
            let mut message = String::from_str("unknown invocation source `");
            message.append(value);
            message.append("`");
            proof {
                assert forall|s: InvocationSource| #[trigger] s.spec_as_str() != value@ by {
                    match s {
                        InvocationSource::Shortcut => {},
                        InvocationSource::DesktopUi => {},
                    }
                }
            }
            Err(StorageError::CorruptData(message))
        }
    }
}

#[derive(Debug, Clone, Copy, PartialEq, Eq, Structural)]
pub enum DeliveryState {
    TranscribedOnly,
    BackendSubmittedUnverified,
    DeliveredVerified,
    InsertionFailed,
}

impl DeliveryState {
    pub open spec fn spec_as_str(self) -> Seq<char> {
        match self {
            DeliveryState::TranscribedOnly => "transcribed_only"@,
            DeliveryState::BackendSubmittedUnverified => "backend_submitted_unverified"@,
            DeliveryState::DeliveredVerified => "delivered_verified"@,
            DeliveryState::InsertionFailed => "insertion_failed"@,
        }
    }

    /// The name under which the state is stored.
    pub fn as_str(self) -> (name: &'static str)
        ensures
            name@ == self.spec_as_str(),
    {
        match self {
            DeliveryState::TranscribedOnly => "transcribed_only",
            DeliveryState::BackendSubmittedUnverified => "backend_submitted_unverified",
            DeliveryState::DeliveredVerified => "delivered_verified",
            DeliveryState::InsertionFailed => "insertion_failed",
        }
    }

    /// Reads a stored name back; an unknown name means the database is corrupt.
    pub fn parse(value: &str) -> (result: Result<Self, StorageError>)
        ensures
            match result {
                Ok(state) => state.spec_as_str() == value@,
                Err(StorageError::CorruptData(m)) => (forall|s: DeliveryState|
                    #[trigger] s.spec_as_str() != value@) && m@ == "unknown delivery state `"@
                    + value@ + "`"@,
                Err(_) => false,
            },
    {
        if str_eq(value, "transcribed_only") {
            Ok(DeliveryState::TranscribedOnly)
        } else if str_eq(value, "backend_submitted_unverified") {
            Ok(DeliveryState::BackendSubmittedUnverified)
        } else if str_eq(value, "delivered_verified") {
            Ok(DeliveryState::DeliveredVerified)
        } else if str_eq(value, "insertion_failed") {
            Ok(DeliveryState::InsertionFailed)
        } else {
            let mut message = String::from_str("unknown delivery state `");
            message.append(value);
            message.append("`");
            proof {
                assert forall|s: DeliveryState| #[trigger] s.spec_as_str() != value@ by {
                    match s {
                        DeliveryState::TranscribedOnly => {},
                        DeliveryState::BackendSubmittedUnverified => {},
                        DeliveryState::DeliveredVerified => {},
                        DeliveryState::InsertionFailed => {},
                    }
                }
            }
            Err(StorageError::CorruptData(message))
        }
    }
}

/// Stored names read back as what was stored.
pub proof fn law_stored_names_round_trip(source: InvocationSource, state: DeliveryState)
    ensures
        forall|s: InvocationSource| #[trigger] s.spec_as_str() == source.spec_as_str() ==> s == source,
        forall|d: DeliveryState| #[trigger] d.spec_as_str() == state.spec_as_str() ==> d == state,
{
    reveal_strlit("shortcut");
    reveal_strlit("desktop_ui");
    reveal_strlit("transcribed_only");
    reveal_strlit("backend_submitted_unverified");
    reveal_strlit("delivered_verified");
    reveal_strlit("insertion_failed");
    assert forall|s: InvocationSource| #[trigger] s.spec_as_str() == source.spec_as_str() implies s
        == source by {
        if s != source {
            assert(s.spec_as_str()[0] != source.spec_as_str()[0]);
        }
    }
    assert forall|d: DeliveryState| #[trigger] d.spec_as_str() == state.spec_as_str() implies d
        == state by {
        if d != state {
            assert(d.spec_as_str().len() != state.spec_as_str().len() || d.spec_as_str()[0]
                != state.spec_as_str()[0]);
        }
    }
}

#[derive(Debug, Clone, PartialEq, Eq)]
pub struct NewHistoryEntry {
    pub created_at_unix_ms: i64,
    pub transcript: String,
    pub invocation_source: InvocationSource,
    pub engine_id: String,
    pub model_id: String,
    pub detected_language: Option<String>,
    pub insertion_backend: Option<String>,
    pub delivery_state: DeliveryState,
}

/// Whether an optional value is present but blank.
pub open spec fn present_but_blank(value: Option<String>) -> bool {
    value matches Some(v) && is_blank(v@)
}

/// The message of the first check a new history record fails, if any.
pub open spec fn spec_history_entry_problem(entry: NewHistoryEntry) -> Option<Seq<char>> {
    if is_blank(entry.transcript@) {
        Some("history transcript cannot be empty"@)
    } else if is_blank(entry.engine_id@) {
        Some("history engine id cannot be empty"@)
    } else if is_blank(entry.model_id@) {
        Some("history model id cannot be empty"@)
    } else if present_but_blank(entry.detected_language) {
        Some("detected language cannot be blank"@)
    } else if present_but_blank(entry.insertion_backend) {
        Some("insertion backend cannot be blank"@)
    } else {
        None
    }
}

fn option_is_blank(value: &Option<String>) -> (blank: bool)
    ensures
        blank == present_but_blank(*value),
{
    match value {
        Some(v) => is_blank_str(v.as_str()),
        None => false,
    }
}

impl NewHistoryEntry {
    /// A record needs a transcript, an engine and a model; optional metadata,
    /// when present, must not be blank.
    pub fn validate(&self) -> (result: Result<(), StorageError>)
        ensures
            match result {
                Ok(()) => spec_history_entry_problem(*self) is None,
                Err(StorageError::InvalidInput(m)) => spec_history_entry_problem(*self) == Some(m@),
                Err(_) => false,
            },
    {
        if is_blank_str(self.transcript.as_str()) {
            return Err(
                StorageError::InvalidInput(String::from_str("history transcript cannot be empty")),
            );
        }
        if is_blank_str(self.engine_id.as_str()) {
            return Err(
                StorageError::InvalidInput(String::from_str("history engine id cannot be empty")),
            );
        }
        if is_blank_str(self.model_id.as_str()) {
            return Err(
                StorageError::InvalidInput(String::from_str("history model id cannot be empty")),
            );
        }
        if option_is_blank(&self.detected_language) {
            return Err(
                StorageError::InvalidInput(String::from_str("detected language cannot be blank")),
            );
        }
        if option_is_blank(&self.insertion_backend) {
            return Err(
                StorageError::InvalidInput(String::from_str("insertion backend cannot be blank")),
            );
        }
        Ok(())
    }
}

#[derive(Debug, Clone, PartialEq, Eq)]
pub struct HistoryEntry {
    pub id: i64,
    pub created_at_unix_ms: i64,
    pub transcript: String,
    pub invocation_source: InvocationSource,
    pub engine_id: String,
    pub model_id: String,
    pub detected_language: Option<String>,
    pub insertion_backend: Option<String>,
    pub delivery_state: DeliveryState,
}

#[derive(Debug, Clone, PartialEq, Eq)]
pub enum StorageError {
    InvalidInput(String),
    InvalidPath(String),
    UnsupportedSchema { found: i64, supported: i64 },
    Database(String),
    CorruptData(String),
}

impl StorageError {
    /// The text a user is shown for this error.
    pub open spec fn spec_message(&self) -> Seq<char> {
        match self {
            StorageError::InvalidInput(m) => m@,
            StorageError::InvalidPath(m) => m@,
            StorageError::Database(m) => m@,
            StorageError::CorruptData(m) => m@,
            StorageError::UnsupportedSchema { found, supported } => "history database schema "@
                + signed_decimal(*found as int) + " is newer than supported schema "@
                + signed_decimal(*supported as int),
        }
    }

    pub fn message(&self) -> (message: String)
        ensures
            message@ == self.spec_message(),
    {
        match self {
            StorageError::InvalidInput(m) => m.clone(),
            StorageError::InvalidPath(m) => m.clone(),
            StorageError::Database(m) => m.clone(),
            StorageError::CorruptData(m) => m.clone(),
            StorageError::UnsupportedSchema { found, supported } => {
                let mut message = String::from_str("history database schema ");
                message.append(i64_to_decimal(*found).as_str());
                message.append(" is newer than supported schema ");
                message.append(i64_to_decimal(*supported).as_str());
                message
            },
        }
    }
}

/// A history listing asks for between one and `MAX_LIST_LIMIT` entries.
pub fn validate_list_limit(limit: u32) -> (result: Result<(), StorageError>)
    ensures
        match result {
            Ok(()) => 1 <= limit <= MAX_LIST_LIMIT,
            Err(StorageError::InvalidInput(m)) => (limit == 0 || limit > MAX_LIST_LIMIT) && m@
                == "history list limit must be between 1 and "@ + decimal(MAX_LIST_LIMIT as nat),
            Err(_) => false,
        },
{
    if limit == 0 || limit > MAX_LIST_LIMIT {
        let mut message = String::from_str("history list limit must be between 1 and ");
        message.append(crate::text::u64_to_decimal(500).as_str());
        return Err(StorageError::InvalidInput(message));
    }
    Ok(())
}

/// History entries are addressed by positive identifiers.
pub fn validate_entry_id(id: i64) -> (result: Result<(), StorageError>)
    ensures
        match result {
            Ok(()) => id > 0,
            Err(StorageError::InvalidInput(m)) => id <= 0 && m@ == "history entry id must be positive"@,
            Err(_) => false,
        },
{
    if id <= 0 {
        return Err(StorageError::InvalidInput(String::from_str("history entry id must be positive")));
    }
    Ok(())
}

/// What opening a database of a given schema version requires.
#[derive(Debug, Clone, Copy, PartialEq, Eq, Structural)]
pub enum SchemaAction {
    /// The database is at the current version: its tables must be present.
    VerifyExisting,
    /// The database is new: the tables are created and the version recorded.
    CreateTables,
    /// Nothing is created or checked.
    NoChange,
}

/// A database newer than this library is refused without touching it.
pub open spec fn spec_schema_action(found: i64, supported: i64) -> Result<SchemaAction, (i64, i64)> {
    if found > supported {
        Err((found, supported))
    } else if found == supported {
        Ok(SchemaAction::VerifyExisting)
    } else if found == 0 {
        Ok(SchemaAction::CreateTables)
    } else {
        Ok(SchemaAction::NoChange)
    }
}

/// Decides what opening a history database whose recorded version is `found`
/// requires.
pub fn plan_migration(found: i64) -> (result: Result<SchemaAction, StorageError>)
    ensures
        match result {
            Ok(action) => spec_schema_action(found, SCHEMA_VERSION) == Ok::<SchemaAction, (i64, i64)>(action),
            Err(StorageError::UnsupportedSchema { found: f, supported: s }) => spec_schema_action(
                found,
                SCHEMA_VERSION,
            ) == Err::<SchemaAction, (i64, i64)>((f, s)),
            Err(_) => false,
        },
{
    if found > SCHEMA_VERSION {
        Err(StorageError::UnsupportedSchema { found, supported: SCHEMA_VERSION })
    } else if found == SCHEMA_VERSION {
        Ok(SchemaAction::VerifyExisting)
    } else if found == 0 {
        Ok(SchemaAction::CreateTables)
    } else {
        Ok(SchemaAction::NoChange)
    }
}

/// The error reported when a database declares the current version but lacks
/// the history table.
pub fn missing_history_table() -> (error: StorageError)
    ensures
        error == StorageError::CorruptData(error->CorruptData_0),
        error.spec_message() == "history database declares schema version 1 but history_entries is missing"@,
{
    StorageError::CorruptData(
        String::from_str("history database declares schema version 1 but history_entries is missing"),
    )
}

} // verus!
