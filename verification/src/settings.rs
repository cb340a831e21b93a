//! User settings of the desktop application: the selected input device, model
//! and language hint, their normalization and their edits. Reading and
//! writing the settings file is left to the caller.
use vstd::prelude::*;

use crate::platform::non_empty;
use crate::text::{
    ascii_lower_seq, decimal, eq_ignore_ascii_case, str_eq_ignore_ascii_case, to_ascii_lowercase,
    trimmed, u64_to_decimal,
};

verus! {

/// Version of the settings document this library writes.
pub const SETTINGS_SCHEMA_VERSION: u32 = 1;

/// Name of the file that holds the settings.
pub const SETTINGS_FILE_NAME: &'static str = "settings.json";

#[derive(Debug, Clone, PartialEq, Eq)]
pub struct AppSettings {
    schema_version: u32,
    selected_input_device_id: Option<String>,
    selected_model_id: Option<String>,
    language_hint: Option<String>,
}

#[verifier::ext_equal]
pub struct AppSettingsView {
    pub schema_version: u32,
    pub selected_input_device_id: Option<Seq<char>>,
    pub selected_model_id: Option<Seq<char>>,
    pub language_hint: Option<Seq<char>>,
}

pub open spec fn string_opt_view(value: Option<String>) -> Option<Seq<char>> {
    match value {
        Some(v) => Some(v@),
        None => None,
    }
}

impl View for AppSettings {
    type V = AppSettingsView;

    closed spec fn view(&self) -> AppSettingsView {
        AppSettingsView {
            schema_version: self.schema_version,
            selected_input_device_id: string_opt_view(self.selected_input_device_id),
            selected_model_id: string_opt_view(self.selected_model_id),
            language_hint: string_opt_view(self.language_hint),
        }
    }
}

/// A trimmed, non-empty value, or nothing.
pub open spec fn normalize_optional_spec(value: Option<Seq<char>>) -> Option<Seq<char>> {
    non_empty(value)
}

/// A language hint: `auto` (in any case) means no hint; any other value is
/// kept in ASCII lowercase.
pub open spec fn normalize_language_hint_spec(value: Option<Seq<char>>) -> Option<Seq<char>> {
    match non_empty(value) {
        None => None,
        Some(v) => if eq_ignore_ascii_case(v, "auto"@) {
            None
        } else {
            Some(ascii_lower_seq(v))
        },
    }
}

pub open spec fn normalize_settings_spec(s: AppSettingsView) -> AppSettingsView {
    AppSettingsView {
        schema_version: SETTINGS_SCHEMA_VERSION,
        selected_input_device_id: normalize_optional_spec(s.selected_input_device_id),
        selected_model_id: normalize_optional_spec(s.selected_model_id),
        language_hint: normalize_language_hint_spec(s.language_hint),
    }
}

fn normalize_optional(value: &Option<String>) -> (normalized: Option<String>)
    ensures
        string_opt_view(normalized) == normalize_optional_spec(string_opt_view(*value)),
{
    match value {
        Some(v) => {
            let t = trimmed(v.as_str());
            proof {
                crate::text::lemma_trim_empty_iff_blank(v@);
            }
            if t.as_str().is_empty() {
                None
            } else {
                Some(t)
            }
        },
        None => None,
    }
}

fn normalize_language_hint(value: &Option<String>) -> (normalized: Option<String>)
    ensures
        string_opt_view(normalized) == normalize_language_hint_spec(string_opt_view(*value)),
{
    match normalize_optional(value) {
        None => None,
        Some(v) => {
            if str_eq_ignore_ascii_case(v.as_str(), "auto") {
                None
            } else {
                Some(to_ascii_lowercase(v.as_str()))
            }
        },
    }
}

impl Default for AppSettings {
    fn default() -> (settings: Self)
        ensures
            settings@ == (AppSettingsView {
                schema_version: SETTINGS_SCHEMA_VERSION,
                selected_input_device_id: None,
                selected_model_id: None,
                language_hint: None,
            }),
    {
        AppSettings {
            schema_version: SETTINGS_SCHEMA_VERSION,
            selected_input_device_id: None,
            selected_model_id: None,
            language_hint: None,
        }
    }
}

fn as_str_opt(value: &Option<String>) -> (s: Option<&str>)
    ensures
        crate::platform::opt_view(s) == string_opt_view(*value),
{
    match value {
        Some(v) => Some(v.as_str()),
        None => None,
    }
}

impl AppSettings {
    /// Settings with the given fields, as read from a settings document.
    pub fn from_fields(
        schema_version: u32,
        selected_input_device_id: Option<String>,
        selected_model_id: Option<String>,
        language_hint: Option<String>,
    ) -> (settings: Self)
        ensures
            settings@ == (AppSettingsView {
                schema_version,
                selected_input_device_id: string_opt_view(selected_input_device_id),
                selected_model_id: string_opt_view(selected_model_id),
                language_hint: string_opt_view(language_hint),
            }),
    {
        AppSettings { schema_version, selected_input_device_id, selected_model_id, language_hint }
    }

    pub fn schema_version(&self) -> (version: u32)
        ensures
            version == self@.schema_version,
    {
        self.schema_version
    }

    pub fn selected_input_device_id(&self) -> (id: Option<&str>)
        ensures
            crate::platform::opt_view(id) == self@.selected_input_device_id,
    {
        as_str_opt(&self.selected_input_device_id)
    }

    pub fn selected_model_id(&self) -> (id: Option<&str>)
        ensures
            crate::platform::opt_view(id) == self@.selected_model_id,
    {
        as_str_opt(&self.selected_model_id)
    }

    pub fn language_hint(&self) -> (hint: Option<&str>)
        ensures
            crate::platform::opt_view(hint) == self@.language_hint,
    {
        as_str_opt(&self.language_hint)
    }

    /// Brings the settings to the current schema with normalized values.
    pub fn normalize(&mut self)
        ensures
            final(self)@ == normalize_settings_spec(old(self)@),
    {
        self.schema_version = SETTINGS_SCHEMA_VERSION;
        self.selected_input_device_id = normalize_optional(&self.selected_input_device_id);
        self.selected_model_id = normalize_optional(&self.selected_model_id);
        self.language_hint = normalize_language_hint(&self.language_hint);
    }

    /// A copy of the settings.
    pub fn duplicate(&self) -> (copy: Self)
        ensures
            copy@ == self@,
    {
        AppSettings {
            schema_version: self.schema_version,
            selected_input_device_id: copy_opt(&self.selected_input_device_id),
            selected_model_id: copy_opt(&self.selected_model_id),
            language_hint: copy_opt(&self.language_hint),
        }
    }
}

fn copy_opt(value: &Option<String>) -> (copy: Option<String>)
    ensures
        string_opt_view(copy) == string_opt_view(*value),
{
    match value {
        Some(v) => Some(v.clone()),
        None => None,
    }
}

#[derive(Debug, Clone, PartialEq, Eq)]
pub struct SettingsError {
    message: String,
}

impl SettingsError {
    pub closed spec fn spec_message(&self) -> Seq<char> {
        self.message@
    }

    pub fn new(message: String) -> (error: Self)
        ensures
            error.spec_message() == message@,
    {
        SettingsError { message }
    }

    pub fn message(&self) -> (message: &str)
        ensures
            message@ == self.spec_message(),
    {
        self.message.as_str()
    }
}

/// The settings in force and their edits. Each edit returns the normalized
/// settings it produced; persisting them is left to the caller, which keeps
/// the previous service when writing fails.
#[derive(Debug, Clone)]
pub struct SettingsService {
    settings: AppSettings,
}

impl View for SettingsService {
    type V = AppSettingsView;

    closed spec fn view(&self) -> AppSettingsView {
        self.settings@
    }
}

impl SettingsService {
    /// A service over settings just read: refused when they come from a newer
    /// schema, normalized otherwise.
    pub fn from_settings(settings: AppSettings) -> (result: Result<Self, SettingsError>)
        ensures
            match result {
                Ok(service) => settings@.schema_version <= SETTINGS_SCHEMA_VERSION && service@
                    == normalize_settings_spec(settings@),
                Err(e) => settings@.schema_version > SETTINGS_SCHEMA_VERSION && e.spec_message()
                    == "settings schema "@ + decimal(settings@.schema_version as nat)
                    + " is newer than this BLCVoice build supports (1)"@,
            },
    {
        if settings.schema_version > SETTINGS_SCHEMA_VERSION {
            let mut message = String::from_str("settings schema ");
            message.append(u64_to_decimal(settings.schema_version as u64).as_str());
            message.append(" is newer than this BLCVoice build supports (1)");
            return Err(SettingsError::new(message));
        }
        let mut settings = settings;
        settings.normalize();
        Ok(SettingsService { settings })
    }

    pub fn snapshot(&self) -> (settings: AppSettings)
        ensures
            settings@ == self@,
    {
        self.settings.duplicate()
    }

    pub fn set_input_device(&mut self, device_id: Option<String>) -> (settings: AppSettings)
        ensures
            final(self)@ == normalize_settings_spec(
                AppSettingsView { selected_input_device_id: string_opt_view(device_id), ..old(self)@ },
            ),
            settings@ == final(self)@,
    {
        self.settings.selected_input_device_id = device_id;
        self.settings.normalize();
        self.settings.duplicate()
    }

    pub fn set_model(&mut self, model_id: Option<String>) -> (settings: AppSettings)
        ensures
            final(self)@ == normalize_settings_spec(
                AppSettingsView { selected_model_id: string_opt_view(model_id), ..old(self)@ },
            ),
            settings@ == final(self)@,
    {
        self.settings.selected_model_id = model_id;
        self.settings.normalize();
        self.settings.duplicate()
    }

    pub fn set_language_hint(&mut self, language_hint: Option<String>) -> (settings: AppSettings)
        ensures
            final(self)@ == normalize_settings_spec(
                AppSettingsView { language_hint: string_opt_view(language_hint), ..old(self)@ },
            ),
            settings@ == final(self)@,
    {
        self.settings.language_hint = language_hint;
        self.settings.normalize();
        self.settings.duplicate()
    }
}

/// Normalizing settings twice gives what normalizing once gives, so settings
/// that were stored read back as they were stored.
pub proof fn law_normalization_is_idempotent(s: AppSettingsView)
    ensures
        normalize_settings_spec(normalize_settings_spec(s)) == normalize_settings_spec(s),
{
    let once = normalize_settings_spec(s);
    lemma_non_empty_idempotent(s.selected_input_device_id);
    lemma_non_empty_idempotent(s.selected_model_id);
    match non_empty(s.language_hint) {
        None => {},
        Some(v) => {
            if !eq_ignore_ascii_case(v, "auto"@) {
                let lowered = ascii_lower_seq(v);
                lemma_non_empty_shape(s.language_hint);
                crate::text::lemma_ascii_lower_properties(v);
                if lowered.len() > 0 {
                    assert(lowered[0] == crate::text::ascii_lower(v[0]));
                    assert(lowered.last() == crate::text::ascii_lower(v.last()));
                }
                crate::text::lemma_trim_of_trimmed(lowered);
                assert(non_empty(Some(lowered)) == Some(lowered));
            }
        },
    }
    assert(normalize_settings_spec(once) =~= once);
}

proof fn lemma_non_empty_shape(value: Option<Seq<char>>)
    ensures
        non_empty(value) matches Some(v) ==> v.len() > 0 && !crate::text::is_whitespace(v[0])
            && !crate::text::is_whitespace(v.last()),
{
    if let Some(v) = value {
        crate::text::lemma_trim_ends(v);
    }
}

proof fn lemma_non_empty_idempotent(value: Option<Seq<char>>)
    ensures
        non_empty(non_empty(value)) == non_empty(value),
{
    if let Some(v) = value {
        crate::text::lemma_trim_idempotent(v);
    }
}

} // verus!
