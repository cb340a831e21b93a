use blcvoice::personalization::{
    apply_rules_non_cascading, dictionary_prompt, validate_entry_id, validate_limit,
    validate_non_empty, validate_replacement, DictionaryTerm, PersonalizationError,
    ReplacementRule as PersonalRule, DICTIONARY_PROMPT_MAX_BYTES, MAX_LIST_LIMIT,
};
use blcvoice::platform::{DesktopEnvironment, DesktopPlatform, LinuxDisplayServer};
use blcvoice::settings::{AppSettings, SettingsService, SETTINGS_SCHEMA_VERSION};
use blcvoice::shortcut_service::ShortcutService;
use blcvoice::shortcuts::{ShortcutDecision, ShortcutPhase, DEFAULT_DICTATION_TRIGGER};
use blcvoice::storage::{
    plan_migration, validate_list_limit, DeliveryState, InvocationSource, NewHistoryEntry,
    SchemaAction, StorageError,
};
use blcvoice::text_rules::{
    apply_document, apply_text_rules, replace_literal_checked, DictionaryEntry, ReplacementRule,
    TextRulesDocument, TextRulesService,
};

fn environment(platform: DesktopPlatform, server: LinuxDisplayServer) -> DesktopEnvironment {
    DesktopEnvironment::new(platform, server)
}

#[test]
fn wayland_selects_portal_and_reports_pending_registration() {
    let service = ShortcutService::for_environment(environment(
        DesktopPlatform::Linux,
        LinuxDisplayServer::Wayland,
    ));
    let capability = service.capability();

    assert_eq!(capability.platform, "linux");
    assert_eq!(capability.linux_display_server.as_deref(), Some("wayland"));
    assert_eq!(
        capability.selected_backend.as_deref(),
        Some("xdgDesktopPortal")
    );
    assert!(capability.registration_implemented);
    assert_eq!(capability.registration_state, "pending");
    assert_eq!(capability.registration_error, None);
    assert_eq!(capability.selection_error, None);
}

#[test]
fn unknown_linux_session_is_unavailable_with_typed_error() {
    let service = ShortcutService::for_environment(environment(
        DesktopPlatform::Linux,
        LinuxDisplayServer::Unknown,
    ));
    let capability = service.capability();

    assert_eq!(capability.selected_backend, None);
    assert!(!capability.registration_implemented);
    assert_eq!(capability.registration_state, "unavailable");
    let error = capability.selection_error.expect("selection should fail");
    assert_eq!(error.code, "unknown_linux_display_server");
    assert!(!error.message.is_empty());
}

#[test]
fn non_linux_desktop_selects_native_backend() {
    let service = ShortcutService::for_environment(environment(
        DesktopPlatform::Windows,
        LinuxDisplayServer::Unknown,
    ));
    let capability = service.capability();

    assert_eq!(capability.platform, "windows");
    assert_eq!(capability.linux_display_server, None);
    assert_eq!(
        capability.selected_backend.as_deref(),
        Some("nativeGlobalHotkey")
    );
    assert_eq!(capability.registration_state, "pending");
    assert_eq!(capability.selection_error, None);
}

#[test]
fn shortcut_controller_only_routes_after_registration() {
    let mut service = ShortcutService::for_environment(environment(
        DesktopPlatform::Linux,
        LinuxDisplayServer::X11,
    ));

    assert_eq!(
        service.handle_phase(ShortcutPhase::Pressed),
        ShortcutDecision::Ignore
    );

    service.mark_registered(Some("Ctrl+Shift+Space".to_owned()));
    assert_eq!(
        service.handle_phase(ShortcutPhase::Pressed),
        ShortcutDecision::StartDictation
    );
    assert_eq!(
        service.handle_phase(ShortcutPhase::Released),
        ShortcutDecision::Ignore
    );
    assert_eq!(
        service.handle_phase(ShortcutPhase::Pressed),
        ShortcutDecision::StopDictation
    );
}

#[test]
fn registration_failure_is_actionable_and_resets_controller() {
    let mut service = ShortcutService::for_environment(environment(
        DesktopPlatform::Windows,
        LinuxDisplayServer::Unknown,
    ));
    service.mark_registered(Some(DEFAULT_DICTATION_TRIGGER.to_owned()));
    assert_eq!(
        service.handle_phase(ShortcutPhase::Pressed),
        ShortcutDecision::StartDictation
    );

    service.mark_failed("shortcut already owned by another application".to_owned());
    let capability = service.capability();
    assert_eq!(capability.registration_state, "failed");
    assert_eq!(
        capability.registration_error.as_deref(),
        Some("shortcut already owned by another application")
    );
    assert_eq!(
        service.handle_phase(ShortcutPhase::Released),
        ShortcutDecision::Ignore
    );
}

#[test]
fn registered_capability_reports_the_actual_trigger_description() {
    let mut service = ShortcutService::for_environment(environment(
        DesktopPlatform::Linux,
        LinuxDisplayServer::Wayland,
    ));
    service.mark_registered(Some("Ctrl+Alt+Space".to_owned()));

    assert_eq!(
        service.capability().registration_state,
        "registered · Ctrl+Alt+Space"
    );
}

#[test]
fn missing_portal_trigger_is_not_reported_as_registered() {
    let mut service = ShortcutService::for_environment(environment(
        DesktopPlatform::Linux,
        LinuxDisplayServer::Wayland,
    ));
    service.mark_configuration_required();

    assert_eq!(
        service.capability().registration_state,
        "configuration required · KDE shortcut settings opened"
    );
    assert_eq!(
        service.handle_phase(ShortcutPhase::Pressed),
        ShortcutDecision::Ignore
    );
}

fn document(
    dictionary: Vec<DictionaryEntry>,
    replacements: Vec<ReplacementRule>,
) -> TextRulesDocument {
    TextRulesDocument {
        dictionary,
        replacements,
        ..TextRulesDocument::default()
    }
}

#[test]
fn replacement_is_case_insensitive_and_respects_word_boundaries() {
    let document = document(
        Vec::new(),
        vec![ReplacementRule {
            id: 1,
            from: "paysa".to_owned(),
            to: "yapay zeka".to_owned(),
            enabled: true,
            whole_word: true,
        }],
    );
    assert_eq!(
        apply_document("Paysa güzel ama paysalık değil.", &document),
        "yapay zeka güzel ama paysalık değil."
    );
}

#[test]
fn dictionary_aliases_preserve_turkish_and_emoji_text() {
    let document = document(
        vec![DictionaryEntry {
            id: 1,
            term: "BLCVoice".to_owned(),
            aliases: vec!["blc voice".to_owned()],
            enabled: true,
        }],
        Vec::new(),
    );
    assert_eq!(
        apply_document("Merhaba blc voice, nasılsın? 👋 Şimdi Türkçe.", &document),
        "Merhaba BLCVoice, nasılsın? 👋 Şimdi Türkçe."
    );
}

#[test]
fn disabled_rules_are_ignored() {
    let document = document(
        Vec::new(),
        vec![ReplacementRule {
            id: 1,
            from: "yanlış".to_owned(),
            to: "doğru".to_owned(),
            enabled: false,
            whole_word: true,
        }],
    );
    assert_eq!(apply_document("yanlış", &document), "yanlış");
}

#[test]
fn service_edits_dictionary_and_replacements_in_memory() {
    let mut service =
        TextRulesService::from_document(TextRulesDocument::default()).expect("service must open");
    let entry = service
        .save_dictionary(None, "OpenAI".to_owned(), vec!["open ai".to_owned()], None)
        .expect("dictionary entry must save");
    assert_eq!(entry.id, 1);
    assert!(entry.enabled);
    let rule = service
        .save_replacement(None, "Paysa".to_owned(), "yapay zeka".to_owned(), None, None)
        .expect("replacement must save");
    assert_eq!(rule.id, 2);
    assert!(rule.whole_word);

    let snapshot = service.snapshot();
    assert_eq!(snapshot.dictionary.len(), 1);
    assert_eq!(snapshot.replacements.len(), 1);
    assert_eq!(service.apply("open ai ve PAYSA"), "OpenAI ve yapay zeka");

    let reopened = TextRulesService::from_document(service.document().clone())
        .expect("normalized document must reopen");
    assert_eq!(reopened.apply("open ai ve PAYSA"), "OpenAI ve yapay zeka");

    assert_eq!(service.delete_replacement(2), Ok(true));
    assert_eq!(service.delete_replacement(2), Ok(false));
    assert_eq!(service.apply("PAYSA"), "PAYSA");
    let missing = service
        .save_dictionary(Some(42), "X".to_owned(), Vec::new(), None)
        .expect_err("unknown entry");
    assert_eq!(missing.message(), "dictionary entry 42 does not exist");
    let blank = service
        .save_replacement(None, "  ".to_owned(), "x".to_owned(), None, None)
        .expect_err("blank source");
    assert_eq!(blank.message(), "replacement source cannot be blank");
}

#[test]
fn newer_text_rules_schema_is_rejected() {
    let future = TextRulesDocument {
        schema_version: 999,
        ..TextRulesDocument::default()
    };
    let error = TextRulesService::from_document(future).expect_err("future schema must fail");
    assert!(error.message().contains("newer"));
}

#[test]
fn normalization_trims_and_deduplicates_aliases() {
    let mut document = document(
        vec![DictionaryEntry {
            id: 7,
            term: "  Term ".to_owned(),
            aliases: vec![
                " a ".to_owned(),
                "a".to_owned(),
                "  ".to_owned(),
                "Term".to_owned(),
                "b".to_owned(),
            ],
            enabled: true,
        }],
        Vec::new(),
    );
    document.next_id = 0;
    document.normalize().expect("valid document");
    assert_eq!(document.dictionary[0].term, "Term");
    assert_eq!(document.dictionary[0].aliases, vec!["a".to_owned(), "b".to_owned()]);
    assert_eq!(document.next_id, 8);
}

#[test]
fn literal_replacement_without_whole_words_replaces_inside_words() {
    assert_eq!(
        replace_literal_checked("cat catalog", "cat", "dog", false, true).as_deref(),
        Some("dog dogalog")
    );
    assert_eq!(
        replace_literal_checked("cat catalog", "cat", "dog", true, true).as_deref(),
        Some("dog catalog")
    );
    assert_eq!(
        replace_literal_checked("aaa", "aa", "b", false, true).as_deref(),
        Some("ba")
    );
    assert_eq!(apply_text_rules(None, "unchanged"), "unchanged");
}

fn term(id: i64, text: &str) -> DictionaryTerm {
    DictionaryTerm {
        id,
        term: text.to_owned(),
        created_at_unix_ms: id,
    }
}

fn rule(id: i64, source: &str, replacement: &str) -> PersonalRule {
    PersonalRule {
        id,
        source: source.to_owned(),
        replacement: replacement.to_owned(),
        created_at_unix_ms: id,
    }
}

#[test]
fn dictionary_prompt_budget_is_bounded_for_runtime_use() {
    assert!(DICTIONARY_PROMPT_MAX_BYTES <= 4096);
}

#[test]
fn dictionary_persists_and_builds_bounded_prompt() {
    let terms = vec![term(1, "BLCVoice"), term(2, "Yapay Zeka")];
    assert_eq!(
        dictionary_prompt(&terms, 64),
        Some("BLCVoice, Yapay Zeka".to_owned())
    );
    assert_eq!(dictionary_prompt(&terms, 10), Some("BLCVoice".to_owned()));
    assert_eq!(dictionary_prompt(&terms, 4), None);
    assert_eq!(dictionary_prompt(&terms, 0), None);
}

#[test]
fn replacements_are_non_cascading_and_longest_match_wins() {
    let rules = vec![
        rule(1, "AI", "yapay zeka"),
        rule(2, "AI lab", "BLCVoice"),
        rule(3, "yapay zeka", "SHOULD NOT CASCADE"),
    ];
    assert_eq!(
        apply_rules_non_cascading("AI lab ve AI", &rules),
        "BLCVoice ve yapay zeka"
    );
}

#[test]
fn validation_rejects_blank_and_identity_rules() {
    assert!(matches!(
        validate_non_empty("dictionary term", "   ", 256),
        Err(PersonalizationError::InvalidInput(_))
    ));
    assert!(matches!(
        validate_replacement("same", "same"),
        Err(PersonalizationError::InvalidInput(_))
    ));
    assert_eq!(
        validate_non_empty("dictionary term", "  BLCVoice ", 256),
        Ok("BLCVoice".to_owned())
    );
    assert_eq!(
        validate_non_empty("dictionary term", "abcdef", 3),
        Err(PersonalizationError::InvalidInput(
            "dictionary term cannot exceed 3 UTF-8 bytes".to_owned()
        ))
    );
    assert!(validate_limit(0).is_err());
    assert!(validate_limit(MAX_LIST_LIMIT).is_ok());
    assert!(validate_limit(MAX_LIST_LIMIT + 1).is_err());
    assert!(validate_entry_id(0).is_err());
    assert!(validate_entry_id(1).is_ok());
}

#[test]
fn personalization_schema_error_message_names_both_versions() {
    let error = PersonalizationError::UnsupportedSchema {
        found: 2,
        supported: 1,
    };
    assert_eq!(
        error.message(),
        "personalization database schema 2 is newer than supported schema 1"
    );
}

#[test]
fn list_limit_is_bounded() {
    assert!(matches!(validate_list_limit(0), Err(StorageError::InvalidInput(_))));
    assert!(matches!(validate_list_limit(501), Err(StorageError::InvalidInput(_))));
    assert_eq!(validate_list_limit(500), Ok(()));
}

#[test]
fn newer_schema_fails_closed_without_reset() {
    assert_eq!(
        plan_migration(2),
        Err(StorageError::UnsupportedSchema {
            found: 2,
            supported: 1
        })
    );
    assert_eq!(plan_migration(1), Ok(SchemaAction::VerifyExisting));
    assert_eq!(plan_migration(0), Ok(SchemaAction::CreateTables));
}

#[test]
fn stored_names_round_trip() {
    for state in [
        DeliveryState::TranscribedOnly,
        DeliveryState::BackendSubmittedUnverified,
        DeliveryState::DeliveredVerified,
        DeliveryState::InsertionFailed,
    ] {
        assert_eq!(DeliveryState::parse(state.as_str()), Ok(state));
    }
    for source in [InvocationSource::Shortcut, InvocationSource::DesktopUi] {
        assert_eq!(InvocationSource::parse(source.as_str()), Ok(source));
    }
    assert_eq!(
        InvocationSource::parse("other"),
        Err(StorageError::CorruptData(
            "unknown invocation source `other`".to_owned()
        ))
    );
}

#[test]
fn history_entry_validation_rejects_blank_metadata() {
    let mut entry = NewHistoryEntry {
        created_at_unix_ms: 10,
        transcript: "merhaba dünya".to_owned(),
        invocation_source: InvocationSource::Shortcut,
        engine_id: "transcribe.cpp".to_owned(),
        model_id: "base".to_owned(),
        detected_language: Some("tr".to_owned()),
        insertion_backend: Some("test-backend".to_owned()),
        delivery_state: DeliveryState::BackendSubmittedUnverified,
    };
    assert_eq!(entry.validate(), Ok(()));
    entry.detected_language = Some("  ".to_owned());
    assert_eq!(
        entry.validate(),
        Err(StorageError::InvalidInput(
            "detected language cannot be blank".to_owned()
        ))
    );
    entry.transcript = " ".to_owned();
    assert_eq!(
        entry.validate(),
        Err(StorageError::InvalidInput(
            "history transcript cannot be empty".to_owned()
        ))
    );
}

#[test]
fn settings_round_trip_and_normalize_user_values() {
    let mut service =
        SettingsService::from_settings(AppSettings::default()).expect("settings service must open");
    service.set_input_device(Some("  mic-1  ".to_owned()));
    service.set_model(Some("  whisper-small-q5km  ".to_owned()));
    service.set_language_hint(Some(" TR ".to_owned()));

    let reopened =
        SettingsService::from_settings(service.snapshot()).expect("settings must reopen");
    let settings = reopened.snapshot();
    assert_eq!(settings.schema_version(), SETTINGS_SCHEMA_VERSION);
    assert_eq!(settings.selected_input_device_id(), Some("mic-1"));
    assert_eq!(settings.selected_model_id(), Some("whisper-small-q5km"));
    assert_eq!(settings.language_hint(), Some("tr"));
}

#[test]
fn auto_language_is_stored_as_no_hint() {
    let mut service =
        SettingsService::from_settings(AppSettings::default()).expect("settings service must open");
    let settings = service.set_language_hint(Some("AUTO".to_owned()));
    assert_eq!(settings.language_hint(), None);
}

#[test]
fn newer_schema_is_rejected_instead_of_overwritten() {
    let future = AppSettings::from_fields(999, None, None, None);
    let error = SettingsService::from_settings(future).expect_err("future schema must fail");
    assert!(error.message().contains("newer"));
}

#[test]
fn saved_rules_reopen_unchanged() {
    let messy = TextRulesDocument {
        schema_version: 1,
        next_id: 0,
        dictionary: vec![DictionaryEntry {
            id: 4,
            term: "  BLCVoice ".to_owned(),
            aliases: vec![
                " blc voice".to_owned(),
                "blc voice".to_owned(),
                "   ".to_owned(),
                "BLCVoice".to_owned(),
            ],
            enabled: true,
        }],
        replacements: vec![ReplacementRule {
            id: 9,
            from: " paysa ".to_owned(),
            to: "yapay zeka ".to_owned(),
            enabled: false,
            whole_word: true,
        }],
    };
    let first = TextRulesService::from_document(messy).expect("document must open");
    let saved = first.document().duplicate();
    assert_eq!(saved.next_id, 10);
    assert_eq!(saved.dictionary[0].term, "BLCVoice");
    assert_eq!(saved.dictionary[0].aliases, vec!["blc voice".to_owned()]);
    assert_eq!(saved.replacements[0].from, "paysa");
    assert_eq!(saved.replacements[0].to, "yapay zeka");
    let reopened = TextRulesService::from_document(saved.duplicate()).expect("saved rules must reopen");
    assert_eq!(reopened.document(), &saved);
}
