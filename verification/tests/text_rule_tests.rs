use blcvoice::text_rules::{
    apply_document_checked, normalize_list, normalize_required, replace_literal,
    replace_literal_checked, DictionaryEntry, ReplacementRule, TextRulesDocument,
    TextRulesService,
};

#[test]
fn literal_replacement_respects_words_and_case() {
    assert_eq!(
        replace_literal("Hello world, WORLD!", "world", "Earth", true, false),
        "Hello Earth, Earth!"
    );
    assert_eq!(replace_literal("sword world", "word", "X", true, false), "sword world");
    assert_eq!(replace_literal("sword", "word", "X", false, false), "sX");
    assert_eq!(replace_literal("a_word word", "word", "X", true, false), "a_word X");
    assert_eq!(replace_literal("World world", "world", "x", false, true), "World x");
    assert_eq!(replace_literal("aaa", "aa", "X", false, false), "Xa");
    assert_eq!(replace_literal("text", "", "X", false, false), "text");
    assert_eq!(replace_literal("", "a", "X", false, false), "");
    assert_eq!(
        replace_literal_checked("Grüße an GRÜSSE", "grüße", "Hallo", true, false).as_deref(),
        Some("Hallo an GRÜSSE")
    );
}

#[test]
fn required_values_are_trimmed_or_refused() {
    assert_eq!(normalize_required("  term ", "dictionary term").unwrap(), "term");
    assert_eq!(
        normalize_required(" \t", "dictionary term").unwrap_err().message(),
        "dictionary term cannot be blank"
    );
}

#[test]
fn lists_are_trimmed_without_blanks_or_repeats() {
    let values: Vec<String> = ["a", " a ", "", "b", "  ", "a", "B"]
        .iter()
        .map(|value| value.to_string())
        .collect();
    assert_eq!(normalize_list(&values), vec!["a", "b", "B"]);
    assert!(normalize_list(&Vec::new()).is_empty());
}

#[test]
fn identifiers_are_allocated_from_one_and_saturate() {
    let mut document = TextRulesDocument { next_id: 0, ..TextRulesDocument::default() };
    assert_eq!(document.allocate_id(), 1);
    assert_eq!(document.next_id, 2);
    assert_eq!(document.allocate_id(), 2);
    let mut full = TextRulesDocument { next_id: u64::MAX, ..TextRulesDocument::default() };
    assert_eq!(full.allocate_id(), u64::MAX);
    assert_eq!(full.next_id, u64::MAX);
}

#[test]
fn document_applies_dictionary_then_replacements() {
    let document = TextRulesDocument {
        dictionary: vec![DictionaryEntry {
            id: 1,
            term: "Verus".to_owned(),
            aliases: vec!["verus".to_owned(), "vee russ".to_owned()],
            enabled: true,
        }],
        replacements: vec![
            ReplacementRule {
                id: 2,
                from: "teh".to_owned(),
                to: "the".to_owned(),
                enabled: true,
                whole_word: true,
            },
            ReplacementRule {
                id: 3,
                from: "like".to_owned(),
                to: "love".to_owned(),
                enabled: false,
                whole_word: true,
            },
        ],
        ..TextRulesDocument::default()
    };
    assert_eq!(
        apply_document_checked("i like vee russ and teh verus", &document).as_deref(),
        Some("i like Verus and the Verus")
    );
    assert_eq!(
        apply_document_checked("nothing here", &document).as_deref(),
        Some("nothing here")
    );
}

#[test]
fn deleting_an_entry_twice_removes_nothing_the_second_time() {
    let entry = |id: u64, term: &str| DictionaryEntry {
        id,
        term: term.to_owned(),
        aliases: Vec::new(),
        enabled: true,
    };
    let document = TextRulesDocument {
        next_id: 3,
        dictionary: vec![entry(1, "Verus"), entry(2, "Rust")],
        ..TextRulesDocument::default()
    };
    let mut service = TextRulesService::from_document(document).unwrap();
    assert_eq!(service.delete_dictionary(1), Ok(true));
    let after = service.snapshot();
    assert_eq!(after.dictionary.len(), 1);
    assert_eq!(after.dictionary[0].id, 2);
    assert_eq!(service.delete_dictionary(1), Ok(false));
    assert_eq!(service.snapshot().dictionary, after.dictionary);
}
