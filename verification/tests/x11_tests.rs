use blcvoice::insertion::{InsertionBackend, InsertionError, InsertionErrorKind};
use blcvoice::insertion_backends::{
    hex_code_point, validate_x11_text, x11_insertion_outcome, x11_keystroke_plan, X11Keystroke,
};

#[test]
fn the_scratch_key_is_remapped_only_when_the_keysym_changes() {
    let plan = x11_keystroke_plan("aab\nç\r");
    assert_eq!(
        plan,
        vec![
            X11Keystroke { remap: Some(0x61), utf8_len: 1 },
            X11Keystroke { remap: None, utf8_len: 1 },
            X11Keystroke { remap: Some(0x62), utf8_len: 1 },
            X11Keystroke { remap: Some(0xFF0D), utf8_len: 1 },
            X11Keystroke { remap: Some(0xE7), utf8_len: 2 },
            X11Keystroke { remap: Some(0xFF0D), utf8_len: 1 },
        ]
    );
    assert_eq!(
        x11_keystroke_plan("ğğ"),
        vec![
            X11Keystroke { remap: Some(0x0100_011F), utf8_len: 2 },
            X11Keystroke { remap: None, utf8_len: 2 },
        ]
    );
    assert!(x11_keystroke_plan("").is_empty());
}

fn failure(message: &str) -> InsertionError {
    InsertionError::new(InsertionErrorKind::BackendFailure, message)
}

#[test]
fn a_complete_submission_with_a_restored_key_is_a_receipt() {
    let receipt = x11_insertion_outcome(Ok(7), Ok(())).expect("complete submission");
    assert_eq!(receipt.backend(), InsertionBackend::X11XTest);
    assert_eq!(receipt.submitted_utf8_bytes(), 7);
    assert!(!receipt.semantic_delivery_verified());
}

#[test]
fn an_unrestored_scratch_key_fails_the_submission() {
    let error = x11_insertion_outcome(Ok(7), Err(failure("bad match"))).unwrap_err();
    assert_eq!(error.kind(), InsertionErrorKind::BackendFailure);
    assert_eq!(
        error.message(),
        "text was submitted through XTEST, but the scratch key mapping could not be restored: bad match"
    );
}

#[test]
fn a_failed_submission_is_partial_once_text_was_typed() {
    let error = x11_insertion_outcome(Err((3, failure("lost"))), Ok(())).unwrap_err();
    assert_eq!(error.kind(), InsertionErrorKind::PartialSubmission);
    assert_eq!(
        error.message(),
        "XTEST insertion failed after 3 UTF-8 bytes were submitted: lost"
    );

    let error = x11_insertion_outcome(
        Err((0, InsertionError::new(InsertionErrorKind::BackendUnavailable, "gone"))),
        Ok(()),
    )
    .unwrap_err();
    assert_eq!(error.kind(), InsertionErrorKind::BackendUnavailable);

    let error =
        x11_insertion_outcome(Err((0, failure("lost"))), Err(failure("stuck"))).unwrap_err();
    assert_eq!(error.kind(), InsertionErrorKind::BackendFailure);
    assert_eq!(
        error.message(),
        "XTEST insertion failed after 0 UTF-8 bytes and keymap restoration also failed; insertion error: lost; restoration error: stuck"
    );

    let error =
        x11_insertion_outcome(Err((5, failure("lost"))), Err(failure("stuck"))).unwrap_err();
    assert_eq!(error.kind(), InsertionErrorKind::PartialSubmission);
}

#[test]
fn code_points_are_written_with_at_least_four_hex_digits() {
    assert_eq!(hex_code_point('\u{7}'), "0007");
    assert_eq!(hex_code_point('\u{9F}'), "009F");
    assert_eq!(hex_code_point('\u{1F600}'), "1F600");
    assert_eq!(hex_code_point('\0'), "0000");
    let error = validate_x11_text("ok\u{85}").unwrap_err();
    assert_eq!(error.message(), "text contains unsupported control character U+0085");
    assert_eq!(
        validate_x11_text("").unwrap_err().message(),
        "cannot submit empty text through XTEST"
    );
}

#[test]
fn the_keystrokes_type_the_whole_text() {
    let text = "Şimdi 👋 ok";
    let plan = x11_keystroke_plan(text);
    let bytes: usize = plan.iter().map(|keystroke| keystroke.utf8_len).sum();
    assert_eq!(bytes, text.len());
    assert_eq!(plan.len(), text.chars().count());
}
