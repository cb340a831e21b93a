use blcvoice::audio::{AudioBackend, AudioDeviceId, InputDeviceInfo, InputDiscovery, host_priority};
use blcvoice::insertion::{
    resolve_insertion_capability, InsertionAuthorization, InsertionBackend,
    InsertionCapabilityError, InsertionEnvironment, InsertionErrorKind, InsertionReceipt,
};
use blcvoice::insertion_backends::{
    char_to_keysym, find_scratch_keycode, utf8_chunks, validate_eis_text, validate_native_text,
    validate_x11_text, wayland_eis_capability, x11_capability, x11_submission_error,
    NativeInsertionOptions, EI_TEXT_MAX_UTF8_BYTES, XK_RETURN, XK_TAB,
};
use blcvoice::insertion::InsertionError;
use blcvoice::platform::{DesktopPlatform, LinuxDisplayServer};

#[test]
fn windows_uses_native_send_input() {
    let capability = resolve_insertion_capability(InsertionEnvironment::new(
        DesktopPlatform::Windows,
        LinuxDisplayServer::Unknown,
    ))
    .expect("Windows insertion should resolve");

    assert_eq!(capability.backend(), InsertionBackend::WindowsSendInput);
    assert_eq!(capability.authorization(), InsertionAuthorization::NotRequired);
    assert!(!capability.semantic_delivery_verifiable());
}

#[test]
fn macos_requires_accessibility_authorization() {
    let capability = resolve_insertion_capability(InsertionEnvironment::new(
        DesktopPlatform::MacOs,
        LinuxDisplayServer::Unknown,
    ))
    .expect("macOS insertion should resolve");

    assert_eq!(capability.backend(), InsertionBackend::MacOsQuartz);
    assert_eq!(
        capability.authorization(),
        InsertionAuthorization::MacOsAccessibility
    );
}

#[test]
fn linux_x11_uses_xtest() {
    let capability = resolve_insertion_capability(InsertionEnvironment::new(
        DesktopPlatform::Linux,
        LinuxDisplayServer::X11,
    ))
    .expect("X11 insertion should resolve");

    assert_eq!(capability.backend(), InsertionBackend::X11XTest);
    assert_eq!(capability.authorization(), InsertionAuthorization::NotRequired);
}

#[test]
fn linux_wayland_uses_portal_eis_without_raw_fallback() {
    let capability = resolve_insertion_capability(InsertionEnvironment::new(
        DesktopPlatform::Linux,
        LinuxDisplayServer::Wayland,
    ))
    .expect("Wayland insertion should resolve");

    assert_eq!(
        capability.backend(),
        InsertionBackend::XdgRemoteDesktopEis
    );
    assert_eq!(
        capability.authorization(),
        InsertionAuthorization::XdgRemoteDesktop
    );
}

#[test]
fn unknown_linux_session_is_explicitly_unavailable() {
    assert_eq!(
        resolve_insertion_capability(InsertionEnvironment::new(
            DesktopPlatform::Linux,
            LinuxDisplayServer::Unknown,
        )),
        Err(InsertionCapabilityError::UnknownLinuxDisplayServer)
    );
}

#[test]
fn receipt_never_claims_semantic_target_verification() {
    let receipt = InsertionReceipt::complete(InsertionBackend::WindowsSendInput, 13);

    assert_eq!(receipt.submitted_utf8_bytes(), 13);
    assert!(!receipt.semantic_delivery_verified());
}

#[test]
fn backend_names_are_stable() {
    assert_eq!(InsertionBackend::XdgRemoteDesktopEis.name(), "xdgRemoteDesktopEis");
    assert_eq!(InsertionAuthorization::NotRequired.name(), "none");
}

#[test]
fn validation_rejects_empty_and_nul_text() {
    assert_eq!(
        validate_native_text("").expect_err("empty text must fail").kind(),
        InsertionErrorKind::InvalidText
    );
    assert_eq!(
        validate_native_text("hello\0world")
            .expect_err("NUL text must fail")
            .kind(),
        InsertionErrorKind::InvalidText
    );
    validate_native_text("Türkçe 🙂").expect("Unicode text must be accepted");
}

#[test]
fn accessibility_prompt_defaults_on() {
    assert!(NativeInsertionOptions::default().prompt_for_accessibility());
    assert!(!NativeInsertionOptions::new(false).prompt_for_accessibility());
}

#[test]
fn unicode_keysyms_follow_x11_encoding_rules() {
    assert_eq!(char_to_keysym('A'), 0x41);
    assert_eq!(char_to_keysym('é'), 0xE9);
    assert_eq!(char_to_keysym('ğ'), 0x0100_011F);
    assert_eq!(char_to_keysym('İ'), 0x0100_0130);
    assert_eq!(char_to_keysym('🙂'), 0x0101_F642);
    assert_eq!(char_to_keysym('\n'), XK_RETURN);
    assert_eq!(char_to_keysym('\t'), XK_TAB);
}

#[test]
fn validation_rejects_empty_nul_and_unsupported_controls() {
    assert_eq!(
        validate_x11_text("").expect_err("empty text must fail").kind(),
        InsertionErrorKind::InvalidText
    );
    assert_eq!(
        validate_x11_text("hello\0world")
            .expect_err("NUL text must fail")
            .kind(),
        InsertionErrorKind::InvalidText
    );
    assert_eq!(
        validate_x11_text("hello\u{7}world")
            .expect_err("bell control must fail")
            .kind(),
        InsertionErrorKind::InvalidText
    );
    validate_x11_text("Türkçe\nikinci satır\tson")
        .expect("dictation text controls should be accepted");
}

#[test]
fn control_character_message_names_the_code_point() {
    let error = validate_x11_text("a\u{1b}b").expect_err("escape must fail");
    assert_eq!(
        error.message(),
        "text contains unsupported control character U+001B"
    );
}

#[test]
fn scratch_keycode_must_be_empty_and_not_a_modifier() {
    let keysyms = [
        1, 0, // keycode 8 is occupied
        0, 0, // keycode 9 is empty but modifier
        0, 0, // keycode 10 is safe
    ];
    assert_eq!(find_scratch_keycode(8, 2, &keysyms, &[9]), Some(10));
    assert_eq!(find_scratch_keycode(8, 2, &keysyms, &[9, 10]), None);
}

#[test]
fn scratch_keycode_requires_a_mapping_width() {
    assert_eq!(find_scratch_keycode(8, 0, &[0, 0], &[]), None);
}

#[test]
fn capability_is_explicitly_x11_xtest() {
    let capability = x11_capability();
    assert_eq!(capability.backend(), InsertionBackend::X11XTest);
    assert_eq!(capability.authorization(), InsertionAuthorization::NotRequired);
    assert!(!capability.semantic_delivery_verifiable());
}

#[test]
fn partial_xtest_submission_is_reported_as_partial() {
    let error = InsertionError::new(InsertionErrorKind::BackendFailure, "boom");
    assert_eq!(
        x11_submission_error(0, error.clone()).kind(),
        InsertionErrorKind::BackendFailure
    );
    let partial = x11_submission_error(12, error);
    assert_eq!(partial.kind(), InsertionErrorKind::PartialSubmission);
    assert_eq!(
        partial.message(),
        "XTEST insertion failed after 12 UTF-8 bytes were submitted: boom"
    );
}

#[test]
fn chunks_never_split_utf8_or_exceed_protocol_limit() {
    let text = "Türkçe🙂".repeat(80);
    let chunks: Vec<String> = utf8_chunks(&text);

    assert!(
        chunks
            .iter()
            .all(|chunk| !chunk.is_empty() && chunk.len() <= EI_TEXT_MAX_UTF8_BYTES)
    );
    assert_eq!(chunks.concat(), text);
}

#[test]
fn chunks_of_short_text_are_one_chunk() {
    assert_eq!(utf8_chunks("merhaba"), vec!["merhaba".to_owned()]);
    assert!(utf8_chunks("").is_empty());
}

#[test]
fn empty_and_nul_text_are_rejected_before_backend_use() {
    assert_eq!(
        validate_eis_text("").expect_err("empty text must fail").kind(),
        InsertionErrorKind::InvalidText
    );
    assert_eq!(
        validate_eis_text("hello\0world")
            .expect_err("NUL text must fail")
            .kind(),
        InsertionErrorKind::InvalidText
    );
}

#[test]
fn capability_is_explicitly_wayland_portal_eis() {
    let capability = wayland_eis_capability();
    assert_eq!(capability.backend(), InsertionBackend::XdgRemoteDesktopEis);
    assert_eq!(
        capability.authorization(),
        InsertionAuthorization::XdgRemoteDesktop
    );
    assert!(!capability.semantic_delivery_verifiable());
}

#[test]
fn rejects_blank_device_ids() {
    assert!(AudioDeviceId::new("  ").is_err());
}

#[test]
fn preserves_backend_qualified_device_id() {
    let id = AudioDeviceId::new("wasapi:{device-guid}").expect("id must be valid");
    assert_eq!(id.as_str(), "wasapi:{device-guid}");
}

#[test]
fn normalizes_known_backend_names() {
    assert_eq!(
        AudioBackend::from_host_name("PipeWire"),
        AudioBackend::PipeWire
    );
    assert_eq!(
        AudioBackend::from_host_name("Pulse Audio"),
        AudioBackend::PulseAudio
    );
    assert_eq!(AudioBackend::from_host_name("WASAPI"), AudioBackend::Wasapi);
    assert_eq!(
        AudioBackend::from_host_name("CoreAudio"),
        AudioBackend::CoreAudio
    );
}

#[test]
fn unknown_backends_remain_visible() {
    assert_eq!(
        AudioBackend::from_host_name("FutureHost"),
        AudioBackend::Other("FutureHost".to_owned())
    );
}

#[test]
fn discovery_requires_backend_and_device() {
    let empty = InputDiscovery::default();
    assert!(!empty.has_usable_input());

    let discovery = InputDiscovery {
        selected_backend: Some(AudioBackend::Wasapi),
        devices: vec![InputDeviceInfo {
            id: AudioDeviceId::new("wasapi:mic").expect("valid id"),
            name: "Microphone".to_owned(),
            backend: AudioBackend::Wasapi,
            is_default: true,
            default_config: None,
        }],
        failures: Vec::new(),
    };
    assert!(discovery.has_usable_input());
}

#[test]
fn prefers_desktop_native_linux_hosts() {
    assert!(host_priority("pipewire") < host_priority("pulse audio"));
    assert!(host_priority("pulse audio") < host_priority("alsa"));
    assert!(host_priority("alsa") < host_priority("unknown"));
}
