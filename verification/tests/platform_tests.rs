use blcvoice::platform::{detect_linux_display_server, DesktopEnvironment, DesktopPlatform, LinuxDisplayServer};
use blcvoice::shortcuts::{
    resolve_shortcut_backend, DictationShortcutMode, ShortcutBackend, ShortcutCapabilityError,
    ShortcutController, ShortcutDecision, ShortcutEnvironment, ShortcutModeError, ShortcutPhase,
    DEFAULT_DICTATION_TRIGGER,
};

#[test]
fn session_type_takes_precedence_over_xwayland_display() {
    assert_eq!(
        detect_linux_display_server(Some("wayland"), Some("wayland-0"), Some(":0")),
        LinuxDisplayServer::Wayland
    );
    assert_eq!(
        detect_linux_display_server(Some("x11"), Some("wayland-0"), Some(":0")),
        LinuxDisplayServer::X11
    );
}

#[test]
fn display_variables_are_fallback_evidence() {
    assert_eq!(
        detect_linux_display_server(None, Some("wayland-1"), Some(":0")),
        LinuxDisplayServer::Wayland
    );
    assert_eq!(
        detect_linux_display_server(None, None, Some(":1")),
        LinuxDisplayServer::X11
    );
    assert_eq!(
        detect_linux_display_server(Some("tty"), None, None),
        LinuxDisplayServer::Unknown
    );
}

#[test]
fn blank_values_do_not_create_false_capabilities() {
    assert_eq!(
        detect_linux_display_server(Some("  "), Some(""), Some("   ")),
        LinuxDisplayServer::Unknown
    );
}

#[test]
fn session_type_is_case_insensitive_and_trimmed() {
    assert_eq!(
        detect_linux_display_server(Some("  WayLand\t"), None, Some(":0")),
        LinuxDisplayServer::Wayland
    );
    assert_eq!(
        detect_linux_display_server(Some(" X11 "), Some("wayland-0"), None),
        LinuxDisplayServer::X11
    );
}

#[test]
fn native_platforms_resolve_to_native_global_hotkeys() {
    for platform in [DesktopPlatform::Windows, DesktopPlatform::MacOs] {
        assert_eq!(
            resolve_shortcut_backend(ShortcutEnvironment::new(
                platform,
                LinuxDisplayServer::Unknown,
            )),
            Ok(ShortcutBackend::NativeGlobalHotkey)
        );
    }
}

#[test]
fn linux_x11_resolves_to_x11_backend() {
    assert_eq!(
        resolve_shortcut_backend(ShortcutEnvironment::new(
            DesktopPlatform::Linux,
            LinuxDisplayServer::X11,
        )),
        Ok(ShortcutBackend::X11GlobalHotkey)
    );
}

#[test]
fn linux_wayland_resolves_to_portal_backend() {
    assert_eq!(
        resolve_shortcut_backend(ShortcutEnvironment::new(
            DesktopPlatform::Linux,
            LinuxDisplayServer::Wayland,
        )),
        Ok(ShortcutBackend::XdgDesktopPortal)
    );
}

#[test]
fn unknown_linux_session_is_an_explicit_capability_error() {
    assert_eq!(
        resolve_shortcut_backend(ShortcutEnvironment::new(
            DesktopPlatform::Linux,
            LinuxDisplayServer::Unknown,
        )),
        Err(ShortcutCapabilityError::UnknownLinuxDisplayServer)
    );
}

#[test]
fn other_platforms_are_unsupported() {
    assert_eq!(
        resolve_shortcut_backend(DesktopEnvironment::new(
            DesktopPlatform::Other,
            LinuxDisplayServer::Wayland,
        )),
        Err(ShortcutCapabilityError::UnsupportedPlatform)
    );
}

#[test]
fn xdg_session_type_takes_precedence_over_xwayland_display() {
    assert_eq!(
        detect_linux_display_server(Some("wayland"), Some("wayland-0"), Some(":0")),
        LinuxDisplayServer::Wayland
    );
    assert_eq!(
        detect_linux_display_server(Some("x11"), Some("wayland-0"), Some(":0")),
        LinuxDisplayServer::X11
    );
}

#[test]
fn display_variables_are_used_when_session_type_is_missing() {
    assert_eq!(
        detect_linux_display_server(None, Some("wayland-1"), Some(":0")),
        LinuxDisplayServer::Wayland
    );
    assert_eq!(
        detect_linux_display_server(None, None, Some(":1")),
        LinuxDisplayServer::X11
    );
    assert_eq!(
        detect_linux_display_server(Some("tty"), None, None),
        LinuxDisplayServer::Unknown
    );
}

#[test]
fn blank_environment_values_do_not_create_false_capabilities() {
    assert_eq!(
        detect_linux_display_server(Some("  "), Some(""), Some("   ")),
        LinuxDisplayServer::Unknown
    );
}

#[test]
fn toggle_mode_starts_and_stops_on_distinct_presses() {
    let mut controller = ShortcutController::default();

    assert_eq!(
        controller.handle(ShortcutPhase::Pressed),
        ShortcutDecision::StartDictation
    );
    assert_eq!(
        controller.handle(ShortcutPhase::Released),
        ShortcutDecision::Ignore
    );
    assert_eq!(
        controller.handle(ShortcutPhase::Pressed),
        ShortcutDecision::StopDictation
    );
    assert_eq!(
        controller.handle(ShortcutPhase::Released),
        ShortcutDecision::Ignore
    );
    assert!(!controller.dictation_requested());
}

#[test]
fn toggle_mode_ignores_key_repeat() {
    let mut controller = ShortcutController::default();

    assert_eq!(
        controller.handle(ShortcutPhase::Pressed),
        ShortcutDecision::StartDictation
    );
    assert_eq!(
        controller.handle(ShortcutPhase::Pressed),
        ShortcutDecision::Ignore
    );
    assert!(controller.dictation_requested());
}

#[test]
fn push_to_talk_stops_on_release() {
    let mut controller = ShortcutController::new(DictationShortcutMode::PushToTalk);

    assert_eq!(
        controller.handle(ShortcutPhase::Pressed),
        ShortcutDecision::StartDictation
    );
    assert_eq!(
        controller.handle(ShortcutPhase::Released),
        ShortcutDecision::StopDictation
    );
    assert!(!controller.dictation_requested());
}

#[test]
fn push_to_talk_repeat_does_not_restart() {
    let mut controller = ShortcutController::new(DictationShortcutMode::PushToTalk);

    assert_eq!(
        controller.handle(ShortcutPhase::Pressed),
        ShortcutDecision::StartDictation
    );
    assert_eq!(
        controller.handle(ShortcutPhase::Pressed),
        ShortcutDecision::Ignore
    );
    assert_eq!(
        controller.handle(ShortcutPhase::Released),
        ShortcutDecision::StopDictation
    );
}

#[test]
fn force_idle_keeps_held_push_to_talk_key_from_restarting() {
    let mut controller = ShortcutController::new(DictationShortcutMode::PushToTalk);

    assert_eq!(
        controller.handle(ShortcutPhase::Pressed),
        ShortcutDecision::StartDictation
    );
    controller.force_idle();

    assert_eq!(
        controller.handle(ShortcutPhase::Pressed),
        ShortcutDecision::Ignore
    );
    assert_eq!(
        controller.handle(ShortcutPhase::Released),
        ShortcutDecision::Ignore
    );
    assert!(!controller.dictation_requested());
}

#[test]
fn mode_change_is_rejected_while_active() {
    let mut controller = ShortcutController::default();
    assert_eq!(
        controller.handle(ShortcutPhase::Pressed),
        ShortcutDecision::StartDictation
    );

    assert_eq!(
        controller.set_mode(DictationShortcutMode::PushToTalk),
        Err(ShortcutModeError::Busy)
    );
}

#[test]
fn mode_change_is_accepted_while_idle() {
    let mut controller = ShortcutController::default();
    assert_eq!(controller.set_mode(DictationShortcutMode::PushToTalk), Ok(()));
    assert_eq!(controller.mode(), DictationShortcutMode::PushToTalk);
}

#[test]
fn default_policy_is_toggle_to_talk() {
    assert_eq!(
        ShortcutController::default().mode(),
        DictationShortcutMode::Toggle
    );
    assert_eq!(DEFAULT_DICTATION_TRIGGER, "CTRL+SHIFT+space");
}
