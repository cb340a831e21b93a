//! Global dictation shortcut: backend selection and the press/release state machine.
use vstd::prelude::*;

use crate::platform::{DesktopEnvironment, DesktopPlatform, LinuxDisplayServer};

verus! {

pub type ShortcutEnvironment = DesktopEnvironment;

/// Default BLCVoice dictation shortcut in the XDG shortcuts syntax.
pub const DEFAULT_DICTATION_TRIGGER: &'static str = "CTRL+SHIFT+space";

/// Stable application-level identifier used by native shortcut backends.
pub const DICTATION_SHORTCUT_ID: &'static str = "dictation.toggle";

#[derive(Debug, Clone, Copy, PartialEq, Eq, Structural)]
pub enum ShortcutBackend {
    NativeGlobalHotkey,
    X11GlobalHotkey,
    XdgDesktopPortal,
}

pub open spec fn spec_backend_name(backend: ShortcutBackend) -> Seq<char> {
    match backend {
        ShortcutBackend::NativeGlobalHotkey => "nativeGlobalHotkey"@,
        ShortcutBackend::X11GlobalHotkey => "x11GlobalHotkey"@,
        ShortcutBackend::XdgDesktopPortal => "xdgDesktopPortal"@,
    }
}

impl ShortcutBackend {
    /// The display name of the backend.
    pub fn name(self) -> (name: &'static str)
        ensures
            name@ == spec_backend_name(self),
    {
        match self {
            ShortcutBackend::NativeGlobalHotkey => "nativeGlobalHotkey",
            ShortcutBackend::X11GlobalHotkey => "x11GlobalHotkey",
            ShortcutBackend::XdgDesktopPortal => "xdgDesktopPortal",
        }
    }
}

#[derive(Debug, Clone, Copy, PartialEq, Eq, Structural)]
pub enum ShortcutCapabilityError {
    UnsupportedPlatform,
    UnknownLinuxDisplayServer,
}

pub open spec fn spec_capability_error_message(error: ShortcutCapabilityError) -> Seq<char> {
    match error {
        ShortcutCapabilityError::UnsupportedPlatform =>
            "global shortcuts are not supported on this platform"@,
        ShortcutCapabilityError::UnknownLinuxDisplayServer =>
            "could not determine whether the Linux desktop session uses X11 or Wayland"@,
    }
}

impl ShortcutCapabilityError {
    /// The human-readable message of the error.
    pub fn message(self) -> (message: &'static str)
        ensures
            message@ == spec_capability_error_message(self),
    {
        match self {
            ShortcutCapabilityError::UnsupportedPlatform => {
                "global shortcuts are not supported on this platform"
            },
            ShortcutCapabilityError::UnknownLinuxDisplayServer => {
                "could not determine whether the Linux desktop session uses X11 or Wayland"
            },
        }
    }
}

pub open spec fn spec_resolve_shortcut_backend(
    platform: DesktopPlatform,
    server: LinuxDisplayServer,
) -> Result<ShortcutBackend, ShortcutCapabilityError> {
    match platform {
        DesktopPlatform::Windows | DesktopPlatform::MacOs => Ok(
            ShortcutBackend::NativeGlobalHotkey,
        ),
        DesktopPlatform::Linux => match server {
            LinuxDisplayServer::X11 => Ok(ShortcutBackend::X11GlobalHotkey),
            LinuxDisplayServer::Wayland => Ok(ShortcutBackend::XdgDesktopPortal),
            LinuxDisplayServer::Unknown => Err(ShortcutCapabilityError::UnknownLinuxDisplayServer),
        },
        DesktopPlatform::Other => Err(ShortcutCapabilityError::UnsupportedPlatform),
    }
}

/// Resolve the non-invasive shortcut backend allowed for one desktop environment.
///
/// Wayland deliberately maps to the compositor-mediated XDG Desktop Portal path;
/// it never falls back to raw global input capture.
pub fn resolve_shortcut_backend(environment: ShortcutEnvironment) -> (result: Result<
    ShortcutBackend,
    ShortcutCapabilityError,
>)
    ensures
        result == spec_resolve_shortcut_backend(
            environment.spec_platform(),
            environment.spec_linux_display_server(),
        ),
{
    match (environment.platform(), environment.linux_display_server()) {
        (DesktopPlatform::Windows, _) | (DesktopPlatform::MacOs, _) => Ok(
            ShortcutBackend::NativeGlobalHotkey,
        ),
        (DesktopPlatform::Linux, LinuxDisplayServer::X11) => Ok(ShortcutBackend::X11GlobalHotkey),
        (DesktopPlatform::Linux, LinuxDisplayServer::Wayland) => Ok(
            ShortcutBackend::XdgDesktopPortal,
        ),
        (DesktopPlatform::Linux, LinuxDisplayServer::Unknown) => Err(
            ShortcutCapabilityError::UnknownLinuxDisplayServer,
        ),
        (DesktopPlatform::Other, _) => Err(ShortcutCapabilityError::UnsupportedPlatform),
    }
}

/// A Wayland session always gets the portal backend: never raw input capture.
pub proof fn law_wayland_never_uses_raw_capture(platform: DesktopPlatform)
    ensures
        platform == DesktopPlatform::Linux ==> spec_resolve_shortcut_backend(
            platform,
            LinuxDisplayServer::Wayland,
        ) == Ok::<ShortcutBackend, ShortcutCapabilityError>(ShortcutBackend::XdgDesktopPortal),
{
}

#[derive(Debug, Clone, Copy, PartialEq, Eq, Structural)]
pub enum DictationShortcutMode {
    /// Press once to start recording, press again to stop.
    Toggle,
    /// Hold the shortcut to record, release it to stop.
    PushToTalk,
}

impl DictationShortcutMode {
    /// The default interaction mode: toggle-to-talk.
    pub fn default_mode() -> (mode: Self)
        ensures
            mode == DictationShortcutMode::Toggle,
    {
        DictationShortcutMode::Toggle
    }

    /// The display name of the mode.
    pub fn name(self) -> (name: &'static str)
        ensures
            name@ == match self {
                DictationShortcutMode::Toggle => "toggle"@,
                DictationShortcutMode::PushToTalk => "pushToTalk"@,
            },
    {
        match self {
            DictationShortcutMode::Toggle => "toggle",
            DictationShortcutMode::PushToTalk => "pushToTalk",
        }
    }
}

impl Default for DictationShortcutMode {
    fn default() -> (mode: Self)
        ensures
            mode == DictationShortcutMode::Toggle,
    {
        DictationShortcutMode::Toggle
    }
}

#[derive(Debug, Clone, Copy, PartialEq, Eq, Structural)]
pub enum ShortcutPhase {
    Pressed,
    Released,
}

#[derive(Debug, Clone, Copy, PartialEq, Eq, Structural)]
pub enum ShortcutDecision {
    StartDictation,
    StopDictation,
    Ignore,
}

/// The abstract state of a shortcut controller.
pub struct ControllerState {
    pub mode: DictationShortcutMode,
    pub key_is_down: bool,
    pub dictation_requested: bool,
}

/// What one press or release does to a controller: the next state and the decision.
pub open spec fn spec_handle(s: ControllerState, phase: ShortcutPhase) -> (
    ControllerState,
    ShortcutDecision,
) {
    match phase {
        ShortcutPhase::Pressed => if s.key_is_down {
            (s, ShortcutDecision::Ignore)
        } else {
            match s.mode {
                DictationShortcutMode::Toggle => {
                    let requested = !s.dictation_requested;
                    (
                        ControllerState {
                            mode: s.mode,
                            key_is_down: true,
                            dictation_requested: requested,
                        },
                        if requested {
                            ShortcutDecision::StartDictation
                        } else {
                            ShortcutDecision::StopDictation
                        },
                    )
                },
                DictationShortcutMode::PushToTalk => if s.dictation_requested {
                    (
                        ControllerState { mode: s.mode, key_is_down: true, dictation_requested: true },
                        ShortcutDecision::Ignore,
                    )
                } else {
                    (
                        ControllerState { mode: s.mode, key_is_down: true, dictation_requested: true },
                        ShortcutDecision::StartDictation,
                    )
                },
            }
        },
        ShortcutPhase::Released => if !s.key_is_down {
            (s, ShortcutDecision::Ignore)
        } else {
            match s.mode {
                DictationShortcutMode::Toggle => (
                    ControllerState {
                        mode: s.mode,
                        key_is_down: false,
                        dictation_requested: s.dictation_requested,
                    },
                    ShortcutDecision::Ignore,
                ),
                DictationShortcutMode::PushToTalk => if s.dictation_requested {
                    (
                        ControllerState {
                            mode: s.mode,
                            key_is_down: false,
                            dictation_requested: false,
                        },
                        ShortcutDecision::StopDictation,
                    )
                } else {
                    (
                        ControllerState {
                            mode: s.mode,
                            key_is_down: false,
                            dictation_requested: false,
                        },
                        ShortcutDecision::Ignore,
                    )
                },
            }
        },
    }
}

/// Runtime-independent state machine for one dictation shortcut.
///
/// Native backends may deliver repeated key-down events while a key remains
/// physically held. `ShortcutController` suppresses those repeats so toggle
/// mode cannot immediately start and stop from keyboard auto-repeat.
#[derive(Debug, Clone, Copy, PartialEq, Eq, Structural)]
pub struct ShortcutController {
    mode: DictationShortcutMode,
    key_is_down: bool,
    dictation_requested: bool,
}

impl View for ShortcutController {
    type V = ControllerState;

    closed spec fn view(&self) -> ControllerState {
        ControllerState {
            mode: self.mode,
            key_is_down: self.key_is_down,
            dictation_requested: self.dictation_requested,
        }
    }
}

impl ShortcutController {
    pub fn new(mode: DictationShortcutMode) -> (controller: Self)
        ensures
            controller@ == (ControllerState { mode, key_is_down: false, dictation_requested: false }),
    {
        ShortcutController { mode, key_is_down: false, dictation_requested: false }
    }

    pub fn mode(&self) -> (mode: DictationShortcutMode)
        ensures
            mode == self@.mode,
    {
        self.mode
    }

    pub fn dictation_requested(&self) -> (requested: bool)
        ensures
            requested == self@.dictation_requested,
    {
        self.dictation_requested
    }

    /// Apply a native shortcut press/release event.
    pub fn handle(&mut self, phase: ShortcutPhase) -> (decision: ShortcutDecision)
        ensures
            (final(self)@, decision) == spec_handle(old(self)@, phase),
    {
        match phase {
            ShortcutPhase::Pressed => self.handle_pressed(),
            ShortcutPhase::Released => self.handle_released(),
        }
    }

    /// Reconcile shortcut state when dictation is cancelled or terminated by
    /// another subsystem. Physical key state is preserved so a held
    /// push-to-talk key cannot immediately restart the session.
    pub fn force_idle(&mut self)
        ensures
            final(self)@ == (ControllerState {
                mode: old(self)@.mode,
                key_is_down: old(self)@.key_is_down,
                dictation_requested: false,
            }),
    {
        self.dictation_requested = false;
    }

    /// Change interaction mode only while no dictation is requested and no
    /// shortcut key is physically held.
    pub fn set_mode(&mut self, mode: DictationShortcutMode) -> (result: Result<(), ShortcutModeError>)
        ensures
            if old(self)@.dictation_requested || old(self)@.key_is_down {
                &&& result == Err::<(), ShortcutModeError>(ShortcutModeError::Busy)
                &&& final(self)@ == old(self)@
            } else {
                &&& result == Ok::<(), ShortcutModeError>(())
                &&& final(self)@ == (ControllerState {
                    mode,
                    key_is_down: false,
                    dictation_requested: false,
                })
            },
    {
        if self.dictation_requested || self.key_is_down {
            return Err(ShortcutModeError::Busy);
        }
        self.mode = mode;
        Ok(())
    }

    fn handle_pressed(&mut self) -> (decision: ShortcutDecision)
        ensures
            (final(self)@, decision) == spec_handle(old(self)@, ShortcutPhase::Pressed),
    {
        if self.key_is_down {
            return ShortcutDecision::Ignore;
        }
        self.key_is_down = true;
        match self.mode {
            DictationShortcutMode::Toggle => {
                self.dictation_requested = !self.dictation_requested;
                if self.dictation_requested {
                    ShortcutDecision::StartDictation
                } else {
                    ShortcutDecision::StopDictation
                }
            },
            DictationShortcutMode::PushToTalk => {
                if self.dictation_requested {
                    ShortcutDecision::Ignore
                } else {
                    self.dictation_requested = true;
                    ShortcutDecision::StartDictation
                }
            },
        }
    }

    fn handle_released(&mut self) -> (decision: ShortcutDecision)
        ensures
            (final(self)@, decision) == spec_handle(old(self)@, ShortcutPhase::Released),
    {
        if !self.key_is_down {
            return ShortcutDecision::Ignore;
        }
        self.key_is_down = false;
        match self.mode {
            DictationShortcutMode::Toggle => ShortcutDecision::Ignore,
            DictationShortcutMode::PushToTalk => {
                if self.dictation_requested {
                    self.dictation_requested = false;
                    ShortcutDecision::StopDictation
                } else {
                    ShortcutDecision::Ignore
                }
            },
        }
    }
}

impl Default for ShortcutController {
    fn default() -> (controller: Self)
        ensures
            controller@ == (ControllerState {
                mode: DictationShortcutMode::Toggle,
                key_is_down: false,
                dictation_requested: false,
            }),
    {
        ShortcutController::new(DictationShortcutMode::Toggle)
    }
}

#[derive(Debug, Clone, Copy, PartialEq, Eq, Structural)]
pub enum ShortcutModeError {
    Busy,
}

impl ShortcutModeError {
    /// The human-readable message of the error.
    pub fn message(self) -> (message: &'static str)
        ensures
            message@
                == "shortcut mode cannot change while the shortcut is held or dictation is active"@,
    {
        "shortcut mode cannot change while the shortcut is held or dictation is active"
    }
}

/// Key auto-repeat never changes anything: a press while the key is held is
/// ignored and leaves the controller as it was, in both modes.
pub proof fn law_key_repeat_is_ignored(s: ControllerState)
    requires
        s.key_is_down,
    ensures
        spec_handle(s, ShortcutPhase::Pressed) == (s, ShortcutDecision::Ignore),
{
}

/// In toggle mode two distinct presses start and then stop dictation.
pub proof fn law_toggle_presses_alternate(s: ControllerState)
    requires
        s.mode == DictationShortcutMode::Toggle,
        !s.key_is_down,
    ensures
        ({
            let (a, d1) = spec_handle(s, ShortcutPhase::Pressed);
            let (b, d2) = spec_handle(a, ShortcutPhase::Released);
            let (c, d3) = spec_handle(b, ShortcutPhase::Pressed);
            &&& d2 == ShortcutDecision::Ignore
            &&& (d1 == ShortcutDecision::StartDictation <==> d3 == ShortcutDecision::StopDictation)
            &&& c.dictation_requested == s.dictation_requested
        }),
{
}

/// In push-to-talk mode, releasing the key that started dictation stops it.
pub proof fn law_push_to_talk_release_stops(s: ControllerState)
    requires
        s.mode == DictationShortcutMode::PushToTalk,
        !s.key_is_down,
        !s.dictation_requested,
    ensures
        ({
            let (a, d1) = spec_handle(s, ShortcutPhase::Pressed);
            let (b, d2) = spec_handle(a, ShortcutPhase::Released);
            &&& d1 == ShortcutDecision::StartDictation
            &&& d2 == ShortcutDecision::StopDictation
            &&& !b.dictation_requested
        }),
{
}

/// Every decision that starts dictation leaves dictation requested, and every
/// decision that stops it leaves it not requested; the mode never changes.
pub proof fn law_decisions_match_requested_state(s: ControllerState, phase: ShortcutPhase)
    ensures
        ({
            let (t, d) = spec_handle(s, phase);
            &&& t.mode == s.mode
            &&& d == ShortcutDecision::StartDictation ==> t.dictation_requested
            &&& d == ShortcutDecision::StopDictation ==> !t.dictation_requested
            &&& d == ShortcutDecision::Ignore ==> (t.dictation_requested == s.dictation_requested
                || (s.mode == DictationShortcutMode::PushToTalk && !s.dictation_requested))
        }),
{
}

/// A push-to-talk key held across a forced idle cannot restart dictation until
/// it is released and pressed again.
pub proof fn law_force_idle_keeps_held_key_from_restarting(s: ControllerState)
    requires
        s.key_is_down,
    ensures
        ({
            let idle = ControllerState {
                mode: s.mode,
                key_is_down: s.key_is_down,
                dictation_requested: false,
            };
            &&& spec_handle(idle, ShortcutPhase::Pressed).1 == ShortcutDecision::Ignore
            &&& spec_handle(idle, ShortcutPhase::Released).1 == ShortcutDecision::Ignore
        }),
{
}

} // verus!
