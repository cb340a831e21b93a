//! The desktop shortcut service: which backend the environment allows, how
//! far its registration went, and the routing of key phases to the dictation
//! controller only once a shortcut is registered.
use vstd::prelude::*;

use crate::platform::{DesktopEnvironment, DesktopPlatform, LinuxDisplayServer};
use crate::shortcuts::{
    spec_handle, spec_resolve_shortcut_backend, ControllerState, DictationShortcutMode,
    ShortcutBackend, ShortcutCapabilityError, ShortcutController, ShortcutDecision, ShortcutPhase,
    resolve_shortcut_backend,
};

verus! {

/// Name of the event that reports each routed shortcut decision.
pub const SHORTCUT_DECISION_EVENT: &'static str = "blcvoice://shortcut-decision";

#[derive(Debug, Clone, Copy, PartialEq, Eq, Structural)]
pub enum ShortcutRegistrationState {
    Pending,
    Registering,
    ConfigurationRequired,
    Registered,
    Failed,
    Unavailable,
}

impl ShortcutRegistrationState {
    pub open spec fn spec_as_str(self) -> Seq<char> {
        match self {
            ShortcutRegistrationState::Pending => "pending"@,
            ShortcutRegistrationState::Registering => "registering"@,
            ShortcutRegistrationState::ConfigurationRequired => "configuration required"@,
            ShortcutRegistrationState::Registered => "registered"@,
            ShortcutRegistrationState::Failed => "failed"@,
            ShortcutRegistrationState::Unavailable => "unavailable"@,
        }
    }

    pub fn as_str(self) -> (name: &'static str)
        ensures
            name@ == self.spec_as_str(),
    {
        match self {
            ShortcutRegistrationState::Pending => "pending",
            ShortcutRegistrationState::Registering => "registering",
            ShortcutRegistrationState::ConfigurationRequired => "configuration required",
            ShortcutRegistrationState::Registered => "registered",
            ShortcutRegistrationState::Failed => "failed",
            ShortcutRegistrationState::Unavailable => "unavailable",
        }
    }
}

pub open spec fn text_opt(value: Option<String>) -> Option<Seq<char>> {
    match value {
        Some(v) => Some(v@),
        None => None,
    }
}

#[verifier::ext_equal]
pub struct ShortcutServiceView {
    pub platform: DesktopPlatform,
    pub linux_display_server: LinuxDisplayServer,
    pub backend: Option<ShortcutBackend>,
    pub selection_error: Option<ShortcutCapabilityError>,
    pub registration_state: ShortcutRegistrationState,
    pub registration_error: Option<Seq<char>>,
    pub bound_trigger_description: Option<Seq<char>>,
    pub controller: ControllerState,
}

#[derive(Debug)]
pub struct ShortcutService {
    environment: DesktopEnvironment,
    backend: Option<ShortcutBackend>,
    selection_error: Option<ShortcutCapabilityError>,
    registration_state: ShortcutRegistrationState,
    registration_error: Option<String>,
    bound_trigger_description: Option<String>,
    controller: ShortcutController,
}

impl View for ShortcutService {
    type V = ShortcutServiceView;

    closed spec fn view(&self) -> ShortcutServiceView {
        ShortcutServiceView {
            platform: self.environment.spec_platform(),
            linux_display_server: self.environment.spec_linux_display_server(),
            backend: self.backend,
            selection_error: self.selection_error,
            registration_state: self.registration_state,
            registration_error: text_opt(self.registration_error),
            bound_trigger_description: text_opt(self.bound_trigger_description),
            controller: self.controller@,
        }
    }
}

/// What the capability report shows as the registration state.
pub open spec fn spec_registration_text(
    state: ShortcutRegistrationState,
    trigger: Option<Seq<char>>,
) -> Seq<char> {
    match state {
        ShortcutRegistrationState::ConfigurationRequired =>
            "configuration required · KDE shortcut settings opened"@,
        ShortcutRegistrationState::Registered => match trigger {
            Some(t) => "registered · "@ + t,
            None => "registered"@,
        },
        other => other.spec_as_str(),
    }
}

pub open spec fn spec_error_code(error: ShortcutCapabilityError) -> Seq<char> {
    match error {
        ShortcutCapabilityError::UnsupportedPlatform => "unsupported_platform"@,
        ShortcutCapabilityError::UnknownLinuxDisplayServer => "unknown_linux_display_server"@,
    }
}

/// The stable code of a backend selection error.
pub fn shortcut_capability_error_code(error: ShortcutCapabilityError) -> (code: &'static str)
    ensures
        code@ == spec_error_code(error),
{
    match error {
        ShortcutCapabilityError::UnsupportedPlatform => "unsupported_platform",
        ShortcutCapabilityError::UnknownLinuxDisplayServer => "unknown_linux_display_server",
    }
}

pub fn shortcut_phase_name(phase: ShortcutPhase) -> (name: &'static str)
    ensures
        name@ == match phase {
            ShortcutPhase::Pressed => "pressed"@,
            ShortcutPhase::Released => "released"@,
        },
{
    match phase {
        ShortcutPhase::Pressed => "pressed",
        ShortcutPhase::Released => "released",
    }
}

pub fn shortcut_decision_name(decision: ShortcutDecision) -> (name: &'static str)
    ensures
        name@ == match decision {
            ShortcutDecision::StartDictation => "startDictation"@,
            ShortcutDecision::StopDictation => "stopDictation"@,
            ShortcutDecision::Ignore => "ignore"@,
        },
{
    match decision {
        ShortcutDecision::StartDictation => "startDictation",
        ShortcutDecision::StopDictation => "stopDictation",
        ShortcutDecision::Ignore => "ignore",
    }
}

#[derive(Debug, Clone, PartialEq, Eq)]
pub struct ShortcutCapabilityErrorDto {
    pub code: &'static str,
    pub message: String,
}

#[derive(Debug, Clone, PartialEq, Eq)]
pub struct ShortcutCapabilityDto {
    pub platform: String,
    pub linux_display_server: Option<String>,
    pub selected_backend: Option<String>,
    pub registration_implemented: bool,
    pub registration_state: String,
    pub registration_error: Option<String>,
    pub selection_error: Option<ShortcutCapabilityErrorDto>,
}

#[derive(Debug, Clone, PartialEq, Eq)]
pub struct ShortcutStatusDto {
    pub backend: &'static str,
    pub registration: &'static str,
    pub preferred_trigger: String,
    pub trigger_description: Option<String>,
    pub mode: String,
    pub activations: u64,
    pub deactivations: u64,
    pub last_decision: Option<&'static str>,
    pub last_error: Option<String>,
}

fn copy_text(value: &Option<String>) -> (copy: Option<String>)
    ensures
        text_opt(copy) == text_opt(*value),
{
    match value {
        Some(v) => Some(v.clone()),
        None => None,
    }
}

impl ShortcutService {
    /// The service for `environment`: a backend is selected when the
    /// environment allows one, and its registration is then pending.
    pub fn for_environment(environment: DesktopEnvironment) -> (service: Self)
        ensures
            service@.platform == environment.spec_platform(),
            service@.linux_display_server == environment.spec_linux_display_server(),
            match spec_resolve_shortcut_backend(
                environment.spec_platform(),
                environment.spec_linux_display_server(),
            ) {
                Ok(backend) => service@.backend == Some(backend) && service@.selection_error is None
                    && service@.registration_state == ShortcutRegistrationState::Pending,
                Err(error) => service@.backend is None && service@.selection_error == Some(error)
                    && service@.registration_state == ShortcutRegistrationState::Unavailable,
            },
            service@.registration_error is None,
            service@.bound_trigger_description is None,
            service@.controller == (ControllerState {
                mode: DictationShortcutMode::Toggle,
                key_is_down: false,
                dictation_requested: false,
            }),
    {
        let (backend, selection_error, registration_state) = match resolve_shortcut_backend(
            environment,
        ) {
            Ok(backend) => (Some(backend), None, ShortcutRegistrationState::Pending),
            Err(error) => (None, Some(error), ShortcutRegistrationState::Unavailable),
        };
        ShortcutService {
            environment,
            backend,
            selection_error,
            registration_state,
            registration_error: None,
            bound_trigger_description: None,
            controller: ShortcutController::new(DictationShortcutMode::Toggle),
        }
    }

    pub fn backend(&self) -> (backend: Option<ShortcutBackend>)
        ensures
            backend == self@.backend,
    {
        self.backend
    }

    /// Registration has started; a service without a backend is unchanged.
    pub fn mark_registering(&mut self)
        ensures
            final(self)@ == (if old(self)@.backend is Some {
                ShortcutServiceView {
                    registration_state: ShortcutRegistrationState::Registering,
                    registration_error: None,
                    bound_trigger_description: None,
                    ..old(self)@
                }
            } else {
                old(self)@
            }),
    {
        if self.backend.is_some() {
            self.registration_state = ShortcutRegistrationState::Registering;
            self.registration_error = None;
            self.bound_trigger_description = None;
        }
    }

    /// The shortcut is bound but has no trigger yet: the user must configure
    /// one, and no dictation stays requested meanwhile.
    pub fn mark_configuration_required(&mut self)
        ensures
            final(self)@ == (if old(self)@.backend is Some {
                ShortcutServiceView {
                    registration_state: ShortcutRegistrationState::ConfigurationRequired,
                    registration_error: None,
                    bound_trigger_description: None,
                    controller: ControllerState { dictation_requested: false, ..old(self)@.controller },
                    ..old(self)@
                }
            } else {
                old(self)@
            }),
    {
        if self.backend.is_some() {
            self.registration_state = ShortcutRegistrationState::ConfigurationRequired;
            self.registration_error = None;
            self.bound_trigger_description = None;
            self.controller.force_idle();
        }
    }

    /// The shortcut is registered with the given trigger.
    pub fn mark_registered(&mut self, trigger_description: Option<String>)
        ensures
            final(self)@ == (if old(self)@.backend is Some {
                ShortcutServiceView {
                    registration_state: ShortcutRegistrationState::Registered,
                    registration_error: None,
                    bound_trigger_description: text_opt(trigger_description),
                    ..old(self)@
                }
            } else {
                old(self)@
            }),
    {
        if self.backend.is_some() {
            self.registration_state = ShortcutRegistrationState::Registered;
            self.registration_error = None;
            self.bound_trigger_description = trigger_description;
        }
    }

    /// Registration failed with `message`; no dictation stays requested.
    pub fn mark_failed(&mut self, message: String)
        ensures
            final(self)@ == (ShortcutServiceView {
                registration_state: ShortcutRegistrationState::Failed,
                registration_error: Some(message@),
                bound_trigger_description: None,
                controller: ControllerState { dictation_requested: false, ..old(self)@.controller },
                ..old(self)@
            }),
    {
        self.registration_state = ShortcutRegistrationState::Failed;
        self.registration_error = Some(message);
        self.bound_trigger_description = None;
        self.controller.force_idle();
    }

    /// Routes a key phase to the controller once the shortcut is registered;
    /// before that every phase is ignored and nothing changes.
    pub fn handle_phase(&mut self, phase: ShortcutPhase) -> (decision: ShortcutDecision)
        ensures
            if old(self)@.registration_state == ShortcutRegistrationState::Registered {
                (final(self)@.controller, decision) == spec_handle(old(self)@.controller, phase)
                    && final(self)@ == (ShortcutServiceView {
                    controller: final(self)@.controller,
                    ..old(self)@
                })
            } else {
                decision == ShortcutDecision::Ignore && final(self)@ == old(self)@
            },
    {
        if self.registration_state != ShortcutRegistrationState::Registered {
            return ShortcutDecision::Ignore;
        }
        self.controller.handle(phase)
    }

    /// Clears a pending dictation request, keeping the physical key state.
    pub fn reset_controller(&mut self)
        ensures
            final(self)@ == (ShortcutServiceView {
                controller: ControllerState { dictation_requested: false, ..old(self)@.controller },
                ..old(self)@
            }),
    {
        self.controller.force_idle();
    }

    /// The report shown to the user about shortcut support and registration.
    pub fn capability(&self) -> (dto: ShortcutCapabilityDto)
        ensures
            dto.platform@ == crate::platform::spec_platform_name(self@.platform),
            text_opt(dto.linux_display_server) == (if self@.platform == DesktopPlatform::Linux {
                Some(crate::platform::spec_display_server_name(self@.linux_display_server))
            } else {
                None
            }),
            text_opt(dto.selected_backend) == match self@.backend {
                Some(b) => Some(crate::shortcuts::spec_backend_name(b)),
                None => None,
            },
            dto.registration_implemented == self@.backend is Some,
            dto.registration_state@ == spec_registration_text(
                self@.registration_state,
                self@.bound_trigger_description,
            ),
            text_opt(dto.registration_error) == self@.registration_error,
            match self@.selection_error {
                Some(e) => dto.selection_error matches Some(d) && d.code@ == spec_error_code(e)
                    && d.message@ == crate::shortcuts::spec_capability_error_message(e),
                None => dto.selection_error is None,
            },
    {
        let platform = self.environment.platform();
        let linux_display_server = match platform {
            DesktopPlatform::Linux => Some(
                String::from_str(self.environment.linux_display_server().name()),
            ),
            _ => None,
        };
        let registration_state = match self.registration_state {
            ShortcutRegistrationState::ConfigurationRequired => String::from_str(
                "configuration required · KDE shortcut settings opened",
            ),
            ShortcutRegistrationState::Registered => match &self.bound_trigger_description {
                Some(trigger) => {
                    let mut text = String::from_str("registered · ");
                    text.append(trigger.as_str());
                    text
                },
                None => String::from_str("registered"),
            },
            other => String::from_str(other.as_str()),
        };
        ShortcutCapabilityDto {
            platform: String::from_str(platform.name()),
            linux_display_server,
            selected_backend: match self.backend {
                Some(backend) => Some(String::from_str(backend.name())),
                None => None,
            },
            registration_implemented: self.backend.is_some(),
            registration_state,
            registration_error: copy_text(&self.registration_error),
            selection_error: match self.selection_error {
                Some(error) => Some(
                    ShortcutCapabilityErrorDto {
                        code: shortcut_capability_error_code(error),
                        message: String::from_str(error.message()),
                    },
                ),
                None => None,
            },
        }
    }
}

/// A shortcut as the desktop portal reports it.
#[derive(Debug, Clone, PartialEq, Eq)]
pub struct PortalShortcut {
    pub id: String,
    pub trigger_description: String,
}

/// The first reported shortcut with the dictation identifier, at or after `from`.
pub open spec fn dictation_shortcut_from(shortcuts: Seq<PortalShortcut>, from: int) -> Option<int>
    decreases shortcuts.len() - from,
{
    if from < 0 || from >= shortcuts.len() {
        None
    } else if shortcuts[from].id@ == crate::shortcuts::DICTATION_SHORTCUT_ID@ {
        Some(from)
    } else {
        dictation_shortcut_from(shortcuts, from + 1)
    }
}

/// The trigger bound to the dictation shortcut: the trimmed description of
/// the first dictation shortcut reported, when it is not blank.
pub open spec fn spec_trigger_for_shortcut(shortcuts: Seq<PortalShortcut>) -> Option<Seq<char>> {
    match dictation_shortcut_from(shortcuts, 0) {
        Some(i) => crate::platform::non_empty(Some(shortcuts[i].trigger_description@)),
        None => None,
    }
}

pub fn trigger_for_shortcut(shortcuts: &Vec<PortalShortcut>) -> (trigger: Option<String>)
    ensures
        text_opt(trigger) == spec_trigger_for_shortcut(shortcuts@),
{
    let n = shortcuts.len();
    let mut i: usize = 0;
    while i < n
        invariant
            n == shortcuts@.len(),
            i <= n,
            dictation_shortcut_from(shortcuts@, 0) == dictation_shortcut_from(shortcuts@, i as int),
        decreases n - i,
    {
        if crate::text::str_eq(shortcuts[i].id.as_str(), crate::shortcuts::DICTATION_SHORTCUT_ID) {
            let trigger = crate::text::trimmed(shortcuts[i].trigger_description.as_str());
            proof {
                crate::text::lemma_trim_empty_iff_blank(shortcuts@[i as int].trigger_description@);
            }
            if trigger.as_str().is_empty() {
                return None;
            }
            return Some(trigger);
        }
        i = i + 1;
    }
    None
}

/// Whether the portal's answer to the binding request contains the dictation
/// shortcut.
pub fn response_has_dictation_shortcut(shortcuts: &Vec<PortalShortcut>) -> (found: bool)
    ensures
        found == (dictation_shortcut_from(shortcuts@, 0) is Some),
{
    let n = shortcuts.len();
    let mut i: usize = 0;
    while i < n
        invariant
            n == shortcuts@.len(),
            i <= n,
            dictation_shortcut_from(shortcuts@, 0) == dictation_shortcut_from(shortcuts@, i as int),
        decreases n - i,
    {
        if crate::text::str_eq(shortcuts[i].id.as_str(), crate::shortcuts::DICTATION_SHORTCUT_ID) {
            return true;
        }
        i = i + 1;
    }
    false
}

/// How a portal binding proceeds once the portal answered.
#[derive(Debug, Clone, PartialEq, Eq)]
pub enum PortalRegistration {
    /// The shortcut is bound to the given trigger.
    Registered(String),
    /// The shortcut has no trigger; the portal's configuration dialog is opened.
    ConfigurationRequired,
}

/// With a trigger the shortcut is registered; without one, a portal of version
/// two or later opens its configuration dialog, and an older one fails.
pub fn portal_registration(initial_trigger: Option<String>, portal_version: u32) -> (result: Result<
    PortalRegistration,
    String,
>)
    ensures
        match initial_trigger {
            Some(t) => result matches Ok(PortalRegistration::Registered(r)) && r@ == t@,
            None => if portal_version >= 2 {
                result matches Ok(PortalRegistration::ConfigurationRequired)
            } else {
                result matches Err(m) && m@
                    == "the desktop portal returned the BLCVoice shortcut without a trigger and GlobalShortcuts v"@
                    + crate::text::decimal(portal_version as nat)
                    + " cannot open the configuration UI"@
            },
        },
{
    match initial_trigger {
        Some(trigger) => Ok(PortalRegistration::Registered(trigger)),
        None => {
            if portal_version >= 2 {
                Ok(PortalRegistration::ConfigurationRequired)
            } else {
                let mut message = String::from_str(
                    "the desktop portal returned the BLCVoice shortcut without a trigger and GlobalShortcuts v",
                );
                message.append(crate::text::u64_to_decimal(portal_version as u64).as_str());
                message.append(" cannot open the configuration UI");
                Err(message)
            }
        },
    }
}

impl ShortcutService {
    /// The portal reported a new binding: registered with its trigger, or in
    /// need of configuration (with no dictation left requested) when it has
    /// none. A service without a backend is unchanged.
    pub fn binding_changed(&mut self, trigger: Option<String>)
        ensures
            final(self)@ == (if old(self)@.backend is None {
                old(self)@
            } else if trigger is Some {
                ShortcutServiceView {
                    registration_state: ShortcutRegistrationState::Registered,
                    registration_error: None,
                    bound_trigger_description: text_opt(trigger),
                    ..old(self)@
                }
            } else {
                ShortcutServiceView {
                    registration_state: ShortcutRegistrationState::ConfigurationRequired,
                    registration_error: None,
                    bound_trigger_description: None,
                    controller: ControllerState { dictation_requested: false, ..old(self)@.controller },
                    ..old(self)@
                }
            }),
    {
        match trigger {
            Some(t) => self.mark_registered(Some(t)),
            None => self.mark_configuration_required(),
        }
    }
}

} // verus!
