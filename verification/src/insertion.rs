//! Text-insertion capability selection, receipts and errors.
use vstd::prelude::*;

use crate::platform::{DesktopEnvironment, DesktopPlatform, LinuxDisplayServer};

verus! {

pub type InsertionEnvironment = DesktopEnvironment;

#[derive(Debug, Clone, Copy, PartialEq, Eq, Structural)]
pub enum InsertionBackend {
    WindowsSendInput,
    MacOsQuartz,
    X11XTest,
    XdgRemoteDesktopEis,
}

pub open spec fn spec_backend_name(backend: InsertionBackend) -> Seq<char> {
    match backend {
        InsertionBackend::WindowsSendInput => "windowsSendInput"@,
        InsertionBackend::MacOsQuartz => "macOsQuartz"@,
        InsertionBackend::X11XTest => "x11XTest"@,
        InsertionBackend::XdgRemoteDesktopEis => "xdgRemoteDesktopEis"@,
    }
}

impl InsertionBackend {
    /// The display name of the backend.
    pub fn name(self) -> (name: &'static str)
        ensures
            name@ == spec_backend_name(self),
    {
        match self {
            InsertionBackend::WindowsSendInput => "windowsSendInput",
            InsertionBackend::MacOsQuartz => "macOsQuartz",
            InsertionBackend::X11XTest => "x11XTest",
            InsertionBackend::XdgRemoteDesktopEis => "xdgRemoteDesktopEis",
        }
    }
}

#[derive(Debug, Clone, Copy, PartialEq, Eq, Structural)]
pub enum InsertionAuthorization {
    NotRequired,
    MacOsAccessibility,
    XdgRemoteDesktop,
}

pub open spec fn spec_authorization_name(authorization: InsertionAuthorization) -> Seq<char> {
    match authorization {
        InsertionAuthorization::NotRequired => "none"@,
        InsertionAuthorization::MacOsAccessibility => "macOsAccessibility"@,
        InsertionAuthorization::XdgRemoteDesktop => "xdgRemoteDesktop"@,
    }
}

impl InsertionAuthorization {
    /// The display name of the authorization.
    pub fn name(self) -> (name: &'static str)
        ensures
            name@ == spec_authorization_name(self),
    {
        match self {
            InsertionAuthorization::NotRequired => "none",
            InsertionAuthorization::MacOsAccessibility => "macOsAccessibility",
            InsertionAuthorization::XdgRemoteDesktop => "xdgRemoteDesktop",
        }
    }
}

#[derive(Debug, Clone, Copy, PartialEq, Eq, Structural)]
pub struct InsertionCapability {
    backend: InsertionBackend,
    authorization: InsertionAuthorization,
}

impl InsertionCapability {
    pub closed spec fn spec_backend(&self) -> InsertionBackend {
        self.backend
    }

    pub closed spec fn spec_authorization(&self) -> InsertionAuthorization {
        self.authorization
    }

    pub fn new(backend: InsertionBackend, authorization: InsertionAuthorization) -> (capability: Self)
        ensures
            capability.spec_backend() == backend,
            capability.spec_authorization() == authorization,
    {
        InsertionCapability { backend, authorization }
    }

    pub fn backend(&self) -> (backend: InsertionBackend)
        ensures
            backend == self.spec_backend(),
    {
        self.backend
    }

    pub fn authorization(&self) -> (authorization: InsertionAuthorization)
        ensures
            authorization == self.spec_authorization(),
    {
        self.authorization
    }

    /// Synthetic input APIs generally cannot prove that a target application's
    /// editable field actually changed. A successful backend receipt therefore
    /// means complete submission to the selected platform mechanism, not semantic
    /// verification of target content.
    pub fn semantic_delivery_verifiable(&self) -> (verifiable: bool)
        ensures
            !verifiable,
    {
        false
    }
}

#[derive(Debug, Clone, Copy, PartialEq, Eq, Structural)]
pub enum InsertionCapabilityError {
    UnsupportedPlatform,
    UnknownLinuxDisplayServer,
}

pub open spec fn spec_capability_error_message(error: InsertionCapabilityError) -> Seq<char> {
    match error {
        InsertionCapabilityError::UnsupportedPlatform =>
            "text insertion is not supported on this platform"@,
        InsertionCapabilityError::UnknownLinuxDisplayServer =>
            "could not determine whether the Linux desktop session uses X11 or Wayland"@,
    }
}

impl InsertionCapabilityError {
    /// The human-readable message of the error.
    pub fn message(self) -> (message: &'static str)
        ensures
            message@ == spec_capability_error_message(self),
    {
        match self {
            InsertionCapabilityError::UnsupportedPlatform => {
                "text insertion is not supported on this platform"
            },
            InsertionCapabilityError::UnknownLinuxDisplayServer => {
                "could not determine whether the Linux desktop session uses X11 or Wayland"
            },
        }
    }
}

/// The backend and authorization chosen for a platform and display server.
pub open spec fn spec_insertion_choice(platform: DesktopPlatform, server: LinuxDisplayServer) -> Result<
    (InsertionBackend, InsertionAuthorization),
    InsertionCapabilityError,
> {
    match platform {
        DesktopPlatform::Windows => Ok(
            (InsertionBackend::WindowsSendInput, InsertionAuthorization::NotRequired),
        ),
        DesktopPlatform::MacOs => Ok(
            (InsertionBackend::MacOsQuartz, InsertionAuthorization::MacOsAccessibility),
        ),
        DesktopPlatform::Linux => match server {
            LinuxDisplayServer::X11 => Ok(
                (InsertionBackend::X11XTest, InsertionAuthorization::NotRequired),
            ),
            LinuxDisplayServer::Wayland => Ok(
                (InsertionBackend::XdgRemoteDesktopEis, InsertionAuthorization::XdgRemoteDesktop),
            ),
            LinuxDisplayServer::Unknown => Err(InsertionCapabilityError::UnknownLinuxDisplayServer),
        },
        DesktopPlatform::Other => Err(InsertionCapabilityError::UnsupportedPlatform),
    }
}

/// Resolve the least-invasive insertion backend allowed for one desktop
/// environment. Wayland deliberately selects a compositor-mediated portal/EIS
/// path and never falls back to X11, evdev, uinput, or root-only input injection.
pub fn resolve_insertion_capability(environment: InsertionEnvironment) -> (result: Result<
    InsertionCapability,
    InsertionCapabilityError,
>)
    ensures
        match spec_insertion_choice(
            environment.spec_platform(),
            environment.spec_linux_display_server(),
        ) {
            Ok((backend, authorization)) => result matches Ok(c) && c.spec_backend() == backend
                && c.spec_authorization() == authorization,
            Err(e) => result == Err::<InsertionCapability, InsertionCapabilityError>(e),
        },
{
    match (environment.platform(), environment.linux_display_server()) {
        (DesktopPlatform::Windows, _) => Ok(
            InsertionCapability::new(
                InsertionBackend::WindowsSendInput,
                InsertionAuthorization::NotRequired,
            ),
        ),
        (DesktopPlatform::MacOs, _) => Ok(
            InsertionCapability::new(
                InsertionBackend::MacOsQuartz,
                InsertionAuthorization::MacOsAccessibility,
            ),
        ),
        (DesktopPlatform::Linux, LinuxDisplayServer::X11) => Ok(
            InsertionCapability::new(InsertionBackend::X11XTest, InsertionAuthorization::NotRequired),
        ),
        (DesktopPlatform::Linux, LinuxDisplayServer::Wayland) => Ok(
            InsertionCapability::new(
                InsertionBackend::XdgRemoteDesktopEis,
                InsertionAuthorization::XdgRemoteDesktop,
            ),
        ),
        (DesktopPlatform::Linux, LinuxDisplayServer::Unknown) => Err(
            InsertionCapabilityError::UnknownLinuxDisplayServer,
        ),
        (DesktopPlatform::Other, _) => Err(InsertionCapabilityError::UnsupportedPlatform),
    }
}

/// Wayland insertion always goes through the XDG RemoteDesktop portal and EIS,
/// never through a raw-input fallback; only macOS and Wayland need an authorization.
pub proof fn law_wayland_insertion_uses_portal_only(platform: DesktopPlatform, server: LinuxDisplayServer)
    ensures
        platform == DesktopPlatform::Linux && server == LinuxDisplayServer::Wayland
            ==> spec_insertion_choice(platform, server) == Ok::<
            (InsertionBackend, InsertionAuthorization),
            InsertionCapabilityError,
        >((InsertionBackend::XdgRemoteDesktopEis, InsertionAuthorization::XdgRemoteDesktop)),
        spec_insertion_choice(platform, server) matches Ok((_, authorization))
            ==> (authorization != InsertionAuthorization::NotRequired <==> (platform
            == DesktopPlatform::MacOs || (platform == DesktopPlatform::Linux && server
            == LinuxDisplayServer::Wayland))),
{
}

#[derive(Debug, Clone, Copy, PartialEq, Eq, Structural)]
pub struct InsertionReceipt {
    backend: InsertionBackend,
    submitted_utf8_bytes: usize,
}

impl InsertionReceipt {
    pub closed spec fn spec_backend(&self) -> InsertionBackend {
        self.backend
    }

    pub closed spec fn spec_submitted_utf8_bytes(&self) -> usize {
        self.submitted_utf8_bytes
    }

    pub fn complete(backend: InsertionBackend, submitted_utf8_bytes: usize) -> (receipt: Self)
        ensures
            receipt.spec_backend() == backend,
            receipt.spec_submitted_utf8_bytes() == submitted_utf8_bytes,
    {
        InsertionReceipt { backend, submitted_utf8_bytes }
    }

    pub fn backend(&self) -> (backend: InsertionBackend)
        ensures
            backend == self.spec_backend(),
    {
        self.backend
    }

    pub fn submitted_utf8_bytes(&self) -> (bytes: usize)
        ensures
            bytes == self.spec_submitted_utf8_bytes(),
    {
        self.submitted_utf8_bytes
    }

    /// A receipt confirms that the backend accepted the complete text submission.
    /// It does not prove that the focused application's document mutated.
    pub fn semantic_delivery_verified(&self) -> (verified: bool)
        ensures
            !verified,
    {
        false
    }
}

#[derive(Debug, Clone, Copy, PartialEq, Eq, Structural)]
pub enum InsertionErrorKind {
    InvalidText,
    PermissionDenied,
    BackendUnavailable,
    PartialSubmission,
    BackendFailure,
}

#[derive(Debug, Clone, PartialEq, Eq)]
pub struct InsertionError {
    kind: InsertionErrorKind,
    message: String,
}

impl InsertionError {
    pub closed spec fn spec_kind(&self) -> InsertionErrorKind {
        self.kind
    }

    pub closed spec fn spec_message(&self) -> Seq<char> {
        self.message@
    }

    pub fn new(kind: InsertionErrorKind, message: &str) -> (error: Self)
        ensures
            error.spec_kind() == kind,
            error.spec_message() == message@,
    {
        InsertionError { kind, message: message.to_owned() }
    }

    /// An error carrying an already-built message.
    pub fn with_message(kind: InsertionErrorKind, message: String) -> (error: Self)
        ensures
            error.spec_kind() == kind,
            error.spec_message() == message@,
    {
        InsertionError { kind, message }
    }

    pub fn kind(&self) -> (kind: InsertionErrorKind)
        ensures
            kind == self.spec_kind(),
    {
        self.kind
    }

    pub fn message(&self) -> (message: &str)
        ensures
            message@ == self.spec_message(),
    {
        self.message.as_str()
    }
}

/// A platform insertion adapter. `Ok` is reserved for a complete submission by
/// the adapter's own acknowledgement rules; a partial native write is reported
/// as `InsertionErrorKind::PartialSubmission`. The adapters make outside calls,
/// so nothing here states what they return.
pub trait TextInserter: Send {
    fn capability(&self) -> InsertionCapability;

    fn insert_text(&mut self, text: &str) -> Result<InsertionReceipt, InsertionError>;
}

} // verus!
