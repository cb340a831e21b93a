//! Desktop capability facts shared by shortcuts and text insertion.
use vstd::prelude::*;

use crate::text::{eq_ignore_ascii_case, str_eq_ignore_ascii_case, trim, trimmed};

verus! {

#[derive(Debug, Clone, Copy, PartialEq, Eq, Structural)]
pub enum DesktopPlatform {
    Windows,
    MacOs,
    Linux,
    Other,
}

pub open spec fn spec_platform_name(platform: DesktopPlatform) -> Seq<char> {
    match platform {
        DesktopPlatform::Windows => "windows"@,
        DesktopPlatform::MacOs => "macos"@,
        DesktopPlatform::Linux => "linux"@,
        DesktopPlatform::Other => "other"@,
    }
}

impl DesktopPlatform {
    /// The display name of the platform.
    pub fn name(self) -> (name: &'static str)
        ensures
            name@ == spec_platform_name(self),
    {
        match self {
            DesktopPlatform::Windows => "windows",
            DesktopPlatform::MacOs => "macos",
            DesktopPlatform::Linux => "linux",
            DesktopPlatform::Other => "other",
        }
    }
}

#[derive(Debug, Clone, Copy, PartialEq, Eq, Structural)]
pub enum LinuxDisplayServer {
    X11,
    Wayland,
    Unknown,
}

pub open spec fn spec_display_server_name(server: LinuxDisplayServer) -> Seq<char> {
    match server {
        LinuxDisplayServer::X11 => "x11"@,
        LinuxDisplayServer::Wayland => "wayland"@,
        LinuxDisplayServer::Unknown => "unknown"@,
    }
}

impl LinuxDisplayServer {
    /// The display name of the display server.
    pub fn name(self) -> (name: &'static str)
        ensures
            name@ == spec_display_server_name(self),
    {
        match self {
            LinuxDisplayServer::X11 => "x11",
            LinuxDisplayServer::Wayland => "wayland",
            LinuxDisplayServer::Unknown => "unknown",
        }
    }
}

#[derive(Debug, Clone, Copy, PartialEq, Eq, Structural)]
pub struct DesktopEnvironment {
    platform: DesktopPlatform,
    linux_display_server: LinuxDisplayServer,
}

impl DesktopEnvironment {
    pub closed spec fn spec_platform(&self) -> DesktopPlatform {
        self.platform
    }

    pub closed spec fn spec_linux_display_server(&self) -> LinuxDisplayServer {
        self.linux_display_server
    }

    pub fn new(platform: DesktopPlatform, linux_display_server: LinuxDisplayServer) -> (env: Self)
        ensures
            env.spec_platform() == platform,
            env.spec_linux_display_server() == linux_display_server,
    {
        DesktopEnvironment { platform, linux_display_server }
    }

    pub fn platform(&self) -> (platform: DesktopPlatform)
        ensures
            platform == self.spec_platform(),
    {
        self.platform
    }

    pub fn linux_display_server(&self) -> (server: LinuxDisplayServer)
        ensures
            server == self.spec_linux_display_server(),
    {
        self.linux_display_server
    }
}

/// The trimmed value of an optional environment fact, when it is not blank.
pub open spec fn non_empty(value: Option<Seq<char>>) -> Option<Seq<char>> {
    match value {
        Some(v) => if trim(v).len() > 0 {
            Some(trim(v))
        } else {
            None
        },
        None => None,
    }
}

pub open spec fn opt_view(value: Option<&str>) -> Option<Seq<char>> {
    match value {
        Some(v) => Some(v@),
        None => None,
    }
}

/// The display server that standard desktop-session facts point to.
pub open spec fn spec_detect_linux_display_server(
    xdg_session_type: Option<Seq<char>>,
    wayland_display: Option<Seq<char>>,
    x11_display: Option<Seq<char>>,
) -> LinuxDisplayServer {
    if non_empty(xdg_session_type) matches Some(t) && eq_ignore_ascii_case(t, "wayland"@) {
        LinuxDisplayServer::Wayland
    } else if non_empty(xdg_session_type) matches Some(t) && eq_ignore_ascii_case(t, "x11"@) {
        LinuxDisplayServer::X11
    } else if non_empty(wayland_display) is Some {
        LinuxDisplayServer::Wayland
    } else if non_empty(x11_display) is Some {
        LinuxDisplayServer::X11
    } else {
        LinuxDisplayServer::Unknown
    }
}

fn non_empty_exec(value: Option<&str>) -> (trimmed_value: Option<String>)
    ensures
        match trimmed_value {
            Some(t) => non_empty(opt_view(value)) == Some(t@),
            None => non_empty(opt_view(value)) is None,
        },
{
    match value {
        Some(v) => {
            let t = trimmed(v);
            if t.as_str().is_empty() {
                None
            } else {
                Some(t)
            }
        },
        None => None,
    }
}

/// Detect the effective Linux display server from standard desktop-session facts.
///
/// `XDG_SESSION_TYPE` wins when it explicitly identifies X11 or Wayland. When it
/// is absent or inconclusive, the display socket variables are used as evidence.
pub fn detect_linux_display_server(
    xdg_session_type: Option<&str>,
    wayland_display: Option<&str>,
    x11_display: Option<&str>,
) -> (server: LinuxDisplayServer)
    ensures
        server == spec_detect_linux_display_server(
            opt_view(xdg_session_type),
            opt_view(wayland_display),
            opt_view(x11_display),
        ),
{
    if let Some(session_type) = non_empty_exec(xdg_session_type) {
        if str_eq_ignore_ascii_case(session_type.as_str(), "wayland") {
            return LinuxDisplayServer::Wayland;
        }
        if str_eq_ignore_ascii_case(session_type.as_str(), "x11") {
            return LinuxDisplayServer::X11;
        }
    }
    if non_empty_exec(wayland_display).is_some() {
        return LinuxDisplayServer::Wayland;
    }
    if non_empty_exec(x11_display).is_some() {
        return LinuxDisplayServer::X11;
    }
    LinuxDisplayServer::Unknown
}

/// An explicit session type naming Wayland or X11 decides the display server,
/// whatever the display sockets say.
pub proof fn law_session_type_takes_precedence(
    xdg: Seq<char>,
    wayland: Option<Seq<char>>,
    x11: Option<Seq<char>>,
)
    ensures
        eq_ignore_ascii_case(trim(xdg), "wayland"@) && trim(xdg).len() > 0
            ==> spec_detect_linux_display_server(Some(xdg), wayland, x11)
            == LinuxDisplayServer::Wayland,
        eq_ignore_ascii_case(trim(xdg), "x11"@) && trim(xdg).len() > 0
            && !eq_ignore_ascii_case(trim(xdg), "wayland"@)
            ==> spec_detect_linux_display_server(Some(xdg), wayland, x11) == LinuxDisplayServer::X11,
{
}

/// Blank facts are no evidence: with every fact blank or absent the server is unknown.
pub proof fn law_blank_facts_give_unknown(
    xdg: Option<Seq<char>>,
    wayland: Option<Seq<char>>,
    x11: Option<Seq<char>>,
)
    requires
        non_empty(xdg) is None,
        non_empty(wayland) is None,
        non_empty(x11) is None,
    ensures
        spec_detect_linux_display_server(xdg, wayland, x11) == LinuxDisplayServer::Unknown,
{
}

} // verus!
