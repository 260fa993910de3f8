//! Platform detection for deciding whether to draw a custom window chrome.

use crate::plugins::{lower_of, lowercase, str_eq};
use vstd::prelude::*;
use vstd::string::StrSliceExecFns;
use vstd::string::StringExecFns;

verus! {

/// Operating system.
#[derive(Clone, Copy, Debug, PartialEq, Eq, Structural)]
pub enum OperatingSystem {
    Linux,
    Windows,
    MacOS,
    Other,
}

/// Desktop environment (Linux only).
#[derive(Clone, Copy, Debug, PartialEq, Eq, Structural)]
pub enum DesktopEnvironment {
    GNOME,
    KDE,
    XFCE,
    MATE,
    Cinnamon,
    LXDE,
    LXQt,
    Budgie,
    Pantheon,
    Unknown,
}

/// Display server (Linux only).
#[derive(Clone, Copy, Debug, PartialEq, Eq, Structural)]
pub enum DisplayServer {
    X11,
    Wayland,
}

/// Platform information.
#[derive(Clone, Copy, Debug, PartialEq, Eq, Structural)]
pub struct PlatformInfo {
    pub os: OperatingSystem,
    pub desktop_environment: Option<DesktopEnvironment>,
    pub display_server: Option<DisplayServer>,
}

/// The environment variables that detection reads: the value of each one
/// that is read as text, and whether each one that is only tested is set.
#[derive(Clone, Debug)]
pub struct DesktopVars {
    pub xdg_current_desktop: Option<String>,
    pub desktop_session: Option<String>,
    pub gnome_desktop_session_id: bool,
    pub kde_full_session: bool,
    pub wayland_display: bool,
    pub xdg_session_type: Option<String>,
    pub display: bool,
}

/// `needle` occurs in `hay` as a run of consecutive characters.
pub open spec fn has_infix(hay: Seq<char>, needle: Seq<char>) -> bool {
    exists|i: int| 0 <= i <= hay.len() - needle.len() && #[trigger] hay.subrange(i, i + needle.len()) == needle
}

fn matches_at(hay: &str, needle: &str, at: usize) -> (r: bool)
    requires
        at + needle@.len() <= hay@.len(),
    ensures
        r == (hay@.subrange(at as int, at + needle@.len()) == needle@),
{
    let n = needle.unicode_len();
    let total = hay.unicode_len();
    let mut j: usize = 0;
    while j < n
        invariant
            n == needle@.len(),
            total == hay@.len(),
            at + n <= hay@.len(),
            j <= n,
            forall|k: int| 0 <= k < j ==> hay@[at + k] == needle@[k],
        decreases n - j,
    {
        if hay.get_char(at + j) != needle.get_char(j) {
            assert(hay@.subrange(at as int, at + n)[j as int] != needle@[j as int]);
            return false;
        }
        j = j + 1;
    }
    assert(hay@.subrange(at as int, at + n) =~= needle@);
    true
}

/// Whether `needle` occurs in `hay`.
pub fn contains(hay: &str, needle: &str) -> (r: bool)
    ensures
        r == has_infix(hay@, needle@),
{
    let h = hay.unicode_len();
    let n = needle.unicode_len();
    if n > h {
        return false;
    }
    let mut i: usize = 0;
    while i <= h - n
        invariant
            h == hay@.len(),
            n == needle@.len(),
            n <= h,
            i <= h - n + 1,
            forall|k: int| 0 <= k < i ==> #[trigger] hay@.subrange(k, k + n) != needle@,
        decreases h - n + 1 - i,
    {
        if matches_at(hay, needle, i) {
            return true;
        }
        if i == h - n {
            return false;
        }
        i = i + 1;
    }
    false
}

/// The desktop named by `XDG_CURRENT_DESKTOP`, lower-cased.
pub open spec fn desktop_from_current(s: Seq<char>) -> Option<DesktopEnvironment> {
    if has_infix(s, "gnome"@) {
        Some(DesktopEnvironment::GNOME)
    } else if has_infix(s, "kde"@) || has_infix(s, "plasma"@) {
        Some(DesktopEnvironment::KDE)
    } else if has_infix(s, "xfce"@) {
        Some(DesktopEnvironment::XFCE)
    } else if has_infix(s, "mate"@) {
        Some(DesktopEnvironment::MATE)
    } else if has_infix(s, "cinnamon"@) {
        Some(DesktopEnvironment::Cinnamon)
    } else if has_infix(s, "lxde"@) {
        Some(DesktopEnvironment::LXDE)
    } else if has_infix(s, "lxqt"@) {
        Some(DesktopEnvironment::LXQt)
    } else if has_infix(s, "budgie"@) {
        Some(DesktopEnvironment::Budgie)
    } else if has_infix(s, "pantheon"@) {
        Some(DesktopEnvironment::Pantheon)
    } else {
        None
    }
}

/// The desktop named by `DESKTOP_SESSION`, lower-cased.
pub open spec fn desktop_from_session(s: Seq<char>) -> Option<DesktopEnvironment> {
    if has_infix(s, "gnome"@) {
        Some(DesktopEnvironment::GNOME)
    } else if has_infix(s, "kde"@) || has_infix(s, "plasma"@) {
        Some(DesktopEnvironment::KDE)
    } else if has_infix(s, "xfce"@) {
        Some(DesktopEnvironment::XFCE)
    } else if has_infix(s, "mate"@) {
        Some(DesktopEnvironment::MATE)
    } else if has_infix(s, "cinnamon"@) {
        Some(DesktopEnvironment::Cinnamon)
    } else {
        None
    }
}

pub open spec fn desktop_of(vars: DesktopVars) -> DesktopEnvironment {
    let from_current = match vars.xdg_current_desktop {
        Some(s) => desktop_from_current(lower_of(s@)),
        None => None,
    };
    let from_session = match vars.desktop_session {
        Some(s) => desktop_from_session(lower_of(s@)),
        None => None,
    };
    if from_current is Some {
        from_current.unwrap()
    } else if from_session is Some {
        from_session.unwrap()
    } else if vars.gnome_desktop_session_id {
        DesktopEnvironment::GNOME
    } else if vars.kde_full_session {
        DesktopEnvironment::KDE
    } else {
        DesktopEnvironment::Unknown
    }
}

pub open spec fn display_server_of(vars: DesktopVars) -> Option<DisplayServer> {
    let session = match vars.xdg_session_type {
        Some(s) => if lower_of(s@) == "wayland"@ {
            Some(DisplayServer::Wayland)
        } else if lower_of(s@) == "x11"@ {
            Some(DisplayServer::X11)
        } else {
            None
        },
        None => None,
    };
    if vars.wayland_display {
        Some(DisplayServer::Wayland)
    } else if session is Some {
        session
    } else if vars.display {
        Some(DisplayServer::X11)
    } else {
        None
    }
}

fn current_desktop(s: &str) -> (r: Option<DesktopEnvironment>)
    ensures
        r == desktop_from_current(s@),
{
    if contains(s, "gnome") {
        Some(DesktopEnvironment::GNOME)
    } else if contains(s, "kde") || contains(s, "plasma") {
        Some(DesktopEnvironment::KDE)
    } else if contains(s, "xfce") {
        Some(DesktopEnvironment::XFCE)
    } else if contains(s, "mate") {
        Some(DesktopEnvironment::MATE)
    } else if contains(s, "cinnamon") {
        Some(DesktopEnvironment::Cinnamon)
    } else if contains(s, "lxde") {
        Some(DesktopEnvironment::LXDE)
    } else if contains(s, "lxqt") {
        Some(DesktopEnvironment::LXQt)
    } else if contains(s, "budgie") {
        Some(DesktopEnvironment::Budgie)
    } else if contains(s, "pantheon") {
        Some(DesktopEnvironment::Pantheon)
    } else {
        None
    }
}

fn session_desktop(s: &str) -> (r: Option<DesktopEnvironment>)
    ensures
        r == desktop_from_session(s@),
{
    if contains(s, "gnome") {
        Some(DesktopEnvironment::GNOME)
    } else if contains(s, "kde") || contains(s, "plasma") {
        Some(DesktopEnvironment::KDE)
    } else if contains(s, "xfce") {
        Some(DesktopEnvironment::XFCE)
    } else if contains(s, "mate") {
        Some(DesktopEnvironment::MATE)
    } else if contains(s, "cinnamon") {
        Some(DesktopEnvironment::Cinnamon)
    } else {
        None
    }
}

impl OperatingSystem {
    /// The system named as `std::env::consts::OS` names it.
    pub fn from_name(name: &str) -> (r: OperatingSystem)
        ensures
            r == if name@ == "linux"@ {
                OperatingSystem::Linux
            } else if name@ == "windows"@ {
                OperatingSystem::Windows
            } else if name@ == "macos"@ {
                OperatingSystem::MacOS
            } else {
                OperatingSystem::Other
            },
    {
        if str_eq(name, "linux") {
            OperatingSystem::Linux
        } else if str_eq(name, "windows") {
            OperatingSystem::Windows
        } else if str_eq(name, "macos") {
            OperatingSystem::MacOS
        } else {
            OperatingSystem::Other
        }
    }

    pub open spec fn spec_label(self) -> Seq<char> {
        match self {
            OperatingSystem::Linux => "Linux"@,
            OperatingSystem::Windows => "Windows"@,
            OperatingSystem::MacOS => "macOS"@,
            OperatingSystem::Other => "Other OS"@,
        }
    }

    /// A human-readable name.
    pub fn label(&self) -> (r: &'static str)
        ensures
            r@ == self.spec_label(),
    {
        match self {
            OperatingSystem::Linux => "Linux",
            OperatingSystem::Windows => "Windows",
            OperatingSystem::MacOS => "macOS",
            OperatingSystem::Other => "Other OS",
        }
    }
}

impl DesktopEnvironment {
    pub open spec fn spec_label(self) -> Seq<char> {
        match self {
            DesktopEnvironment::GNOME => "GNOME"@,
            DesktopEnvironment::KDE => "KDE"@,
            DesktopEnvironment::XFCE => "XFCE"@,
            DesktopEnvironment::MATE => "MATE"@,
            DesktopEnvironment::Cinnamon => "Cinnamon"@,
            DesktopEnvironment::LXDE => "LXDE"@,
            DesktopEnvironment::LXQt => "LXQt"@,
            DesktopEnvironment::Budgie => "Budgie"@,
            DesktopEnvironment::Pantheon => "Pantheon"@,
            DesktopEnvironment::Unknown => "Unknown"@,
        }
    }

    /// The variant's name.
    pub fn label(&self) -> (r: &'static str)
        ensures
            r@ == self.spec_label(),
    {
        match self {
            DesktopEnvironment::GNOME => "GNOME",
            DesktopEnvironment::KDE => "KDE",
            DesktopEnvironment::XFCE => "XFCE",
            DesktopEnvironment::MATE => "MATE",
            DesktopEnvironment::Cinnamon => "Cinnamon",
            DesktopEnvironment::LXDE => "LXDE",
            DesktopEnvironment::LXQt => "LXQt",
            DesktopEnvironment::Budgie => "Budgie",
            DesktopEnvironment::Pantheon => "Pantheon",
            DesktopEnvironment::Unknown => "Unknown",
        }
    }
}

impl DisplayServer {
    pub open spec fn spec_label(self) -> Seq<char> {
        match self {
            DisplayServer::X11 => "X11"@,
            DisplayServer::Wayland => "Wayland"@,
        }
    }

    /// The variant's name.
    pub fn label(&self) -> (r: &'static str)
        ensures
            r@ == self.spec_label(),
    {
        match self {
            DisplayServer::X11 => "X11",
            DisplayServer::Wayland => "Wayland",
        }
    }
}

/// The platform's description: the system, then the desktop and the display
/// server where known, separated by " / ".
pub open spec fn description_of(p: PlatformInfo) -> Seq<char> {
    let with_de = match p.desktop_environment {
        Some(de) => p.os.spec_label() + " / "@ + de.spec_label(),
        None => p.os.spec_label(),
    };
    match p.display_server {
        Some(ds) => with_de + " / "@ + ds.spec_label(),
        None => with_de,
    }
}

impl PlatformInfo {
    /// Platform information for the given system and environment; desktop and
    /// display server are looked for on Linux only.
    pub fn detect(os: OperatingSystem, vars: &DesktopVars) -> (r: PlatformInfo)
        ensures
            r.os == os,
            r.desktop_environment == if os is Linux {
                Some(desktop_of(*vars))
            } else {
                None
            },
            r.display_server == if os is Linux {
                display_server_of(*vars)
            } else {
                None
            },
    {
        let linux = os == OperatingSystem::Linux;
        let desktop_environment = if linux {
            Some(Self::detect_desktop_environment(vars))
        } else {
            None
        };
        let display_server = if linux {
            Self::detect_display_server(vars)
        } else {
            None
        };
        PlatformInfo { os, desktop_environment, display_server }
    }

    /// The desktop environment: `XDG_CURRENT_DESKTOP` first, then
    /// `DESKTOP_SESSION`, then the GNOME and KDE session markers.
    pub fn detect_desktop_environment(vars: &DesktopVars) -> (r: DesktopEnvironment)
        ensures
            r == desktop_of(*vars),
    {
        if let Some(desktop) = &vars.xdg_current_desktop {
            let lower = lowercase(desktop.as_str());
            if let Some(de) = current_desktop(lower.as_str()) {
                return de;
            }
        }
        if let Some(session) = &vars.desktop_session {
            let lower = lowercase(session.as_str());
            if let Some(de) = session_desktop(lower.as_str()) {
                return de;
            }
        }
        if vars.gnome_desktop_session_id {
            return DesktopEnvironment::GNOME;
        }
        if vars.kde_full_session {
            return DesktopEnvironment::KDE;
        }
        DesktopEnvironment::Unknown
    }

    /// The display server: `WAYLAND_DISPLAY`, then `XDG_SESSION_TYPE`, then
    /// `DISPLAY`.
    pub fn detect_display_server(vars: &DesktopVars) -> (r: Option<DisplayServer>)
        ensures
            r == display_server_of(*vars),
    {
        if vars.wayland_display {
            return Some(DisplayServer::Wayland);
        }
        if let Some(session_type) = &vars.xdg_session_type {
            let lower = lowercase(session_type.as_str());
            if str_eq(lower.as_str(), "wayland") {
                return Some(DisplayServer::Wayland);
            } else if str_eq(lower.as_str(), "x11") {
                return Some(DisplayServer::X11);
            }
        }
        if vars.display {
            return Some(DisplayServer::X11);
        }
        None
    }

    /// Custom chrome on Windows and macOS, on Linux under Wayland, and on
    /// Linux under X11 with KDE or MATE; not elsewhere.
    pub fn should_use_custom_chrome(&self) -> (r: bool)
        ensures
            r == match self.os {
                OperatingSystem::Windows | OperatingSystem::MacOS => true,
                OperatingSystem::Linux => self.display_server == Some(DisplayServer::Wayland)
                    || self.desktop_environment == Some(DesktopEnvironment::KDE)
                    || self.desktop_environment == Some(DesktopEnvironment::MATE),
                OperatingSystem::Other => false,
            },
    {
        match self.os {
            OperatingSystem::Windows => true,
            OperatingSystem::MacOS => true,
            OperatingSystem::Linux => {
                if self.display_server == Some(DisplayServer::Wayland) {
                    return true;
                }
                match self.desktop_environment {
                    Some(DesktopEnvironment::KDE) => true,
                    Some(DesktopEnvironment::MATE) => true,
                    _ => false,
                }
            },
            OperatingSystem::Other => false,
        }
    }

    /// A human-readable description, such as "Linux / GNOME / Wayland".
    pub fn description(&self) -> (r: String)
        ensures
            r@ == description_of(*self),
    {
        let mut s = String::from_str(self.os.label());
        if let Some(de) = self.desktop_environment {
            s.append(" / ");
            s.append(de.label());
        }
        if let Some(ds) = self.display_server {
            s.append(" / ");
            s.append(ds.label());
        }
        s
    }
}

} // verus!
