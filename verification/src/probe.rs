//! Display-server and desktop-shell detection.
//!
//! Detection is a pure decision over a snapshot of the process environment,
//! taken once at startup. The decision order for the display server: an
//! explicit "wayland" session type wins; otherwise a present Wayland display
//! setting; otherwise a present X11 display setting; otherwise the result is
//! unknown.

use vstd::prelude::*;

use crate::ascii::chars_eq_ignore_ascii_case;
use crate::ascii::contains_ignore_ascii_case;
use crate::ascii::contains_ignore_ascii_case_str;
use crate::ascii::eq_ignore_ascii_case;

verus! {

/// Which display-server protocol the session runs on. Determined once at
/// startup and never mutated afterwards.
#[derive(Clone, Copy, Debug, PartialEq, Eq, Structural)]
pub enum DisplayServerKind {
    X11,
    Wayland,
    Unknown,
}

/// The desktop shell, relevant only on Wayland, where shortcut registration
/// goes through shell-specific tooling.
#[derive(Clone, Copy, Debug, PartialEq, Eq, Structural)]
pub enum DesktopShell {
    Gnome,
    Kde,
    Generic,
}

/// A snapshot of the environment settings the pipeline reads. Each field
/// holds the value of one setting, or `None` where the setting is absent.
pub struct EnvSnapshot {
    /// Session-type indicator (for example "x11" or "wayland").
    pub session_type: Option<String>,
    /// Wayland display connection indicator.
    pub wayland_display: Option<String>,
    /// X11 display indicator.
    pub x11_display: Option<String>,
    /// Toolkit backend override indicator.
    pub gdk_backend: Option<String>,
    /// Current-desktop indicator (for example "GNOME" or "KDE").
    pub current_desktop: Option<String>,
}

/// The session-type setting explicitly names Wayland.
pub open spec fn session_says_wayland(s: EnvSnapshot) -> bool {
    s.session_type matches Some(v) && chars_eq_ignore_ascii_case(v@, "wayland"@)
}

/// The display server that a snapshot resolves to.
pub open spec fn spec_detect(s: EnvSnapshot) -> DisplayServerKind {
    if session_says_wayland(s) {
        DisplayServerKind::Wayland
    } else if s.wayland_display is Some {
        DisplayServerKind::Wayland
    } else if s.x11_display is Some {
        DisplayServerKind::X11
    } else {
        DisplayServerKind::Unknown
    }
}

/// Detect the display server from an environment snapshot.
pub fn detect(s: &EnvSnapshot) -> (k: DisplayServerKind)
    ensures
        k == spec_detect(*s),
{
    let says_wayland = match &s.session_type {
        Some(v) => eq_ignore_ascii_case(v.as_str(), "wayland"),
        None => false,
    };
    if says_wayland {
        DisplayServerKind::Wayland
    } else if s.wayland_display.is_some() {
        DisplayServerKind::Wayland
    } else if s.x11_display.is_some() {
        DisplayServerKind::X11
    } else {
        DisplayServerKind::Unknown
    }
}

/// The desktop shell that a snapshot resolves to: a current-desktop value
/// naming GNOME wins, then one naming KDE; anything else is generic.
pub open spec fn spec_detect_shell(s: EnvSnapshot) -> DesktopShell {
    if s.current_desktop matches Some(d) && contains_ignore_ascii_case(d@, "gnome"@) {
        DesktopShell::Gnome
    } else if s.current_desktop matches Some(d) && contains_ignore_ascii_case(d@, "kde"@) {
        DesktopShell::Kde
    } else {
        DesktopShell::Generic
    }
}

/// Detect the desktop shell from an environment snapshot.
pub fn detect_shell(s: &EnvSnapshot) -> (shell: DesktopShell)
    ensures
        shell == spec_detect_shell(*s),
{
    match &s.current_desktop {
        Some(d) => {
            if contains_ignore_ascii_case_str(d.as_str(), "gnome") {
                DesktopShell::Gnome
            } else if contains_ignore_ascii_case_str(d.as_str(), "kde") {
                DesktopShell::Kde
            } else {
                DesktopShell::Generic
            }
        },
        None => DesktopShell::Generic,
    }
}

/// The window activator treats the session as Wayland if any of the three
/// indicators says so: the session type, a present Wayland display setting,
/// or a toolkit backend override naming Wayland.
pub open spec fn spec_wayland_session(s: EnvSnapshot) -> bool {
    ||| session_says_wayland(s)
    ||| s.wayland_display is Some
    ||| s.gdk_backend matches Some(v) && chars_eq_ignore_ascii_case(v@, "wayland"@)
}

/// Whether any Wayland indicator is present in the snapshot.
pub fn is_wayland_session(s: &EnvSnapshot) -> (r: bool)
    ensures
        r == spec_wayland_session(*s),
{
    let says_wayland = match &s.session_type {
        Some(v) => eq_ignore_ascii_case(v.as_str(), "wayland"),
        None => false,
    };
    let backend_wayland = match &s.gdk_backend {
        Some(v) => eq_ignore_ascii_case(v.as_str(), "wayland"),
        None => false,
    };
    says_wayland || s.wayland_display.is_some() || backend_wayland
}

/// The detection decision order: an explicit "wayland" session type forces
/// Wayland whatever the other settings hold; without it, a present Wayland
/// display setting forces Wayland; with neither, a present X11 display
/// setting gives X11; and with no relevant setting at all the result is
/// unknown.
pub proof fn lemma_detect_order(s: EnvSnapshot)
    ensures
        session_says_wayland(s) ==> spec_detect(s) == DisplayServerKind::Wayland,
        !session_says_wayland(s) && s.wayland_display is Some ==> spec_detect(s)
            == DisplayServerKind::Wayland,
        !session_says_wayland(s) && s.wayland_display is None && s.x11_display is Some
            ==> spec_detect(s) == DisplayServerKind::X11,
        !session_says_wayland(s) && s.wayland_display is None && s.x11_display is None
            ==> spec_detect(s) == DisplayServerKind::Unknown,
{
}

} // verus!
