//! Window activation: bring the application window to the foreground with
//! the correct protocol for the display server.
//!
//! On Wayland the toolkit's presentation call is all there is. On X11 the
//! manager additionally holds the resolved EWMH atoms and asks the caller
//! to send the protocol messages it decides: a one-time window-state
//! property marking the window sticky and always-above, and, on every
//! activation, a client message to the root window requesting active-window
//! status — toolkit presentation alone does not reliably steal focus from
//! another application's foreground window.
//!
//! Failure to open a protocol connection at startup degrades the manager to
//! toolkit-only behaviour: the X11 steps become no-ops, and nothing panics.

use vstd::prelude::*;

use crate::probe::EnvSnapshot;
use crate::probe::spec_wayland_session;
use crate::probe::is_wayland_session;

verus! {

/// The resolved X11 atom identifiers the activator needs, interned once at
/// startup over the protocol connection.
#[derive(Clone, Copy, Debug, PartialEq, Eq, Structural)]
pub struct X11Atoms {
    /// The active-window request atom.
    pub net_active_window: u32,
    /// The window-state property atom.
    pub net_wm_state: u32,
    /// The always-above window-state atom.
    pub net_wm_state_above: u32,
    /// The sticky (all workspaces) window-state atom.
    pub net_wm_state_sticky: u32,
}

/// The model of the application window as the window manager sees it.
#[derive(Clone, Copy, Debug, PartialEq, Eq, Structural)]
pub struct WindowState {
    /// The window is mapped and shown.
    pub visible: bool,
    /// The window is minimized.
    pub minimized: bool,
    /// The window holds input focus.
    pub focused: bool,
    /// The window appears on all workspaces.
    pub sticky: bool,
    /// The window stays above others.
    pub above: bool,
}

/// What a window looks like after an activation: visible, unminimized and
/// focused, with the workspace and stacking marks untouched.
pub open spec fn spec_activated(w: WindowState) -> WindowState {
    WindowState { visible: true, minimized: false, focused: true, sticky: w.sticky, above: w.above }
}

/// The protocol steps an activation asks of the caller, beside the model
/// update it performs itself.
pub struct FocusActions {
    /// Present through the toolkit with an explicit timestamp (the Wayland
    /// path) rather than plainly.
    pub present_with_time: bool,
    /// Send the active-window client message to the root window (the X11
    /// path with a live connection).
    pub send_active_window_message: bool,
}

/// Centralizes window management for consistent behaviour across display
/// servers.
pub struct WindowManager {
    /// Whether the session is Wayland.
    pub is_wayland: bool,
    /// The resolved atoms of the X11 connection, where one was opened.
    pub x11: Option<X11Atoms>,
}

impl WindowManager {
    /// A manager never holds an X11 connection under Wayland.
    pub open spec fn wf(self) -> bool {
        self.is_wayland ==> self.x11 is None
    }

    /// Build the manager for the detected session. `x11` carries the atoms
    /// of the connection the caller opened, or `None` where opening failed;
    /// under Wayland no connection is used and the manager degrades the
    /// X11-specific steps to no-ops.
    pub fn new(env: &EnvSnapshot, x11: Option<X11Atoms>) -> (wm: WindowManager)
        ensures
            wm.is_wayland == spec_wayland_session(*env),
            !wm.is_wayland ==> wm.x11 == x11,
            wm.wf(),
    {
        let is_wayland = is_wayland_session(env);
        WindowManager { is_wayland, x11: if is_wayland { None } else { x11 } }
    }

    /// One-time window setup. Marks the window sticky and always-above in
    /// the model, and hands back the window-state property data to apply,
    /// when an X11 connection is live; otherwise the window and the
    /// protocol are left untouched.
    pub fn setup_window(&self, w: &mut WindowState) -> (property: Option<Vec<u8>>)
        ensures
            self.x11 matches Some(a) ==> ({
                &&& property matches Some(d) && d@ == atoms_bytes(
                    seq![a.net_wm_state_sticky, a.net_wm_state_above],
                )
                &&& *final(w) == (WindowState { sticky: true, above: true, ..*old(w) })
            }),
            self.x11 is None ==> property is None && *final(w) == *old(w),
    {
        match &self.x11 {
            Some(a) => {
                let mut atoms: Vec<u32> = Vec::new();
                atoms.push(a.net_wm_state_sticky);
                atoms.push(a.net_wm_state_above);
                assert(atoms@ =~= seq![a.net_wm_state_sticky, a.net_wm_state_above]);
                let data = atoms_to_bytes(&atoms);
                w.sticky = true;
                w.above = true;
                Some(data)
            },
            None => None,
        }
    }

    /// Activate the window: make it visible, unminimized and focused, and
    /// say which protocol steps the caller performs. Idempotent: activating
    /// an already-activated window changes nothing and asks the same steps.
    pub fn focus_window(&self, w: &mut WindowState) -> (acts: FocusActions)
        ensures
            *final(w) == spec_activated(*old(w)),
            acts.present_with_time == self.is_wayland,
            acts.send_active_window_message == (self.x11 is Some),
    {
        w.visible = true;
        w.minimized = false;
        w.focused = true;
        FocusActions {
            present_with_time: self.is_wayland,
            send_active_window_message: self.x11.is_some(),
        }
    }

    /// Minimize the window through the toolkit. A minimized window loses
    /// input focus; nothing else changes.
    pub fn minimize_window(&self, w: &mut WindowState)
        ensures
            *final(w) == (WindowState { minimized: true, focused: false, ..*old(w) }),
    {
        w.minimized = true;
        w.focused = false;
    }

    /// The content of the focus helper script for this session, or nothing
    /// under Wayland, where an outside process cannot raise the window and
    /// the marker alone carries the request.
    pub fn create_focus_script(&self, exe_path: &str) -> (r: Option<String>)
        ensures
            self.is_wayland ==> r is None,
            !self.is_wayland ==> (r matches Some(c) && c@ == "#!/bin/sh\n"@ + exe_path@
                + " --focus\n"@),
    {
        if self.is_wayland {
            None
        } else {
            Some(crate::shortcuts::focus_script_content(exe_path))
        }
    }

    /// The native implementation needs no external tools, so there is
    /// nothing to install.
    pub fn install_tools_if_needed(&self) {
    }

    /// The native implementation is always available.
    pub fn check_clipboard_tools(&self) -> (r: bool)
        ensures
            r,
    {
        true
    }
}

/// Activation is idempotent: activating an activated window leaves it
/// exactly as it was, so a second `focus_window` call neither toggles nor
/// hides anything.
pub proof fn lemma_activation_idempotent(w: WindowState)
    ensures
        spec_activated(spec_activated(w)) == spec_activated(w),
        spec_activated(w).focused,
{
}

/// The data of the active-window client message sent to the root window:
/// source indication 1 (application), the current-time timestamp constant,
/// and three zero fields.
pub fn active_window_message_data() -> (r: Vec<u32>)
    ensures
        r@ == seq![1u32, 0u32, 0u32, 0u32, 0u32],
{
    let mut v: Vec<u32> = Vec::new();
    v.push(1);
    v.push(0);
    v.push(0);
    v.push(0);
    v.push(0);
    assert(v@ =~= seq![1u32, 0u32, 0u32, 0u32, 0u32]);
    v
}

/// Byte `k` of the little-endian encoding of `x`.
pub open spec fn atom_byte(x: u32, k: int) -> u8 {
    if k == 0 {
        (x & 0xff) as u8
    } else if k == 1 {
        ((x >> 8) & 0xff) as u8
    } else if k == 2 {
        ((x >> 16) & 0xff) as u8
    } else {
        ((x >> 24) & 0xff) as u8
    }
}

/// The little-endian wire encoding of a list of 32-bit atoms, four bytes
/// each, as a format-32 property expects them on a little-endian client.
pub open spec fn atoms_bytes(atoms: Seq<u32>) -> Seq<u8> {
    Seq::new(4 * atoms.len(), |i: int| atom_byte(atoms[i / 4], i % 4))
}

/// Byte `k` of the little-endian encoding of `x`, as an executable step.
fn atom_byte_at(x: u32, k: usize) -> (b: u8)
    requires
        k < 4,
    ensures
        b == atom_byte(x, k as int),
{
    proof {
        assert(x & 0xff < 256) by (bit_vector);
        assert((x >> 8) & 0xff < 256) by (bit_vector);
        assert((x >> 16) & 0xff < 256) by (bit_vector);
        assert((x >> 24) & 0xff < 256) by (bit_vector);
    }
    if k == 0 {
        (x & 0xff) as u8
    } else if k == 1 {
        ((x >> 8) & 0xff) as u8
    } else if k == 2 {
        ((x >> 16) & 0xff) as u8
    } else {
        ((x >> 24) & 0xff) as u8
    }
}

/// Encode a list of atoms as the bytes of a format-32 property value.
pub fn atoms_to_bytes(atoms: &Vec<u32>) -> (r: Vec<u8>)
    ensures
        r@ == atoms_bytes(atoms@),
{
    let mut out: Vec<u8> = Vec::new();
    let mut i: usize = 0;
    while i < atoms.len()
        invariant
            i <= atoms@.len(),
            out@.len() == 4 * i,
            forall|j: int| 0 <= j < out@.len() ==> out@[j] == atom_byte(atoms@[j / 4], j % 4),
        decreases atoms@.len() - i,
    {
        let x = atoms[i];
        let mut k: usize = 0;
        while k < 4
            invariant
                i < atoms@.len(),
                x == atoms@[i as int],
                k <= 4,
                out@.len() == 4 * i + k,
                forall|j: int| 0 <= j < out@.len() ==> out@[j] == atom_byte(atoms@[j / 4], j % 4),
            decreases 4 - k,
        {
            let b = atom_byte_at(x, k);
            out.push(b);
            proof {
                assert((4 * i + k) / 4 == i && (4 * i + k) % 4 == k);
            }
            k = k + 1;
        }
        i = i + 1;
    }
    assert(out@ =~= atoms_bytes(atoms@));
    out
}

/// The name of the active-window request atom.
pub fn net_active_window_name() -> (r: &'static str)
    ensures
        r@ == "_NET_ACTIVE_WINDOW"@,
{
    "_NET_ACTIVE_WINDOW"
}

/// The name of the window-state property atom.
pub fn net_wm_state_name() -> (r: &'static str)
    ensures
        r@ == "_NET_WM_STATE"@,
{
    "_NET_WM_STATE"
}

/// The name of the always-above window-state atom.
pub fn net_wm_state_above_name() -> (r: &'static str)
    ensures
        r@ == "_NET_WM_STATE_ABOVE"@,
{
    "_NET_WM_STATE_ABOVE"
}

/// The name of the sticky window-state atom.
pub fn net_wm_state_sticky_name() -> (r: &'static str)
    ensures
        r@ == "_NET_WM_STATE_STICKY"@,
{
    "_NET_WM_STATE_STICKY"
}

} // verus!
