//! Hotkey registration strategy and the shared trigger-accepted path.
//!
//! On X11 the hotkey is a global key grab on the root window, issued for the
//! clean modifier combination and for every variant that also carries the
//! Caps-Lock or Num-Lock state bit, because those bits pollute the reported
//! modifier state of a key press. On Wayland no global grab is possible, so
//! a small shell script touching the trigger marker is registered as a
//! desktop shortcut through the shell's own tooling; in every environment a
//! file-poll loop additionally watches the trigger marker, so a
//! shell-registered script or a manual touch works even where the grab
//! fails.
//!
//! Every detection method funnels into one shared path: check the debounce
//! guard, and when the trigger is accepted, capture the selection, write the
//! selection marker if the capture is non-empty, and request window
//! activation.

use vstd::prelude::*;

use crate::channel::MarkerSlot;
use crate::debounce::DebounceGuard;
use crate::debounce::debounce_accepts;
use crate::probe::DesktopShell;
use crate::probe::DisplayServerKind;

verus! {

/// X11 modifier state bit of Caps Lock.
pub const MASK_LOCK: u32 = 2;

/// X11 modifier state bit of Control.
pub const MASK_CONTROL: u32 = 4;

/// X11 modifier state bit of Mod1 (Alt).
pub const MASK_MOD1: u32 = 8;

/// X11 modifier state bit of Mod2 (Num Lock).
pub const MASK_MOD2: u32 = 16;

/// The hotkey's modifier combination: Control together with Alt.
pub const HOTKEY_MODIFIER_MASK: u32 = MASK_CONTROL | MASK_MOD1;

/// The reported modifier state with the lock bits (Caps Lock, Num Lock)
/// masked out.
pub open spec fn spec_clean_state(state: u32) -> u32 {
    state & !(MASK_LOCK | MASK_MOD2)
}

/// Mask the lock bits out of a reported modifier state.
pub fn clean_modifier_state(state: u32) -> (r: u32)
    ensures
        r == spec_clean_state(state),
{
    state & !(MASK_LOCK | MASK_MOD2)
}

/// The modifier combinations to grab: the clean combination and each
/// variant polluted by Caps Lock, Num Lock, or both.
pub open spec fn spec_grab_variants() -> Seq<u32> {
    seq![
        HOTKEY_MODIFIER_MASK,
        HOTKEY_MODIFIER_MASK | MASK_LOCK,
        HOTKEY_MODIFIER_MASK | MASK_MOD2,
        HOTKEY_MODIFIER_MASK | MASK_LOCK | MASK_MOD2,
    ]
}

/// The modifier combinations to grab for the hotkey, in grab order.
pub fn grab_mask_variants() -> (r: Vec<u32>)
    ensures
        r@ == spec_grab_variants(),
{
    let mut v: Vec<u32> = Vec::new();
    v.push(HOTKEY_MODIFIER_MASK);
    v.push(HOTKEY_MODIFIER_MASK | MASK_LOCK);
    v.push(HOTKEY_MODIFIER_MASK | MASK_MOD2);
    v.push(HOTKEY_MODIFIER_MASK | MASK_LOCK | MASK_MOD2);
    assert(v@ =~= spec_grab_variants());
    v
}

/// Every grabbed variant reports the clean hotkey combination once the lock
/// bits are masked out, so a press under any lock state is treated as the
/// same chord.
pub proof fn lemma_grab_variants_clean()
    ensures
        forall|i: int|
            0 <= i < spec_grab_variants().len() ==> spec_clean_state(
                #[trigger] spec_grab_variants()[i],
            ) == HOTKEY_MODIFIER_MASK,
{
    assert((4u32 | 8u32) & !(2u32 | 16u32) == 4u32 | 8u32) by (bit_vector);
    assert(((4u32 | 8u32) | 2u32) & !(2u32 | 16u32) == 4u32 | 8u32) by (bit_vector);
    assert(((4u32 | 8u32) | 16u32) & !(2u32 | 16u32) == 4u32 | 8u32) by (bit_vector);
    assert(((4u32 | 8u32) | 2u32 | 16u32) & !(2u32 | 16u32) == 4u32 | 8u32) by (bit_vector);
}

/// Whether a reported key press is the hotkey chord: the grabbed keycode,
/// with the clean modifier state equal to the hotkey combination.
pub open spec fn spec_hotkey_chord(keycode: u32, hotkey_keycode: u32, state: u32) -> bool {
    keycode == hotkey_keycode && spec_clean_state(state) == HOTKEY_MODIFIER_MASK
}

/// Decide whether a key-press event is the hotkey chord.
pub fn is_hotkey_chord(keycode: u32, hotkey_keycode: u32, state: u32) -> (r: bool)
    ensures
        r == spec_hotkey_chord(keycode, hotkey_keycode, state),
{
    keycode == hotkey_keycode && clean_modifier_state(state) == HOTKEY_MODIFIER_MASK
}

/// How the hotkey is arranged to produce a detectable signal in a given
/// environment.
#[derive(Clone, Copy, Debug, PartialEq, Eq, Structural)]
pub enum RegistrationMethod {
    /// X11: a dedicated thread issues a global key grab on the root window.
    X11KeyGrab,
    /// Wayland under GNOME: register the trigger script as a custom
    /// keybinding through the desktop-settings tool.
    GnomeShortcut,
    /// Wayland under KDE: register the trigger script through the
    /// config-writing tool.
    KdeShortcut,
    /// Any other shell: print manual setup instructions and leave
    /// registration to the operator.
    ManualShortcut,
}

/// The registration method for an environment: a key grab on X11 (and where
/// the display server is unknown, since only the grab can be tried), and a
/// shell-specific shortcut on Wayland.
pub open spec fn spec_registration_method(kind: DisplayServerKind, shell: DesktopShell) -> RegistrationMethod {
    if kind is Wayland {
        match shell {
            DesktopShell::Gnome => RegistrationMethod::GnomeShortcut,
            DesktopShell::Kde => RegistrationMethod::KdeShortcut,
            DesktopShell::Generic => RegistrationMethod::ManualShortcut,
        }
    } else {
        RegistrationMethod::X11KeyGrab
    }
}

/// Choose the registration method for the detected environment.
pub fn registration_method(kind: DisplayServerKind, shell: DesktopShell) -> (m: RegistrationMethod)
    ensures
        m == spec_registration_method(kind, shell),
{
    match kind {
        DisplayServerKind::Wayland => match shell {
            DesktopShell::Gnome => RegistrationMethod::GnomeShortcut,
            DesktopShell::Kde => RegistrationMethod::KdeShortcut,
            DesktopShell::Generic => RegistrationMethod::ManualShortcut,
        },
        _ => RegistrationMethod::X11KeyGrab,
    }
}

/// The registration state of the hotkey.
#[derive(Clone, Copy, Debug, PartialEq, Eq, Structural)]
pub enum RegistrarPhase {
    /// Nothing has been attempted yet.
    Unregistered,
    /// Registration is under way.
    Registering,
    /// The detection method is in place for the process lifetime.
    Active,
    /// Registration failed; detection falls back to the file-poll loop.
    Failed,
}

/// The registrar: the registration state machine, together with the flag
/// for the always-running file-poll loop.
pub struct HotkeyRegistrar {
    /// Where registration stands.
    pub phase: RegistrarPhase,
    /// Whether the trigger-marker poll loop is running. Once started it
    /// runs for the process lifetime; no transition stops it.
    pub poll_active: bool,
}

impl HotkeyRegistrar {
    /// A registrar that has not started yet.
    pub fn new() -> (r: HotkeyRegistrar)
        ensures
            r.phase is Unregistered,
            !r.poll_active,
    {
        HotkeyRegistrar { phase: RegistrarPhase::Unregistered, poll_active: false }
    }

    /// Begin registration: the file-poll loop starts, whatever method is
    /// attempted next.
    pub fn start(&mut self)
        requires
            old(self).phase is Unregistered,
        ensures
            final(self).phase is Registering,
            final(self).poll_active,
    {
        self.phase = RegistrarPhase::Registering;
        self.poll_active = true;
    }

    /// The registration attempt succeeded (the grab was issued, or the
    /// shortcut was written).
    pub fn on_registered(&mut self)
        requires
            old(self).phase is Registering,
        ensures
            final(self).phase is Active,
            final(self).poll_active == old(self).poll_active,
    {
        self.phase = RegistrarPhase::Active;
    }

    /// The registration attempt failed (the root window already grabs the
    /// combination, or the shell tooling is absent). The failure is not
    /// fatal: the file-poll loop stays active, so touching the trigger
    /// marker still produces events.
    pub fn on_registration_failed(&mut self)
        requires
            old(self).phase is Registering,
        ensures
            final(self).phase is Failed,
            final(self).poll_active == old(self).poll_active,
    {
        self.phase = RegistrarPhase::Failed;
    }
}

/// The shared trigger-accepted path: the debounce guard, applied by every
/// detection method of the process.
pub struct TriggerService {
    /// The process-local debounce guard.
    pub debounce: DebounceGuard,
}

impl TriggerService {
    /// A service that will accept the first trigger.
    pub fn new() -> (t: TriggerService)
        ensures
            t.debounce.last is None,
    {
        TriggerService { debounce: DebounceGuard::new() }
    }

    /// Decide a detected trigger at `now`. When discarded, the caller
    /// removes any trigger marker and does not act; when accepted, the
    /// caller captures the selection and calls [`Self::emit`].
    pub fn trigger_accepted(&mut self, now: u64) -> (accepted: bool)
        ensures
            accepted == debounce_accepts(old(self).debounce.last, now),
            accepted ==> final(self).debounce.last == Some(now),
            !accepted ==> *final(self) == *old(self),
    {
        self.debounce.accept(now)
    }

    /// After an accepted trigger: write the captured selection to its
    /// marker if it is non-empty, and request window activation.
    pub fn emit(selection: &String, now: u64, selection_slot: &mut MarkerSlot, focus_slot: &mut MarkerSlot)
        ensures
            selection@.len() > 0 ==> (final(selection_slot).state matches Some(m) && m.mtime == now
                && m.content@ == selection@),
            selection@.len() == 0 ==> *final(selection_slot) == *old(selection_slot),
            final(focus_slot).state matches Some(m) && m.mtime == now && m.content@.len() == 0,
    {
        if selection.as_str().unicode_len() > 0 {
            selection_slot.signal(now, selection.clone());
        }
        focus_slot.signal(now, String::new());
    }

    /// The whole path for one detected trigger with its captured selection:
    /// debounce, then emit. Returns whether the trigger was accepted; a
    /// discarded trigger leaves both markers untouched.
    pub fn complete_trigger(
        &mut self,
        now: u64,
        selection: &String,
        selection_slot: &mut MarkerSlot,
        focus_slot: &mut MarkerSlot,
    ) -> (accepted: bool)
        ensures
            accepted == debounce_accepts(old(self).debounce.last, now),
            accepted ==> final(self).debounce.last == Some(now),
            !accepted ==> *final(self) == *old(self),
            accepted && selection@.len() > 0 ==> (final(selection_slot).state matches Some(m)
                && m.mtime == now && m.content@ == selection@),
            !(accepted && selection@.len() > 0) ==> *final(selection_slot) == *old(selection_slot),
            accepted ==> (final(focus_slot).state matches Some(m) && m.mtime == now
                && m.content@.len() == 0),
            !accepted ==> *final(focus_slot) == *old(focus_slot),
    {
        let accepted = self.trigger_accepted(now);
        if accepted {
            TriggerService::emit(selection, now, selection_slot, focus_slot);
        }
        accepted
    }
}

} // verus!
