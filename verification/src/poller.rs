//! The UI-side polling contract: one recurring, non-blocking tick that
//! drains the trigger channel.
//!
//! Each tick polls the focus-request marker and the captured-selection
//! marker. A focus hit activates the window; a selection hit with text sets
//! it as the pending input, activates the window, and hands the text to the
//! translation pipeline. Slow work is handed off: the tick itself only
//! decides.

use vstd::prelude::*;

use crate::channel::MarkerConsumer;
use crate::channel::MarkerSlot;
use crate::channel::spec_poll;

verus! {

/// What one tick asks of the UI layer.
pub struct TickActions {
    /// Bring the window to the foreground and give it focus.
    pub focus_window: bool,
    /// Set this text as the pending input and hand it to the translation
    /// pipeline.
    pub translate: Option<String>,
}

/// The poller's memory across ticks: one consumer per marker kind.
pub struct UiPoller {
    /// Consumer of the focus-request marker.
    pub focus: MarkerConsumer,
    /// Consumer of the captured-selection marker.
    pub selection: MarkerConsumer,
}

impl UiPoller {
    /// A poller that ignores markers stamped `start` or earlier, so events
    /// from before startup are not replayed.
    pub fn new(start: u64) -> (p: UiPoller)
        ensures
            p.focus.last_seen == start,
            p.selection.last_seen == start,
    {
        UiPoller { focus: MarkerConsumer::new(start), selection: MarkerConsumer::new(start) }
    }

    /// One tick: poll both markers, and decide the actions. The window is
    /// activated on a focus hit or on a selection hit with text; the text
    /// of a selection hit is handed on exactly when it is non-empty.
    pub fn tick(&mut self, focus_slot: &mut MarkerSlot, selection_slot: &mut MarkerSlot) -> (acts:
        TickActions)
        ensures
            ({
                let (fslot, fcons, fhit) = spec_poll(*old(focus_slot), old(self).focus);
                let (sslot, scons, shit) = spec_poll(*old(selection_slot), old(self).selection);
                &&& *final(focus_slot) == fslot
                &&& final(self).focus == fcons
                &&& *final(selection_slot) == sslot
                &&& final(self).selection == scons
                &&& acts.translate == (match shit {
                    Some(text) => if text@.len() > 0 {
                        Some(text)
                    } else {
                        None
                    },
                    None => None,
                })
                &&& acts.focus_window == (fhit is Some || acts.translate is Some)
            }),
    {
        let focus_hit = self.focus.poll(focus_slot);
        let selection_hit = self.selection.poll(selection_slot);
        let translate = match selection_hit {
            Some(text) => {
                if text.as_str().unicode_len() > 0 {
                    Some(text)
                } else {
                    None
                }
            },
            None => None,
        };
        TickActions { focus_window: focus_hit.is_some() || translate.is_some(), translate }
    }
}

} // verus!
