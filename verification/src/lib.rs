//! Global hotkey capture and cross-process window-activation pipeline.
//!
//! The library verifies the decision logic of the pipeline: detecting the
//! display server, debouncing trigger events, the marker-file signalling
//! channel, the per-environment hotkey registration strategy, the selection
//! capture fallback chain, and the window activation state machine. The
//! surrounding process (threads, files, protocol connections) hands plain
//! values in and carries the decided actions out.

pub mod activator;
pub mod ascii;
pub mod channel;
pub mod debounce;
pub mod paths;
pub mod poller;
pub mod probe;
pub mod records;
pub mod registrar;
pub mod selection_reader;
pub mod services;
pub mod settings;
pub mod shortcuts;

use vstd::prelude::*;

verus! {

/// Period of the marker-file poll loops, in milliseconds.
pub const POLL_INTERVAL_MS: u64 = 100;

} // verus!
