//! Control plane for a desktop presentation-overlay companion.
//!
//! The library owns the canonical session state (backdrop blur, spotlight,
//! zoom, transient message, view mode) and the transition rules that every
//! trigger — HTTP client, tray menu, keyboard shortcut — must go through.
//! Each transition returns the committed state together with an ordered list
//! of effect directives for the window collaborator and the observers; the
//! unverified shell around the library performs the actual painting and
//! notification I/O.

use vstd::prelude::*;

pub mod actions;
pub mod effects;
pub mod laws;
pub mod rules;
pub mod state;
pub mod store;

verus! {

/// Smallest zoom level, in tenths (1.0x).
pub const ZOOM_MIN_TENTHS: u32 = 10;

/// Largest zoom level, in tenths (5.0x).
pub const ZOOM_MAX_TENTHS: u32 = 50;

/// Step taken by `zoom.in` / `zoom.out`, in tenths (0.5x).
pub const ZOOM_STEP_TENTHS: u32 = 5;

} // verus!
