//! The session state owned by the store, and its mathematical model.
//!
//! Zoom levels are held in tenths of the user-visible factor, so the
//! range 1.0x ..= 5.0x is the integer range 10 ..= 50 and one `zoom.in`
//! step of 0.5x adds 5.  The shell converts to the fractional factor at
//! its own boundary.

use vstd::prelude::*;

use crate::ZOOM_MAX_TENTHS;
use crate::ZOOM_MIN_TENTHS;

verus! {

/// The model of an optional owned string.
pub open spec fn opt_str_view(o: Option<String>) -> Option<Seq<char>> {
    match o {
        Some(m) => Some(m@),
        None => None,
    }
}

/// Which visual mode the companion window is in: an interactive settings
/// panel, or a full-screen click-through overlay.
#[derive(Clone, Copy, Debug, PartialEq, Eq, Structural)]
pub enum ViewMode {
    Settings,
    Overlay,
}

/// Backdrop-blur flag together with the caption shown over the blur.
/// The caption is empty whenever the blur is inactive.
#[derive(Debug)]
pub struct BlurState {
    pub active: bool,
    pub message: String,
}

/// Mathematical model of [`BlurState`].
#[verifier::ext_equal]
pub ghost struct BlurModel {
    pub active: bool,
    pub message: Seq<char>,
}

impl View for BlurState {
    type V = BlurModel;

    open spec fn view(&self) -> BlurModel {
        BlurModel { active: self.active, message: self.message@ }
    }
}

/// Zoom factor in tenths, with the derived activity flag.
#[derive(Clone, Copy, Debug, PartialEq, Eq, Structural)]
pub struct ZoomState {
    pub level_tenths: u32,
    pub active: bool,
}

/// The one canonical session state.  Created once with
/// [`SessionState::default`] and mutated only through the transition rules.
#[derive(Debug)]
pub struct SessionState {
    pub view_mode: ViewMode,
    pub blur: BlurState,
    pub spotlight_active: bool,
    pub zoom: ZoomState,
    pub message: Option<String>,
}

/// Mathematical model of [`SessionState`].
#[verifier::ext_equal]
pub ghost struct StateModel {
    pub view_mode: ViewMode,
    pub blur: BlurModel,
    pub spotlight_active: bool,
    pub zoom: ZoomState,
    pub message: Option<Seq<char>>,
}

impl View for SessionState {
    type V = StateModel;

    open spec fn view(&self) -> StateModel {
        StateModel {
            view_mode: self.view_mode,
            blur: self.blur@,
            spotlight_active: self.spotlight_active,
            zoom: self.zoom,
            message: opt_str_view(self.message),
        }
    }
}

/// The state every process starts from: settings view, no effect active,
/// zoom at 1.0x.
pub open spec fn init_model() -> StateModel {
    StateModel {
        view_mode: ViewMode::Settings,
        blur: BlurModel { active: false, message: Seq::empty() },
        spotlight_active: false,
        zoom: ZoomState { level_tenths: ZOOM_MIN_TENTHS, active: false },
        message: None,
    }
}

/// The cross-field invariants of a session state: an inactive blur carries
/// no caption, the zoom flag mirrors the level, and the level stays within
/// its clamp range.
pub open spec fn state_wf(s: StateModel) -> bool {
    &&& !s.blur.active ==> s.blur.message.len() == 0
    &&& s.zoom.active == (s.zoom.level_tenths > ZOOM_MIN_TENTHS)
    &&& ZOOM_MIN_TENTHS <= s.zoom.level_tenths <= ZOOM_MAX_TENTHS
}

/// Whether any effect still wants the overlay painted: what the shell
/// consults before it hides the overlay window.
pub open spec fn any_effect_active_model(s: StateModel) -> bool {
    s.blur.active || s.spotlight_active || s.zoom.active || s.message is Some
}

impl SessionState {
    /// Well-formedness of the concrete state, stated over its model.
    pub open spec fn wf(&self) -> bool {
        state_wf(self@)
    }

    /// Whether any effect still wants the overlay painted.
    pub fn any_effect_active(&self) -> (b: bool)
        ensures
            b == any_effect_active_model(self@),
    {
        self.blur.active || self.spotlight_active || self.zoom.active || self.message.is_some()
    }

    /// An independent deep copy, handed to observers after a commit.
    pub fn snapshot(&self) -> (s: SessionState)
        ensures
            s@ == self@,
    {
        let s = SessionState {
            view_mode: self.view_mode,
            blur: BlurState { active: self.blur.active, message: self.blur.message.clone() },
            spotlight_active: self.spotlight_active,
            zoom: self.zoom,
            message: match self.message {
                Some(ref m) => Some(m.clone()),
                None => None,
            },
        };
        proof {
            assert(s@ =~~= self@);
        }
        s
    }
}

impl Default for SessionState {
    /// The fixed default state of a fresh process.
    fn default() -> (s: Self)
        ensures
            s@ == init_model(),
            s.wf(),
    {
        let s = SessionState {
            view_mode: ViewMode::Settings,
            blur: BlurState { active: false, message: String::new() },
            spotlight_active: false,
            zoom: ZoomState { level_tenths: ZOOM_MIN_TENTHS, active: false },
            message: None,
        };
        proof {
            assert(s@ =~~= init_model());
        }
        s
    }
}

impl Default for BlurState {
    /// A fresh blur state: inactive, with an empty caption.
    fn default() -> (s: Self)
        ensures
            s@ == (BlurModel { active: false, message: Seq::empty() }),
    {
        let s = BlurState { active: false, message: String::new() };
        proof {
            assert(s@ =~~= (BlurModel { active: false, message: Seq::<char>::empty() }));
        }
        s
    }
}

/// Static configuration of the control surface, loaded once at startup and
/// replaced only wholesale.
#[derive(Clone, Copy, Debug, PartialEq, Eq, Structural)]
pub struct Settings {
    pub api_port: u16,
}

impl Default for Settings {
    /// The port the control surface listens on unless configured otherwise.
    fn default() -> (s: Self)
        ensures
            s.api_port == 42042,
    {
        Settings { api_port: 42042 }
    }
}

/// The key combinations registered for the shortcut adapter.
#[derive(Debug)]
pub struct ShortcutConfig {
    pub spotlight_toggle: String,
    pub zoom_in: String,
    pub zoom_out: String,
    pub zoom_reset: String,
    pub blur_toggle: String,
}

impl Default for ShortcutConfig {
    /// The default key combinations.
    fn default() -> (s: Self)
        ensures
            s.spotlight_toggle@ == "CommandOrControl+Shift+L"@,
            s.zoom_in@ == "CommandOrControl+Shift+="@,
            s.zoom_out@ == "CommandOrControl+Shift+-"@,
            s.zoom_reset@ == "CommandOrControl+Shift+0"@,
            s.blur_toggle@ == "CommandOrControl+Shift+B"@,
    {
        ShortcutConfig {
            spotlight_toggle: "CommandOrControl+Shift+L".to_owned(),
            zoom_in: "CommandOrControl+Shift+=".to_owned(),
            zoom_out: "CommandOrControl+Shift+-".to_owned(),
            zoom_reset: "CommandOrControl+Shift+0".to_owned(),
            blur_toggle: "CommandOrControl+Shift+B".to_owned(),
        }
    }
}

} // verus!
