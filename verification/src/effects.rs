//! Effect directives: the ordered instructions a committed transition hands
//! to the window collaborator and to the notifier.  The shell executes each
//! in order, best-effort; a failed paint never rolls the state back.

use vstd::prelude::*;

verus! {

/// One instruction for the window collaborator or the notifier.
#[derive(Clone, Copy, Debug, PartialEq, Eq, Structural)]
pub enum Effect {
    /// Paint the native backdrop blur behind the window.
    ApplyBackdrop,
    /// Remove the native backdrop blur.
    ClearBackdrop,
    /// Let pointer input pass through the window (true) or capture it (false).
    SetClickThrough(bool),
    /// Show or hide the window decorations.
    SetDecorations(bool),
    /// Keep the window above every other (true) or not (false).
    SetAlwaysOnTop(bool),
    /// Hide the window from the taskbar (true) or list it (false).
    SetSkipTaskbar(bool),
    /// Make the window background transparent (true) or opaque (false).
    SetTransparent(bool),
    /// Grow the window to fill the screen.
    Maximize,
    /// Leave the maximized layout.
    Unmaximize,
    /// Restore the settings-panel size and center the window.
    ResizeAndCenter,
    /// Publish the committed blur/session snapshot to observers.
    NotifyState,
    /// Publish the committed view mode to observers.
    NotifyViewMode,
    /// Publish the committed zoom level to observers.
    NotifyZoom,
    /// Tell observers the transient message is now shown.
    NotifyMessageShown,
    /// Tell observers the transient message is now hidden.
    NotifyMessageHidden,
}

/// What enabling the blur asks of the collaborator: paint the backdrop,
/// capture the pointer again, then notify.
pub open spec fn blur_apply_effects() -> Seq<Effect> {
    seq![Effect::ApplyBackdrop, Effect::SetClickThrough(false), Effect::NotifyState]
}

/// What disabling the blur asks: clear the backdrop, pass the pointer
/// through, then notify.
pub open spec fn blur_clear_effects() -> Seq<Effect> {
    seq![Effect::ClearBackdrop, Effect::SetClickThrough(true), Effect::NotifyState]
}

/// Entering overlay mode: full-screen, undecorated, always on top,
/// click-through, transparent; then notify both the blur-state and the
/// view-mode channels.
pub open spec fn enter_overlay_effects() -> Seq<Effect> {
    seq![
        Effect::SetTransparent(true),
        Effect::SetDecorations(false),
        Effect::SetAlwaysOnTop(true),
        Effect::SetSkipTaskbar(true),
        Effect::Maximize,
        Effect::SetClickThrough(true),
        Effect::NotifyState,
        Effect::NotifyViewMode,
    ]
}

/// Returning to the settings panel: undo the overlay layout in the reverse
/// discipline, restore the panel size, go opaque; then notify both channels.
pub open spec fn back_to_settings_effects() -> Seq<Effect> {
    seq![
        Effect::SetClickThrough(false),
        Effect::SetAlwaysOnTop(false),
        Effect::Unmaximize,
        Effect::SetDecorations(true),
        Effect::SetSkipTaskbar(false),
        Effect::ResizeAndCenter,
        Effect::SetTransparent(false),
        Effect::NotifyState,
        Effect::NotifyViewMode,
    ]
}

/// Builds the concrete directive list for enabling the blur.
pub fn blur_apply_effects_vec() -> (v: Vec<Effect>)
    ensures
        v@ == blur_apply_effects(),
{
    let mut v: Vec<Effect> = Vec::new();
    v.push(Effect::ApplyBackdrop);
    v.push(Effect::SetClickThrough(false));
    v.push(Effect::NotifyState);
    proof {
        assert(v@ =~= blur_apply_effects());
    }
    v
}

/// Builds the concrete directive list for disabling the blur.
pub fn blur_clear_effects_vec() -> (v: Vec<Effect>)
    ensures
        v@ == blur_clear_effects(),
{
    let mut v: Vec<Effect> = Vec::new();
    v.push(Effect::ClearBackdrop);
    v.push(Effect::SetClickThrough(true));
    v.push(Effect::NotifyState);
    proof {
        assert(v@ =~= blur_clear_effects());
    }
    v
}

/// Builds the concrete directive list for entering overlay mode.
pub fn enter_overlay_effects_vec() -> (v: Vec<Effect>)
    ensures
        v@ == enter_overlay_effects(),
{
    let mut v: Vec<Effect> = Vec::new();
    v.push(Effect::SetTransparent(true));
    v.push(Effect::SetDecorations(false));
    v.push(Effect::SetAlwaysOnTop(true));
    v.push(Effect::SetSkipTaskbar(true));
    v.push(Effect::Maximize);
    v.push(Effect::SetClickThrough(true));
    v.push(Effect::NotifyState);
    v.push(Effect::NotifyViewMode);
    proof {
        assert(v@ =~= enter_overlay_effects());
    }
    v
}

/// Builds the concrete directive list for returning to the settings panel.
pub fn back_to_settings_effects_vec() -> (v: Vec<Effect>)
    ensures
        v@ == back_to_settings_effects(),
{
    let mut v: Vec<Effect> = Vec::new();
    v.push(Effect::SetClickThrough(false));
    v.push(Effect::SetAlwaysOnTop(false));
    v.push(Effect::Unmaximize);
    v.push(Effect::SetDecorations(true));
    v.push(Effect::SetSkipTaskbar(false));
    v.push(Effect::ResizeAndCenter);
    v.push(Effect::SetTransparent(false));
    v.push(Effect::NotifyState);
    v.push(Effect::NotifyViewMode);
    proof {
        assert(v@ =~= back_to_settings_effects());
    }
    v
}

/// Builds a single-directive list.
pub fn single_effect_vec(e: Effect) -> (v: Vec<Effect>)
    ensures
        v@ == seq![e],
{
    let mut v: Vec<Effect> = Vec::new();
    v.push(e);
    proof {
        assert(v@ =~= seq![e]);
    }
    v
}

} // verus!
