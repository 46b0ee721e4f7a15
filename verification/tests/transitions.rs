use overlay_control::actions::ActionName;
use overlay_control::actions::ActionRequest;
use overlay_control::effects::Effect;
use overlay_control::state::SessionState;
use overlay_control::state::ViewMode;
use overlay_control::store::SessionStore;

fn bare(action: &str) -> ActionRequest {
    ActionRequest {
        action: action.to_string(),
        message: None,
        text: None,
        level_tenths: None,
    }
}

fn with_message(action: &str, message: &str) -> ActionRequest {
    ActionRequest {
        action: action.to_string(),
        message: Some(message.to_string()),
        text: None,
        level_tenths: None,
    }
}

#[test]
fn default_state_is_clean() {
    let s = SessionState::default();
    assert_eq!(s.view_mode, ViewMode::Settings);
    assert!(!s.blur.active);
    assert_eq!(s.blur.message, "");
    assert!(!s.spotlight_active);
    assert_eq!(s.zoom.level_tenths, 10);
    assert!(!s.zoom.active);
    assert!(s.message.is_none());
}

#[test]
fn blur_on_with_caption_reports_back() {
    let mut store = SessionStore::new();
    let (resp, effects) = store.handle_request(&with_message("blur.on", "Hi"));
    assert!(resp.success);
    assert_eq!(resp.message, "Blur enabled");
    assert_eq!(
        effects,
        vec![
            Effect::ApplyBackdrop,
            Effect::SetClickThrough(false),
            Effect::NotifyState,
        ]
    );
    let status = store.status();
    assert!(status.blur.active);
    assert_eq!(status.blur.message, "Hi");
    assert_eq!(status.view_mode, ViewMode::Settings);
}

#[test]
fn blur_on_without_caption_is_empty() {
    let mut store = SessionStore::new();
    let (resp, _) = store.handle_request(&bare("blur.on"));
    assert!(resp.success);
    let status = store.status();
    assert!(status.blur.active);
    assert_eq!(status.blur.message, "");
}

#[test]
fn blur_off_clears_caption() {
    let mut store = SessionStore::new();
    store.handle_request(&with_message("blur.on", "Hi"));
    let (resp, effects) = store.handle_request(&bare("blur.off"));
    assert!(resp.success);
    assert_eq!(resp.message, "Blur disabled");
    assert_eq!(
        effects,
        vec![
            Effect::ClearBackdrop,
            Effect::SetClickThrough(true),
            Effect::NotifyState,
        ]
    );
    let status = store.status();
    assert!(!status.blur.active);
    assert_eq!(status.blur.message, "");
}

#[test]
fn blur_off_twice_is_idempotent() {
    let mut store = SessionStore::new();
    store.handle_request(&with_message("blur.on", "Hi"));
    store.handle_request(&bare("blur.off"));
    let once = store.status();
    store.handle_request(&bare("blur.off"));
    let twice = store.status();
    assert_eq!(once.view_mode, twice.view_mode);
    assert_eq!(once.blur.active, twice.blur.active);
    assert_eq!(once.blur.message, twice.blur.message);
    assert_eq!(once.spotlight_active, twice.spotlight_active);
    assert_eq!(once.zoom, twice.zoom);
    assert_eq!(once.message, twice.message);
}

#[test]
fn two_serialized_toggles_net_out() {
    let mut store = SessionStore::new();
    let (first, _) = store.handle_request(&bare("blur.toggle"));
    assert_eq!(first.message, "Blur enabled");
    assert!(store.status().blur.active);
    let (second, _) = store.handle_request(&bare("blur.toggle"));
    assert_eq!(second.message, "Blur disabled");
    let status = store.status();
    assert!(!status.blur.active);
    assert_eq!(status.blur.message, "");
}

#[test]
fn blur_message_uses_fallback_caption() {
    let mut store = SessionStore::new();
    let (resp, _) = store.handle_request(&bare("blur.message"));
    assert!(resp.success);
    assert_eq!(resp.message, "Blur with message enabled");
    let status = store.status();
    assert!(status.blur.active);
    assert_eq!(status.blur.message, "Message");
}

#[test]
fn blur_message_uses_given_caption() {
    let mut store = SessionStore::new();
    store.handle_request(&with_message("blur.message", "Look here"));
    assert_eq!(store.status().blur.message, "Look here");
}

#[test]
fn spotlight_on_off_toggle() {
    let mut store = SessionStore::new();
    let (on, effects) = store.handle_request(&bare("spotlight.on"));
    assert_eq!(on.message, "Spotlight enabled");
    assert_eq!(effects, vec![Effect::NotifyState]);
    assert!(store.status().spotlight_active);
    let (off, _) = store.handle_request(&bare("spotlight.off"));
    assert_eq!(off.message, "Spotlight disabled");
    assert!(!store.status().spotlight_active);
    let (toggled, _) = store.handle_request(&bare("spotlight.toggle"));
    assert_eq!(toggled.message, "Spotlight enabled");
    assert!(store.status().spotlight_active);
}

#[test]
fn ten_zoom_in_steps_clamp_at_ceiling() {
    let mut store = SessionStore::new();
    for _ in 0..10 {
        let (resp, effects) = store.handle_request(&bare("zoom.in"));
        assert!(resp.success);
        assert_eq!(effects, vec![Effect::NotifyZoom]);
    }
    let status = store.status();
    assert_eq!(status.zoom.level_tenths, 50);
    assert!(status.zoom.active);
}

#[test]
fn zoom_out_clamps_at_floor() {
    let mut store = SessionStore::new();
    store.handle_request(&bare("zoom.in"));
    store.handle_request(&bare("zoom.out"));
    store.handle_request(&bare("zoom.out"));
    let status = store.status();
    assert_eq!(status.zoom.level_tenths, 10);
    assert!(!status.zoom.active);
}

#[test]
fn zoom_in_steps_by_half() {
    let mut store = SessionStore::new();
    store.handle_request(&bare("zoom.in"));
    let status = store.status();
    assert_eq!(status.zoom.level_tenths, 15);
    assert!(status.zoom.active);
}

#[test]
fn zoom_set_round_trips_through_status() {
    let mut store = SessionStore::new();
    let level = 3.0_f64;
    let tenths = (level * 10.0) as u32;
    let req = ActionRequest {
        action: "zoom.set".to_string(),
        message: None,
        text: None,
        level_tenths: Some(tenths),
    };
    let (resp, _) = store.handle_request(&req);
    assert!(resp.success);
    assert_eq!(resp.message, "Zoom level updated");
    let status = store.status();
    assert_eq!(status.zoom.level_tenths, 30);
    assert!(status.zoom.active);
    assert_eq!(status.zoom.level_tenths as f64 / 10.0, 3.0);
}

#[test]
fn zoom_set_clamps_out_of_range_levels() {
    let mut store = SessionStore::new();
    let mut req = bare("zoom.set");
    req.level_tenths = Some(70);
    store.handle_request(&req);
    assert_eq!(store.status().zoom.level_tenths, 50);
    req.level_tenths = Some(3);
    store.handle_request(&req);
    let status = store.status();
    assert_eq!(status.zoom.level_tenths, 10);
    assert!(!status.zoom.active);
}

#[test]
fn zoom_set_without_level_is_rejected() {
    let mut store = SessionStore::new();
    let (resp, effects) = store.handle_request(&bare("zoom.set"));
    assert!(!resp.success);
    assert_eq!(resp.message, "Invalid zoom level parameter");
    assert!(effects.is_empty());
    let status = store.status();
    assert_eq!(status.zoom.level_tenths, 10);
    assert!(!status.zoom.active);
    assert_eq!(status.view_mode, ViewMode::Settings);
}

#[test]
fn zoom_reset_returns_to_base() {
    let mut store = SessionStore::new();
    store.handle_request(&bare("zoom.in"));
    store.handle_request(&bare("zoom.in"));
    let (resp, _) = store.handle_request(&bare("zoom.reset"));
    assert!(resp.success);
    let status = store.status();
    assert_eq!(status.zoom.level_tenths, 10);
    assert!(!status.zoom.active);
}

#[test]
fn message_show_requires_text() {
    let mut store = SessionStore::new();
    let (resp, effects) = store.handle_request(&bare("message.show"));
    assert!(!resp.success);
    assert_eq!(resp.message, "Invalid message text parameter");
    assert!(effects.is_empty());
    assert!(store.status().message.is_none());
}

#[test]
fn message_show_and_hide() {
    let mut store = SessionStore::new();
    let req = ActionRequest {
        action: "message.show".to_string(),
        message: None,
        text: Some("Back in five".to_string()),
        level_tenths: None,
    };
    let (resp, effects) = store.handle_request(&req);
    assert!(resp.success);
    assert_eq!(resp.message, "Message shown");
    assert_eq!(effects, vec![Effect::NotifyMessageShown]);
    assert_eq!(store.status().message.as_deref(), Some("Back in five"));

    let was_blur = store.status().blur.active;
    let (resp, effects) = store.handle_request(&bare("message.hide"));
    assert!(resp.success);
    assert_eq!(resp.message, "Message hidden");
    assert_eq!(effects, vec![Effect::NotifyMessageHidden]);
    assert!(store.status().message.is_none());
    // The transient message is decoupled from the blur: hiding it leaves
    // the blur flag alone.
    assert_eq!(store.status().blur.active, was_blur);
}

#[test]
fn enter_overlay_resets_an_active_blur() {
    let mut store = SessionStore::new();
    store.handle_request(&with_message("blur.on", "Hi"));
    assert!(store.status().blur.active);
    let (resp, effects) = store.handle_request(&bare("view.enter_overlay"));
    assert!(resp.success);
    assert_eq!(resp.message, "Overlay mode enabled");
    assert_eq!(
        effects,
        vec![
            Effect::SetTransparent(true),
            Effect::SetDecorations(false),
            Effect::SetAlwaysOnTop(true),
            Effect::SetSkipTaskbar(true),
            Effect::Maximize,
            Effect::SetClickThrough(true),
            Effect::NotifyState,
            Effect::NotifyViewMode,
        ]
    );
    let status = store.status();
    assert_eq!(status.view_mode, ViewMode::Overlay);
    assert!(!status.blur.active);
    assert_eq!(status.blur.message, "");
}

#[test]
fn back_to_settings_restores_the_panel() {
    let mut store = SessionStore::new();
    store.handle_request(&bare("view.enter_overlay"));
    store.handle_request(&with_message("blur.on", "Hi"));
    let (resp, effects) = store.handle_request(&bare("view.back_to_settings"));
    assert!(resp.success);
    assert_eq!(resp.message, "Settings mode restored");
    assert_eq!(
        effects,
        vec![
            Effect::SetClickThrough(false),
            Effect::SetAlwaysOnTop(false),
            Effect::Unmaximize,
            Effect::SetDecorations(true),
            Effect::SetSkipTaskbar(false),
            Effect::ResizeAndCenter,
            Effect::SetTransparent(false),
            Effect::NotifyState,
            Effect::NotifyViewMode,
        ]
    );
    let status = store.status();
    assert_eq!(status.view_mode, ViewMode::Settings);
    assert!(!status.blur.active);
    assert_eq!(status.blur.message, "");
}

#[test]
fn unknown_action_names_the_stranger() {
    let mut store = SessionStore::new();
    let (resp, effects) = store.handle_request(&bare("bogus"));
    assert!(!resp.success);
    assert_eq!(resp.message, "Unknown action: bogus");
    assert!(effects.is_empty());
    let status = store.status();
    assert_eq!(status.view_mode, ViewMode::Settings);
    assert!(!status.blur.active);
    assert_eq!(status.zoom.level_tenths, 10);
}

#[test]
fn overlay_need_follows_the_effects() {
    let mut store = SessionStore::new();
    assert!(!store.status().any_effect_active());
    store.handle_request(&bare("zoom.in"));
    assert!(store.status().any_effect_active());
    store.handle_request(&bare("zoom.reset"));
    assert!(!store.status().any_effect_active());
    store.handle_request(&bare("spotlight.on"));
    assert!(store.status().any_effect_active());
    store.handle_request(&bare("spotlight.off"));
    assert!(!store.status().any_effect_active());
}

#[test]
fn triggers_go_through_the_same_rules() {
    let mut store = SessionStore::new();
    let (resp, effects) = store.handle_trigger(ActionName::BlurToggle);
    assert!(resp.success);
    assert_eq!(resp.message, "Blur enabled");
    assert_eq!(
        effects,
        vec![
            Effect::ApplyBackdrop,
            Effect::SetClickThrough(false),
            Effect::NotifyState,
        ]
    );
    assert!(store.status().blur.active);
    let (resp, _) = store.handle_trigger(ActionName::BackToSettings);
    assert!(resp.success);
    assert!(!store.status().blur.active);
    assert_eq!(store.status().view_mode, ViewMode::Settings);
}

#[test]
fn trigger_without_params_cannot_set_zoom() {
    let mut store = SessionStore::new();
    let (resp, effects) = store.handle_trigger(ActionName::ZoomSet);
    assert!(!resp.success);
    assert_eq!(resp.message, "Invalid zoom level parameter");
    assert!(effects.is_empty());
    assert_eq!(store.status().zoom.level_tenths, 10);
}
