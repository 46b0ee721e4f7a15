use overlay_control::actions::ActionName;
use overlay_control::actions::str_eq;
use overlay_control::state::BlurState;
use overlay_control::state::Settings;
use overlay_control::state::ShortcutConfig;

#[test]
fn every_action_name_parses() {
    let cases = [
        ("blur.on", ActionName::BlurOn),
        ("blur.off", ActionName::BlurOff),
        ("blur.toggle", ActionName::BlurToggle),
        ("blur.message", ActionName::BlurMessage),
        ("spotlight.on", ActionName::SpotlightOn),
        ("spotlight.off", ActionName::SpotlightOff),
        ("spotlight.toggle", ActionName::SpotlightToggle),
        ("zoom.in", ActionName::ZoomIn),
        ("zoom.out", ActionName::ZoomOut),
        ("zoom.reset", ActionName::ZoomReset),
        ("zoom.set", ActionName::ZoomSet),
        ("message.show", ActionName::MessageShow),
        ("message.hide", ActionName::MessageHide),
        ("view.enter_overlay", ActionName::EnterOverlay),
        ("view.back_to_settings", ActionName::BackToSettings),
    ];
    for (name, expected) in cases {
        assert_eq!(ActionName::parse(name), Some(expected));
    }
}

#[test]
fn strangers_do_not_parse() {
    for name in ["", "blur", "blur.o", "blur.onn", "BLUR.ON", "zoom", "bogus"] {
        assert_eq!(ActionName::parse(name), None);
    }
}

#[test]
fn string_equality_is_exact() {
    assert!(str_eq("", ""));
    assert!(str_eq("blur.on", "blur.on"));
    assert!(!str_eq("blur.on", "blur.off"));
    assert!(!str_eq("blur.on", "blur.on "));
    assert!(!str_eq("a", ""));
    assert!(str_eq("zoom \u{00e9}tape", "zoom \u{00e9}tape"));
    assert!(!str_eq("zoom \u{00e9}tape", "zoom etape"));
}

#[test]
fn default_settings_port() {
    let s = Settings::default();
    assert_eq!(s.api_port, 42042);
}

#[test]
fn default_blur_state_is_off_and_silent() {
    let b = BlurState::default();
    assert!(!b.active);
    assert_eq!(b.message, "");
}

#[test]
fn default_shortcuts() {
    let s = ShortcutConfig::default();
    assert_eq!(s.spotlight_toggle, "CommandOrControl+Shift+L");
    assert_eq!(s.zoom_in, "CommandOrControl+Shift+=");
    assert_eq!(s.zoom_out, "CommandOrControl+Shift+-");
    assert_eq!(s.zoom_reset, "CommandOrControl+Shift+0");
    assert_eq!(s.blur_toggle, "CommandOrControl+Shift+B");
}
