//! The transition rules: one pure, total rule per action, mapping the
//! current state and the request parameters to the next state, an ordered
//! effect-directive list, and the response returned to the trigger.
//!
//! Parameter validation happens strictly before any state change: a
//! rejected action returns the state unchanged with an empty directive
//! list.  The caption shown with the blur follows the blur flag (an
//! inactive blur carries none); the transient message is independent of
//! the blur, so hiding it leaves the blur flag alone.

use vstd::prelude::*;
use vstd::string::StringExecFns;

use crate::ZOOM_MAX_TENTHS;
use crate::ZOOM_MIN_TENTHS;
use crate::ZOOM_STEP_TENTHS;
use crate::actions::ActionName;
use crate::actions::ActionRequest;
use crate::actions::ActionResponse;
use crate::actions::RequestModel;
use crate::actions::parse_model;
use crate::effects::Effect;
use crate::effects::back_to_settings_effects;
use crate::effects::back_to_settings_effects_vec;
use crate::effects::blur_apply_effects;
use crate::effects::blur_apply_effects_vec;
use crate::effects::blur_clear_effects;
use crate::effects::blur_clear_effects_vec;
use crate::effects::enter_overlay_effects;
use crate::effects::enter_overlay_effects_vec;
use crate::effects::single_effect_vec;
use crate::state::BlurModel;
use crate::state::BlurState;
use crate::state::SessionState;
use crate::state::StateModel;
use crate::state::ViewMode;
use crate::state::ZoomState;

verus! {

/// What one transition yields: the committed state, the ordered directive
/// list, and the response for the trigger.
#[verifier::ext_equal]
pub ghost struct StepModel {
    pub state: StateModel,
    pub effects: Seq<Effect>,
    pub success: bool,
    pub message: Seq<char>,
}

/// The concrete result of one transition.
#[derive(Debug)]
pub struct Transition {
    pub next: SessionState,
    pub effects: Vec<Effect>,
    pub response: ActionResponse,
}

impl View for Transition {
    type V = StepModel;

    open spec fn view(&self) -> StepModel {
        StepModel {
            state: self.next@,
            effects: self.effects@,
            success: self.response.success,
            message: self.response.message@,
        }
    }
}

/// The caption a `blur.on` request asks for: its message parameter, or
/// nothing.
pub open spec fn caption_or_empty(m: Option<Seq<char>>) -> Seq<char> {
    match m {
        Some(c) => c,
        None => Seq::empty(),
    }
}

/// The caption a `blur.message` request asks for: its message parameter,
/// or the fixed fallback caption.
pub open spec fn caption_or_fallback(m: Option<Seq<char>>) -> Seq<char> {
    match m {
        Some(c) => c,
        None => "Message"@,
    }
}

/// One `zoom.in` step: half a factor up, saturating at the ceiling.
pub open spec fn zoom_level_up(lv: u32) -> u32 {
    if lv <= ZOOM_MAX_TENTHS - ZOOM_STEP_TENTHS {
        (lv + ZOOM_STEP_TENTHS) as u32
    } else {
        ZOOM_MAX_TENTHS
    }
}

/// One `zoom.out` step: half a factor down, saturating at the floor.
pub open spec fn zoom_level_down(lv: u32) -> u32 {
    if lv >= ZOOM_MIN_TENTHS + ZOOM_STEP_TENTHS {
        (lv - ZOOM_STEP_TENTHS) as u32
    } else {
        ZOOM_MIN_TENTHS
    }
}

/// A requested zoom level, clamped into the permitted range.
pub open spec fn clamp_level(lv: u32) -> u32 {
    if lv < ZOOM_MIN_TENTHS {
        ZOOM_MIN_TENTHS
    } else if lv > ZOOM_MAX_TENTHS {
        ZOOM_MAX_TENTHS
    } else {
        lv
    }
}

/// The zoom sub-state at a given level: the activity flag mirrors whether
/// the level magnifies at all.
pub open spec fn zoom_at(lv: u32) -> ZoomState {
    ZoomState { level_tenths: lv, active: lv > ZOOM_MIN_TENTHS }
}

/// A rejected transition: the state untouched, no directives, a failure
/// response.
pub open spec fn rejected(s: StateModel, message: Seq<char>) -> StepModel {
    StepModel { state: s, effects: Seq::empty(), success: false, message }
}

/// The transition rule of each action, as one total function of the
/// current state and the request parameters.
pub open spec fn apply_model(s: StateModel, a: ActionName, req: RequestModel) -> StepModel {
    match a {
        ActionName::BlurOn => StepModel {
            state: StateModel {
                blur: BlurModel { active: true, message: caption_or_empty(req.message) },
                ..s
            },
            effects: blur_apply_effects(),
            success: true,
            message: "Blur enabled"@,
        },
        ActionName::BlurOff => StepModel {
            state: StateModel { blur: BlurModel { active: false, message: Seq::empty() }, ..s },
            effects: blur_clear_effects(),
            success: true,
            message: "Blur disabled"@,
        },
        ActionName::BlurToggle => if s.blur.active {
            StepModel {
                state: StateModel {
                    blur: BlurModel { active: false, message: Seq::empty() },
                    ..s
                },
                effects: blur_clear_effects(),
                success: true,
                message: "Blur disabled"@,
            }
        } else {
            StepModel {
                state: StateModel { blur: BlurModel { active: true, message: s.blur.message }, ..s },
                effects: blur_apply_effects(),
                success: true,
                message: "Blur enabled"@,
            }
        },
        ActionName::BlurMessage => StepModel {
            state: StateModel {
                blur: BlurModel { active: true, message: caption_or_fallback(req.message) },
                ..s
            },
            effects: blur_apply_effects(),
            success: true,
            message: "Blur with message enabled"@,
        },
        ActionName::SpotlightOn => StepModel {
            state: StateModel { spotlight_active: true, ..s },
            effects: seq![Effect::NotifyState],
            success: true,
            message: "Spotlight enabled"@,
        },
        ActionName::SpotlightOff => StepModel {
            state: StateModel { spotlight_active: false, ..s },
            effects: seq![Effect::NotifyState],
            success: true,
            message: "Spotlight disabled"@,
        },
        ActionName::SpotlightToggle => StepModel {
            state: StateModel { spotlight_active: !s.spotlight_active, ..s },
            effects: seq![Effect::NotifyState],
            success: true,
            message: if s.spotlight_active {
                "Spotlight disabled"@
            } else {
                "Spotlight enabled"@
            },
        },
        ActionName::ZoomIn => StepModel {
            state: StateModel { zoom: zoom_at(zoom_level_up(s.zoom.level_tenths)), ..s },
            effects: seq![Effect::NotifyZoom],
            success: true,
            message: "Zoom level updated"@,
        },
        ActionName::ZoomOut => StepModel {
            state: StateModel { zoom: zoom_at(zoom_level_down(s.zoom.level_tenths)), ..s },
            effects: seq![Effect::NotifyZoom],
            success: true,
            message: "Zoom level updated"@,
        },
        ActionName::ZoomReset => StepModel {
            state: StateModel { zoom: zoom_at(ZOOM_MIN_TENTHS), ..s },
            effects: seq![Effect::NotifyZoom],
            success: true,
            message: "Zoom level updated"@,
        },
        ActionName::ZoomSet => match req.level_tenths {
            Some(lv) => StepModel {
                state: StateModel { zoom: zoom_at(clamp_level(lv)), ..s },
                effects: seq![Effect::NotifyZoom],
                success: true,
                message: "Zoom level updated"@,
            },
            None => rejected(s, "Invalid zoom level parameter"@),
        },
        ActionName::MessageShow => match req.text {
            Some(t) => StepModel {
                state: StateModel { message: Some(t), ..s },
                effects: seq![Effect::NotifyMessageShown],
                success: true,
                message: "Message shown"@,
            },
            None => rejected(s, "Invalid message text parameter"@),
        },
        ActionName::MessageHide => StepModel {
            state: StateModel { message: None, ..s },
            effects: seq![Effect::NotifyMessageHidden],
            success: true,
            message: "Message hidden"@,
        },
        ActionName::EnterOverlay => StepModel {
            state: StateModel {
                view_mode: ViewMode::Overlay,
                blur: BlurModel { active: false, message: Seq::empty() },
                ..s
            },
            effects: enter_overlay_effects(),
            success: true,
            message: "Overlay mode enabled"@,
        },
        ActionName::BackToSettings => StepModel {
            state: StateModel {
                view_mode: ViewMode::Settings,
                blur: BlurModel { active: false, message: Seq::empty() },
                ..s
            },
            effects: back_to_settings_effects(),
            success: true,
            message: "Settings mode restored"@,
        },
    }
}

/// One full dispatch step: parse the action name, then apply its rule; an
/// unknown name changes nothing and is reported back by name.
pub open spec fn step_model(s: StateModel, req: RequestModel) -> StepModel {
    match parse_model(req.action) {
        Some(a) => apply_model(s, a, req),
        None => rejected(s, "Unknown action: "@ + req.action),
    }
}

/// Builds a response from a success flag and a message.
fn respond(success: bool, message: &str) -> (r: ActionResponse)
    ensures
        r.success == success,
        r.message@ == message@,
{
    ActionResponse { success, message: message.to_owned() }
}

/// An independent copy of an optional owned string.
fn clone_opt_string(o: &Option<String>) -> (r: Option<String>)
    ensures
        crate::state::opt_str_view(r) == crate::state::opt_str_view(*o),
{
    match o {
        Some(m) => Some(m.clone()),
        None => None,
    }
}

/// Applies the transition rule of `a` to `s`.  Pure: the caller commits
/// the returned state.
pub fn apply_action(s: &SessionState, a: ActionName, req: &ActionRequest) -> (t: Transition)
    ensures
        t@ == apply_model(s@, a, req@),
{
    let t = match a {
        ActionName::BlurOn => {
            let caption = match &req.message {
                Some(m) => m.clone(),
                None => String::new(),
            };
            Transition {
                next: SessionState {
                    view_mode: s.view_mode,
                    blur: BlurState { active: true, message: caption },
                    spotlight_active: s.spotlight_active,
                    zoom: s.zoom,
                    message: clone_opt_string(&s.message),
                },
                effects: blur_apply_effects_vec(),
                response: respond(true, "Blur enabled"),
            }
        },
        ActionName::BlurOff => Transition {
            next: SessionState {
                view_mode: s.view_mode,
                blur: BlurState { active: false, message: String::new() },
                spotlight_active: s.spotlight_active,
                zoom: s.zoom,
                message: clone_opt_string(&s.message),
            },
            effects: blur_clear_effects_vec(),
            response: respond(true, "Blur disabled"),
        },
        ActionName::BlurToggle => if s.blur.active {
            Transition {
                next: SessionState {
                    view_mode: s.view_mode,
                    blur: BlurState { active: false, message: String::new() },
                    spotlight_active: s.spotlight_active,
                    zoom: s.zoom,
                    message: clone_opt_string(&s.message),
                },
                effects: blur_clear_effects_vec(),
                response: respond(true, "Blur disabled"),
            }
        } else {
            Transition {
                next: SessionState {
                    view_mode: s.view_mode,
                    blur: BlurState { active: true, message: s.blur.message.clone() },
                    spotlight_active: s.spotlight_active,
                    zoom: s.zoom,
                    message: clone_opt_string(&s.message),
                },
                effects: blur_apply_effects_vec(),
                response: respond(true, "Blur enabled"),
            }
        },
        ActionName::BlurMessage => {
            let caption = match &req.message {
                Some(m) => m.clone(),
                None => "Message".to_owned(),
            };
            Transition {
                next: SessionState {
                    view_mode: s.view_mode,
                    blur: BlurState { active: true, message: caption },
                    spotlight_active: s.spotlight_active,
                    zoom: s.zoom,
                    message: clone_opt_string(&s.message),
                },
                effects: blur_apply_effects_vec(),
                response: respond(true, "Blur with message enabled"),
            }
        },
        ActionName::SpotlightOn => Transition {
            next: SessionState {
                view_mode: s.view_mode,
                blur: BlurState { active: s.blur.active, message: s.blur.message.clone() },
                spotlight_active: true,
                zoom: s.zoom,
                message: clone_opt_string(&s.message),
            },
            effects: single_effect_vec(Effect::NotifyState),
            response: respond(true, "Spotlight enabled"),
        },
        ActionName::SpotlightOff => Transition {
            next: SessionState {
                view_mode: s.view_mode,
                blur: BlurState { active: s.blur.active, message: s.blur.message.clone() },
                spotlight_active: false,
                zoom: s.zoom,
                message: clone_opt_string(&s.message),
            },
            effects: single_effect_vec(Effect::NotifyState),
            response: respond(true, "Spotlight disabled"),
        },
        ActionName::SpotlightToggle => Transition {
            next: SessionState {
                view_mode: s.view_mode,
                blur: BlurState { active: s.blur.active, message: s.blur.message.clone() },
                spotlight_active: !s.spotlight_active,
                zoom: s.zoom,
                message: clone_opt_string(&s.message),
            },
            effects: single_effect_vec(Effect::NotifyState),
            response: respond(
                true,
                if s.spotlight_active {
                    "Spotlight disabled"
                } else {
                    "Spotlight enabled"
                },
            ),
        },
        ActionName::ZoomIn => {
            let lv = if s.zoom.level_tenths <= ZOOM_MAX_TENTHS - ZOOM_STEP_TENTHS {
                s.zoom.level_tenths + ZOOM_STEP_TENTHS
            } else {
                ZOOM_MAX_TENTHS
            };
            Transition {
                next: SessionState {
                    view_mode: s.view_mode,
                    blur: BlurState { active: s.blur.active, message: s.blur.message.clone() },
                    spotlight_active: s.spotlight_active,
                    zoom: ZoomState { level_tenths: lv, active: lv > ZOOM_MIN_TENTHS },
                    message: clone_opt_string(&s.message),
                },
                effects: single_effect_vec(Effect::NotifyZoom),
                response: respond(true, "Zoom level updated"),
            }
        },
        ActionName::ZoomOut => {
            let lv = if s.zoom.level_tenths >= ZOOM_MIN_TENTHS + ZOOM_STEP_TENTHS {
                s.zoom.level_tenths - ZOOM_STEP_TENTHS
            } else {
                ZOOM_MIN_TENTHS
            };
            Transition {
                next: SessionState {
                    view_mode: s.view_mode,
                    blur: BlurState { active: s.blur.active, message: s.blur.message.clone() },
                    spotlight_active: s.spotlight_active,
                    zoom: ZoomState { level_tenths: lv, active: lv > ZOOM_MIN_TENTHS },
                    message: clone_opt_string(&s.message),
                },
                effects: single_effect_vec(Effect::NotifyZoom),
                response: respond(true, "Zoom level updated"),
            }
        },
        ActionName::ZoomReset => Transition {
            next: SessionState {
                view_mode: s.view_mode,
                blur: BlurState { active: s.blur.active, message: s.blur.message.clone() },
                spotlight_active: s.spotlight_active,
                zoom: ZoomState { level_tenths: ZOOM_MIN_TENTHS, active: false },
                message: clone_opt_string(&s.message),
            },
            effects: single_effect_vec(Effect::NotifyZoom),
            response: respond(true, "Zoom level updated"),
        },
        ActionName::ZoomSet => match req.level_tenths {
            Some(requested) => {
                let lv = if requested < ZOOM_MIN_TENTHS {
                    ZOOM_MIN_TENTHS
                } else if requested > ZOOM_MAX_TENTHS {
                    ZOOM_MAX_TENTHS
                } else {
                    requested
                };
                Transition {
                    next: SessionState {
                        view_mode: s.view_mode,
                        blur: BlurState { active: s.blur.active, message: s.blur.message.clone() },
                        spotlight_active: s.spotlight_active,
                        zoom: ZoomState { level_tenths: lv, active: lv > ZOOM_MIN_TENTHS },
                        message: clone_opt_string(&s.message),
                    },
                    effects: single_effect_vec(Effect::NotifyZoom),
                    response: respond(true, "Zoom level updated"),
                }
            },
            None => Transition {
                next: s.snapshot(),
                effects: Vec::new(),
                response: respond(false, "Invalid zoom level parameter"),
            },
        },
        ActionName::MessageShow => match &req.text {
            Some(t) => Transition {
                next: SessionState {
                    view_mode: s.view_mode,
                    blur: BlurState { active: s.blur.active, message: s.blur.message.clone() },
                    spotlight_active: s.spotlight_active,
                    zoom: s.zoom,
                    message: Some(t.clone()),
                },
                effects: single_effect_vec(Effect::NotifyMessageShown),
                response: respond(true, "Message shown"),
            },
            None => Transition {
                next: s.snapshot(),
                effects: Vec::new(),
                response: respond(false, "Invalid message text parameter"),
            },
        },
        ActionName::MessageHide => Transition {
            next: SessionState {
                view_mode: s.view_mode,
                blur: BlurState { active: s.blur.active, message: s.blur.message.clone() },
                spotlight_active: s.spotlight_active,
                zoom: s.zoom,
                message: None,
            },
            effects: single_effect_vec(Effect::NotifyMessageHidden),
            response: respond(true, "Message hidden"),
        },
        ActionName::EnterOverlay => Transition {
            next: SessionState {
                view_mode: ViewMode::Overlay,
                blur: BlurState { active: false, message: String::new() },
                spotlight_active: s.spotlight_active,
                zoom: s.zoom,
                message: clone_opt_string(&s.message),
            },
            effects: enter_overlay_effects_vec(),
            response: respond(true, "Overlay mode enabled"),
        },
        ActionName::BackToSettings => Transition {
            next: SessionState {
                view_mode: ViewMode::Settings,
                blur: BlurState { active: false, message: String::new() },
                spotlight_active: s.spotlight_active,
                zoom: s.zoom,
                message: clone_opt_string(&s.message),
            },
            effects: back_to_settings_effects_vec(),
            response: respond(true, "Settings mode restored"),
        },
    };
    proof {
        assert(t@ =~~= apply_model(s@, a, req@));
    }
    t
}

/// Parses and applies one request against `s`: the whole dispatch step,
/// minus the commit that the store performs.
pub fn step(s: &SessionState, req: &ActionRequest) -> (t: Transition)
    ensures
        t@ == step_model(s@, req@),
{
    match ActionName::parse(req.action.as_str()) {
        Some(a) => apply_action(s, a, req),
        None => {
            let mut message = "Unknown action: ".to_owned();
            message.append(req.action.as_str());
            let t = Transition {
                next: s.snapshot(),
                effects: Vec::new(),
                response: ActionResponse { success: false, message },
            };
            proof {
                assert(t@ =~~= step_model(s@, req@));
            }
            t
        },
    }
}

} // verus!
