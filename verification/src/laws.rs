//! The laws of the transition system: the cross-field invariants hold in
//! every reachable state, disabling the blur is idempotent, serialized
//! toggles compose, and a committed zoom level is reported back exactly.

use vstd::prelude::*;

use crate::ZOOM_MAX_TENTHS;
use crate::ZOOM_MIN_TENTHS;
use crate::actions::ActionName;
use crate::actions::RequestModel;
use crate::actions::parse_model;
use crate::effects::Effect;
use crate::rules::apply_model;
use crate::rules::step_model;
use crate::state::StateModel;
use crate::state::init_model;
use crate::state::state_wf;

verus! {

/// The state after a sequence of requests has been dispatched in order
/// through the store, starting from `s`.
pub open spec fn run_model(s: StateModel, reqs: Seq<RequestModel>) -> StateModel
    decreases reqs.len(),
{
    if reqs.len() == 0 {
        s
    } else {
        run_model(step_model(s, reqs[0]).state, reqs.drop_first())
    }
}

/// Every single rule keeps the state invariants.
pub proof fn lemma_apply_preserves_wf(s: StateModel, a: ActionName, req: RequestModel)
    requires
        state_wf(s),
    ensures
        state_wf(apply_model(s, a, req).state),
{
}

/// Every dispatch step — a known rule or a rejection — keeps the state
/// invariants.
pub proof fn lemma_step_preserves_wf(s: StateModel, req: RequestModel)
    requires
        state_wf(s),
    ensures
        state_wf(step_model(s, req).state),
{
    match parse_model(req.action) {
        Some(a) => lemma_apply_preserves_wf(s, a, req),
        None => (),
    }
}

/// The state invariants hold after any sequence of dispatched requests.
pub proof fn lemma_run_preserves_wf(s: StateModel, reqs: Seq<RequestModel>)
    requires
        state_wf(s),
    ensures
        state_wf(run_model(s, reqs)),
    decreases reqs.len(),
{
    if reqs.len() > 0 {
        lemma_step_preserves_wf(s, reqs[0]);
        lemma_run_preserves_wf(step_model(s, reqs[0]).state, reqs.drop_first());
    }
}

/// In every reachable state, an inactive blur carries an empty caption.
pub proof fn lemma_reachable_blur_caption_empty(reqs: Seq<RequestModel>)
    ensures
        !run_model(init_model(), reqs).blur.active ==> run_model(
            init_model(),
            reqs,
        ).blur.message.len() == 0,
{
    lemma_run_preserves_wf(init_model(), reqs);
}

/// In every reachable state, the zoom flag holds exactly when the level
/// magnifies beyond 1.0x.
pub proof fn lemma_reachable_zoom_flag(reqs: Seq<RequestModel>)
    ensures
        run_model(init_model(), reqs).zoom.active == (run_model(
            init_model(),
            reqs,
        ).zoom.level_tenths > ZOOM_MIN_TENTHS),
{
    lemma_run_preserves_wf(init_model(), reqs);
}

/// After any sequence of dispatched requests — zoom steps included — the
/// zoom level stays within its clamp range.
pub proof fn lemma_reachable_zoom_bounds(reqs: Seq<RequestModel>)
    ensures
        ZOOM_MIN_TENTHS <= run_model(init_model(), reqs).zoom.level_tenths <= ZOOM_MAX_TENTHS,
{
    lemma_run_preserves_wf(init_model(), reqs);
}

/// Whether a directive addresses the observers rather than the window.
pub open spec fn is_notification(e: Effect) -> bool {
    match e {
        Effect::NotifyState => true,
        Effect::NotifyViewMode => true,
        Effect::NotifyZoom => true,
        Effect::NotifyMessageShown => true,
        Effect::NotifyMessageHidden => true,
        _ => false,
    }
}

/// Whether a directive list tells the observers anything.
pub open spec fn has_notification(es: Seq<Effect>) -> bool {
    exists|i: int| 0 <= i < es.len() && is_notification(es[i])
}

/// Every committed transition is followed by a notification to the
/// observers, and a rejected one by none: its directive list is empty.
pub proof fn lemma_every_commit_notifies(s: StateModel, req: RequestModel)
    ensures
        step_model(s, req).success ==> has_notification(step_model(s, req).effects),
        !step_model(s, req).success ==> step_model(s, req).effects.len() == 0,
{
    match parse_model(req.action) {
        Some(a) => {
            let es = apply_model(s, a, req).effects;
            if apply_model(s, a, req).success {
                assert(is_notification(es[es.len() - 1]));
            }
        },
        None => (),
    }
}

/// A rejected action — an unknown name or a missing parameter — leaves
/// the state exactly as it was.
pub proof fn lemma_rejection_changes_nothing(s: StateModel, req: RequestModel)
    ensures
        !step_model(s, req).success ==> step_model(s, req).state == s,
{
}

/// Disabling the blur twice in a row commits the same state as disabling
/// it once.
pub proof fn lemma_blur_off_idempotent(s: StateModel, req1: RequestModel, req2: RequestModel)
    requires
        parse_model(req1.action) == Some(ActionName::BlurOff),
        parse_model(req2.action) == Some(ActionName::BlurOff),
    ensures
        step_model(step_model(s, req1).state, req2).state == step_model(s, req1).state,
{
    assert(step_model(step_model(s, req1).state, req2).state =~~= step_model(s, req1).state);
}

/// Two blur toggles serialized by the store, against an initially-off
/// blur: the first commits an active blur, the second observes that
/// commit — never the initial state — and ends with the blur off and its
/// caption cleared.
pub proof fn lemma_serialized_toggles(s: StateModel, req1: RequestModel, req2: RequestModel)
    requires
        state_wf(s),
        !s.blur.active,
        parse_model(req1.action) == Some(ActionName::BlurToggle),
        parse_model(req2.action) == Some(ActionName::BlurToggle),
    ensures
        step_model(s, req1).state.blur.active,
        !step_model(step_model(s, req1).state, req2).state.blur.active,
        step_model(step_model(s, req1).state, req2).state.blur.message.len() == 0,
{
}

/// A committed `zoom.set` reports back exactly the level it was given, and
/// an in-range level is committed unclamped, so a status read after the
/// commit returns it unchanged.
pub proof fn lemma_zoom_set_round_trip(s: StateModel, req: RequestModel, lv: u32)
    requires
        parse_model(req.action) == Some(ActionName::ZoomSet),
        req.level_tenths == Some(lv),
        ZOOM_MIN_TENTHS <= lv <= ZOOM_MAX_TENTHS,
    ensures
        step_model(s, req).success,
        step_model(s, req).state.zoom.level_tenths == lv,
        step_model(s, req).state.zoom.active == (lv > ZOOM_MIN_TENTHS),
{
}

} // verus!
