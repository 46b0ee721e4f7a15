//! The session state store: the single source of truth, mutated only
//! through the transition rules.
//!
//! Exclusive access is the `&mut` discipline of the methods here; the
//! shell shares one store among its triggers behind its own mutual-
//! exclusion primitive and calls in while holding it.  Committing happens
//! under that exclusion; painting and notifying happen afterwards, from
//! the returned directive list and snapshot, so window-system latency
//! never extends the hold time.

use vstd::prelude::*;

use crate::actions::ActionName;
use crate::actions::ActionRequest;
use crate::actions::ActionResponse;
use crate::actions::RequestModel;
use crate::effects::Effect;
use crate::laws::lemma_apply_preserves_wf;
use crate::laws::lemma_step_preserves_wf;
use crate::rules::apply_action;
use crate::rules::apply_model;
use crate::rules::step;
use crate::rules::step_model;
use crate::state::SessionState;
use crate::state::StateModel;
use crate::state::init_model;
use crate::state::state_wf;

verus! {

/// The request model of a parameterless trigger, as the tray-menu and
/// shortcut adapters issue it.
pub open spec fn trigger_model() -> RequestModel {
    RequestModel { action: Seq::empty(), message: None, text: None, level_tenths: None }
}

/// The store owning the canonical session state.
#[derive(Debug)]
pub struct SessionStore {
    state: SessionState,
}

impl View for SessionStore {
    type V = StateModel;

    closed spec fn view(&self) -> StateModel {
        self.state@
    }
}

impl SessionStore {
    /// The state invariants, maintained by every method here.
    pub open spec fn wf(&self) -> bool {
        state_wf(self@)
    }

    /// A fresh store in the fixed default state.
    pub fn new() -> (s: SessionStore)
        ensures
            s@ == init_model(),
            s.wf(),
    {
        SessionStore { state: SessionState::default() }
    }

    /// Dispatches one decoded request: applies its rule, commits the next
    /// state, and returns the response together with the directive list
    /// the shell must now execute, in order.
    pub fn handle_request(&mut self, req: &ActionRequest) -> (r: (ActionResponse, Vec<Effect>))
        requires
            old(self).wf(),
        ensures
            final(self).wf(),
            final(self)@ == step_model(old(self)@, req@).state,
            r.1@ == step_model(old(self)@, req@).effects,
            r.0.success == step_model(old(self)@, req@).success,
            r.0.message@ == step_model(old(self)@, req@).message,
    {
        proof {
            lemma_step_preserves_wf(self@, req@);
        }
        let t = step(&self.state, req);
        self.state = t.next;
        (t.response, t.effects)
    }

    /// Dispatches one fixed, parameterless trigger — a tray-menu item or
    /// a registered shortcut — through the same rules as every other
    /// adapter.
    pub fn handle_trigger(&mut self, a: ActionName) -> (r: (ActionResponse, Vec<Effect>))
        requires
            old(self).wf(),
        ensures
            final(self).wf(),
            final(self)@ == apply_model(old(self)@, a, trigger_model()).state,
            r.1@ == apply_model(old(self)@, a, trigger_model()).effects,
            r.0.success == apply_model(old(self)@, a, trigger_model()).success,
            r.0.message@ == apply_model(old(self)@, a, trigger_model()).message,
    {
        proof {
            lemma_apply_preserves_wf(self@, a, trigger_model());
        }
        let req = ActionRequest::bare(String::new());
        proof {
            assert(req@ =~= trigger_model());
        }
        let t = apply_action(&self.state, a, &req);
        self.state = t.next;
        (t.response, t.effects)
    }

    /// The current state, as an independent snapshot: what a status query
    /// returns and what the notifier publishes after a commit.
    pub fn status(&self) -> (s: SessionState)
        ensures
            s@ == self@,
    {
        self.state.snapshot()
    }
}

} // verus!
