//! The action vocabulary: every request a trigger can make, and the parsing
//! of an action name into it.

use vstd::prelude::*;
use vstd::string::StrSliceExecFns;

use crate::state::opt_str_view;

verus! {

/// The named actions a trigger may request.  Each has one transition rule.
#[derive(Clone, Copy, Debug, PartialEq, Eq, Structural)]
pub enum ActionName {
    BlurOn,
    BlurOff,
    BlurToggle,
    BlurMessage,
    SpotlightOn,
    SpotlightOff,
    SpotlightToggle,
    ZoomIn,
    ZoomOut,
    ZoomReset,
    ZoomSet,
    MessageShow,
    MessageHide,
    EnterOverlay,
    BackToSettings,
}

/// A decoded trigger: the action name as it arrived, and the parameters a
/// rule may consult.  A zoom level arrives in tenths; the shell turns a
/// fractional factor into tenths (and a missing or non-numeric one into
/// `None`) before it reaches the rules.
#[derive(Debug)]
pub struct ActionRequest {
    pub action: String,
    pub message: Option<String>,
    pub text: Option<String>,
    pub level_tenths: Option<u32>,
}

/// Mathematical model of [`ActionRequest`].
#[verifier::ext_equal]
pub ghost struct RequestModel {
    pub action: Seq<char>,
    pub message: Option<Seq<char>>,
    pub text: Option<Seq<char>>,
    pub level_tenths: Option<u32>,
}

impl View for ActionRequest {
    type V = RequestModel;

    open spec fn view(&self) -> RequestModel {
        RequestModel {
            action: self.action@,
            message: opt_str_view(self.message),
            text: opt_str_view(self.text),
            level_tenths: self.level_tenths,
        }
    }
}

impl ActionRequest {
    /// A request carrying an action name and nothing else, as the tray and
    /// shortcut adapters issue it.
    pub fn bare(action: String) -> (r: ActionRequest)
        ensures
            r@ == (RequestModel {
                action: action@,
                message: None,
                text: None,
                level_tenths: None,
            }),
    {
        let r = ActionRequest { action, message: None, text: None, level_tenths: None };
        proof {
            assert(r@ =~= (RequestModel {
                action: r.action@,
                message: None,
                text: None,
                level_tenths: None,
            }));
        }
        r
    }
}

/// What a trigger is told once its action has been handled: whether the
/// transition committed, and a human-readable message either way.
#[derive(Debug)]
pub struct ActionResponse {
    pub success: bool,
    pub message: String,
}

/// Character-for-character string equality, the primitive the name parser
/// rests on.
pub fn str_eq(a: &str, b: &str) -> (r: bool)
    ensures
        r == (a@ == b@),
{
    let n = a.unicode_len();
    if n != b.unicode_len() {
        return false;
    }
    let mut i: usize = 0;
    while i < n
        invariant
            n == a@.len(),
            n == b@.len(),
            i <= n,
            forall|j: int| 0 <= j < i ==> a@[j] == b@[j],
        decreases n - i,
    {
        if a.get_char(i) != b.get_char(i) {
            return false;
        }
        i += 1;
    }
    proof {
        assert(a@ =~= b@);
    }
    true
}

/// The action named by a request, if the vocabulary knows it.
pub open spec fn parse_model(name: Seq<char>) -> Option<ActionName> {
    if name == "blur.on"@ {
        Some(ActionName::BlurOn)
    } else if name == "blur.off"@ {
        Some(ActionName::BlurOff)
    } else if name == "blur.toggle"@ {
        Some(ActionName::BlurToggle)
    } else if name == "blur.message"@ {
        Some(ActionName::BlurMessage)
    } else if name == "spotlight.on"@ {
        Some(ActionName::SpotlightOn)
    } else if name == "spotlight.off"@ {
        Some(ActionName::SpotlightOff)
    } else if name == "spotlight.toggle"@ {
        Some(ActionName::SpotlightToggle)
    } else if name == "zoom.in"@ {
        Some(ActionName::ZoomIn)
    } else if name == "zoom.out"@ {
        Some(ActionName::ZoomOut)
    } else if name == "zoom.reset"@ {
        Some(ActionName::ZoomReset)
    } else if name == "zoom.set"@ {
        Some(ActionName::ZoomSet)
    } else if name == "message.show"@ {
        Some(ActionName::MessageShow)
    } else if name == "message.hide"@ {
        Some(ActionName::MessageHide)
    } else if name == "view.enter_overlay"@ {
        Some(ActionName::EnterOverlay)
    } else if name == "view.back_to_settings"@ {
        Some(ActionName::BackToSettings)
    } else {
        None
    }
}

impl ActionName {
    /// Parses an action name.  Exactly the names of the vocabulary are
    /// recognized; everything else is an unknown action.
    pub fn parse(name: &str) -> (r: Option<ActionName>)
        ensures
            r == parse_model(name@),
    {
        if str_eq(name, "blur.on") {
            Some(ActionName::BlurOn)
        } else if str_eq(name, "blur.off") {
            Some(ActionName::BlurOff)
        } else if str_eq(name, "blur.toggle") {
            Some(ActionName::BlurToggle)
        } else if str_eq(name, "blur.message") {
            Some(ActionName::BlurMessage)
        } else if str_eq(name, "spotlight.on") {
            Some(ActionName::SpotlightOn)
        } else if str_eq(name, "spotlight.off") {
            Some(ActionName::SpotlightOff)
        } else if str_eq(name, "spotlight.toggle") {
            Some(ActionName::SpotlightToggle)
        } else if str_eq(name, "zoom.in") {
            Some(ActionName::ZoomIn)
        } else if str_eq(name, "zoom.out") {
            Some(ActionName::ZoomOut)
        } else if str_eq(name, "zoom.reset") {
            Some(ActionName::ZoomReset)
        } else if str_eq(name, "zoom.set") {
            Some(ActionName::ZoomSet)
        } else if str_eq(name, "message.show") {
            Some(ActionName::MessageShow)
        } else if str_eq(name, "message.hide") {
            Some(ActionName::MessageHide)
        } else if str_eq(name, "view.enter_overlay") {
            Some(ActionName::EnterOverlay)
        } else if str_eq(name, "view.back_to_settings") {
            Some(ActionName::BackToSettings)
        } else {
            None
        }
    }
}

} // verus!
