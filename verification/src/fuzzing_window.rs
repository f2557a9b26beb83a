//! The long-running task screen. On every render it polls the kernel for the
//! three properties the external engine needs — configuration blob, port and
//! target binary — and once all three are present it asks for the launch,
//! exactly once, and stops polling.

use vstd::prelude::*;
use vstd::string::StringExecFns;

use crate::action::{Action, Outcome};
use crate::app::{is_get_property, is_warning_popup, Request};
use crate::popup::{Popup, PopupType};
use crate::property::{PropValue, PropView, PropertyStore};
use crate::strutil::clone_path;

verus! {

/// Shared context the fuzzing screen was designed around; it carries no state
/// of its own.
pub struct FuzzingWindowCtx {}

/// The fuzzing screen: its local copy of the properties it has been handed,
/// whether the engine was launched, and a status line for display.
pub struct FuzzingWindow {
    pub context: FuzzingWindowCtx,
    pub properties: PropertyStore,
    pub started: bool,
    pub status: String,
}

pub open spec fn fuzzing_window_initial(w: FuzzingWindow) -> bool {
    &&& w.properties@ == Map::<Seq<char>, PropView>::empty()
    &&& !w.started
    &&& w.status@ == "Nothing"@
}

/// The polling relation, checked on every render until the launch: ask for
/// the first of the three properties still missing; warn if one arrived with
/// the wrong kind; once all three are present with the right kinds, hand out
/// the launch request built from exactly those values and stop polling for
/// good.
pub open spec fn fuzzing_poll_step(
    pre: FuzzingWindow,
    post: FuzzingWindow,
    reqs: Seq<Request>,
    act: Option<Action>,
) -> bool {
    &&& crate::app::reqs_wf(reqs)
    &&& {
        let props = pre.properties@;
        if pre.started {
            post == pre && reqs.len() == 0 && act is None
        } else if !props.contains_key("emu_opts"@) {
            post == pre && is_get_property(reqs, "emu_opts"@) && act is None
        } else if !(props["emu_opts"@] is Blob) {
            post == pre && is_warning_popup(reqs, "Unexpected Type for emu_opts"@) && act is None
        } else if !props.contains_key("port"@) {
            post == pre && is_get_property(reqs, "port"@) && act is None
        } else if !(props["port"@] is Port) {
            post == pre && is_warning_popup(reqs, "Unexpected Type for port"@) && act is None
        } else if !props.contains_key("binary_path"@) {
            post == pre && is_get_property(reqs, "binary_path"@) && act is None
        } else if !(props["binary_path"@] is Path) {
            post == pre && is_warning_popup(reqs, "Unexpected Type for binary_path"@) && act is None
        } else {
            &&& post.properties == pre.properties
            &&& post.started
            &&& post.context == pre.context
            &&& post.status@ == "Launching fuzzing engine"@
            &&& reqs.len() == 0
            &&& act matches Some(Action::Launch { blob, port, binary }) && {
                &&& props["emu_opts"@] matches PropView::Blob(b) && blob@ == b
                &&& props["port"@] matches PropView::Port(pn) && port == pn
                &&& props["binary_path"@] matches PropView::Path(bp) && binary.deep_view() == bp
            }
        }
    }
}

/// What an outcome does to the screen: a failed launch surfaces as a warning
/// popup with the underlying message; everything else changes nothing. The
/// kernel keeps running either way.
pub open spec fn fuzzing_outcome_step(
    pre: FuzzingWindow,
    out: Outcome,
    post: FuzzingWindow,
    reqs: Seq<Request>,
    act: Option<Action>,
) -> bool {
    &&& crate::app::reqs_wf(reqs)
    &&& {
        &&& act is None
        &&& post == pre
        &&& match out {
            Outcome::LaunchResult(e) => match e {
                Some(msg) => {
                    &&& reqs.len() == 1
                    &&& reqs[0] matches Request::Popup(p) && p.popup_type is Warning && p.message
                        == msg
                },
                None => reqs.len() == 0,
            },
            _ => reqs.len() == 0,
        }
    }
}

/// Receiving a property stores it in the screen's local copy.
pub open spec fn fuzzing_recv(
    pre: FuzzingWindow,
    name: Seq<char>,
    v: PropView,
    post: FuzzingWindow,
) -> bool {
    &&& post.properties@ == pre.properties@.insert(name, v)
    &&& post.started == pre.started
    &&& post.status == pre.status
    &&& post.context == pre.context
}

impl FuzzingWindow {
    pub fn new() -> (r: FuzzingWindow)
        ensures
            fuzzing_window_initial(r),
    {
        FuzzingWindow {
            context: FuzzingWindowCtx {  },
            properties: PropertyStore::new(),
            started: false,
            status: String::from_str("Nothing"),
        }
    }

    /// One render-phase poll.
    pub fn poll(&mut self) -> (r: (Vec<Request>, Option<Action>))
        ensures
            fuzzing_poll_step(*old(self), *final(self), r.0@, r.1),
    {
        if self.started {
            return (Vec::new(), None);
        }
        let blob: String = match self.properties.get(&String::from_str("emu_opts")) {
            None => {
                let mut reqs: Vec<Request> = Vec::new();
                reqs.push(Request::GetProperty(String::from_str("emu_opts")));
                return (reqs, None);
            },
            Some(v) => match v {
                PropValue::Blob(b) => b.clone(),
                _ => {
                    let mut reqs: Vec<Request> = Vec::new();
                    reqs.push(
                        Request::Popup(
                            Popup::new(
                                PopupType::Warning,
                                String::from_str("Unexpected Type for emu_opts"),
                            ),
                        ),
                    );
                    return (reqs, None);
                },
            },
        };
        let port: u16 = match self.properties.get(&String::from_str("port")) {
            None => {
                let mut reqs: Vec<Request> = Vec::new();
                reqs.push(Request::GetProperty(String::from_str("port")));
                return (reqs, None);
            },
            Some(v) => match v {
                PropValue::Port(p) => *p,
                _ => {
                    let mut reqs: Vec<Request> = Vec::new();
                    reqs.push(
                        Request::Popup(
                            Popup::new(
                                PopupType::Warning,
                                String::from_str("Unexpected Type for port"),
                            ),
                        ),
                    );
                    return (reqs, None);
                },
            },
        };
        let binary: Vec<String> = match self.properties.get(&String::from_str("binary_path")) {
            None => {
                let mut reqs: Vec<Request> = Vec::new();
                reqs.push(Request::GetProperty(String::from_str("binary_path")));
                return (reqs, None);
            },
            Some(v) => match v {
                PropValue::Path(p) => clone_path(p),
                _ => {
                    let mut reqs: Vec<Request> = Vec::new();
                    reqs.push(
                        Request::Popup(
                            Popup::new(
                                PopupType::Warning,
                                String::from_str("Unexpected Type for binary_path"),
                            ),
                        ),
                    );
                    return (reqs, None);
                },
            },
        };
        self.status = String::from_str("Launching fuzzing engine");
        self.started = true;
        (Vec::new(), Some(Action::Launch { blob, port, binary }))
    }

    /// Apply the outcome of a performed action.
    pub fn handle_outcome(&mut self, out: Outcome) -> (r: (Vec<Request>, Option<Action>))
        ensures
            fuzzing_outcome_step(*old(self), out, *final(self), r.0@, r.1),
    {
        match out {
            Outcome::LaunchResult(e) => match e {
                Some(msg) => {
                    let mut reqs: Vec<Request> = Vec::new();
                    reqs.push(Request::Popup(Popup::new(PopupType::Warning, msg)));
                    (reqs, None)
                },
                None => (Vec::new(), None),
            },
            _ => (Vec::new(), None),
        }
    }

    /// Store a property the kernel delivered.
    pub fn send_property(&mut self, name: String, value: PropValue)
        ensures
            fuzzing_recv(*old(self), name@, value@, *final(self)),
    {
        self.properties.insert(name, value);
    }
}

} // verus!
