//! The navigation kernel: it owns the window stack, the popup slot and the
//! property store; it routes one input event per cycle and applies the
//! requests the screens return.

use vstd::prelude::*;
use vstd::string::StringExecFns;

use crate::action::{Action, Outcome};
use crate::keys::Key;
use crate::popup::{Popup, PopupType};
use crate::project_window::{project_window_initial, ProjectWindow};
use crate::property::{clone_prop, PropValue, PropView, PropertyStore};
use crate::window::{window_input_step, window_outcome_step, window_poll_step, window_recv_step, Window};

verus! {

/// One kernel-level effect a screen asks for, consumed exactly once in
/// emission order.
pub enum Request {
    /// Show this popup, replacing any present one.
    Popup(Popup),
    /// Push this screen; it is active from the next cycle on.
    PushWindow(Window),
    /// Pop the active screen, unless it is the only one.
    PopWindow,
    /// Insert or overwrite a property.
    PushProperty(String, PropValue),
    /// Look a property up: delivered to the active screen if present,
    /// otherwise the active screen is popped and a warning shown.
    GetProperty(String),
}

/// The requests hold exactly one entry: a popup of this severity and message.
pub open spec fn is_popup(reqs: Seq<Request>, t: PopupType, msg: Seq<char>) -> bool {
    &&& reqs.len() == 1
    &&& reqs[0] matches Request::Popup(p) && p.popup_type == t && p.message@ == msg
}

pub open spec fn is_warning_popup(reqs: Seq<Request>, msg: Seq<char>) -> bool {
    is_popup(reqs, PopupType::Warning, msg)
}

pub open spec fn is_info_popup(reqs: Seq<Request>, msg: Seq<char>) -> bool {
    is_popup(reqs, PopupType::Info, msg)
}

/// The requests hold exactly one entry: a warning whose message starts with
/// the given prefix.
pub open spec fn is_warning_popup_prefixed(reqs: Seq<Request>, prefix: Seq<char>) -> bool {
    &&& reqs.len() == 1
    &&& reqs[0] matches Request::Popup(p) && p.popup_type is Warning && prefix.is_prefix_of(
        p.message@,
    )
}

/// The requests hold exactly one entry: a lookup of this property.
pub open spec fn is_get_property(reqs: Seq<Request>, name: Seq<char>) -> bool {
    &&& reqs.len() == 1
    &&& reqs[0] matches Request::GetProperty(s) && s@ == name
}

/// A request is well formed when any screen it pushes is.
pub open spec fn req_wf(req: Request) -> bool {
    match req {
        Request::PushWindow(w) => w.wf(),
        _ => true,
    }
}

/// Every request of the batch is well formed.
pub open spec fn reqs_wf(reqs: Seq<Request>) -> bool {
    forall|i: int| 0 <= i < reqs.len() ==> req_wf(#[trigger] reqs[i])
}

/// The kernel's state as mathematics: the stack of screens (last one active),
/// the property map, and the popup slot.
pub struct AppState {
    pub stack: Seq<Window>,
    pub props: Map<Seq<char>, PropView>,
    pub popup: Option<Popup>,
}

/// The message shown when a looked-up property is absent.
pub open spec fn missing_property_message(name: Seq<char>) -> Seq<char> {
    "The requested property was not found in the application state: "@ + name
}

/// How one request changes the kernel's state.
///
/// Showing a popup replaces any present one. Pushing always pushes. Popping
/// pops only while more than one screen is on the stack — it never empties
/// it. Setting a property inserts or overwrites. Looking a property up either
/// delivers the value to the active screen's property-receive callback
/// (present: nothing is popped, no popup appears, the store is untouched) or
/// pops the active screen and shows a warning naming the property (absent:
/// the store is untouched).
pub open spec fn request_step(pre: AppState, req: Request, post: AppState) -> bool {
    match req {
        Request::Popup(p) => post == AppState { popup: Some(p), ..pre },
        Request::PushWindow(w) => post == AppState { stack: pre.stack.push(w), ..pre },
        Request::PopWindow => post == AppState {
            stack: if pre.stack.len() > 1 {
                pre.stack.drop_last()
            } else {
                pre.stack
            },
            ..pre
        },
        Request::PushProperty(name, v) => post == AppState {
            props: pre.props.insert(name@, v@),
            ..pre
        },
        Request::GetProperty(name) => if pre.props.contains_key(name@) {
            if pre.stack.len() >= 1 {
                &&& post.props == pre.props
                &&& post.popup == pre.popup
                &&& post.stack.len() == pre.stack.len()
                &&& post.stack.drop_last() == pre.stack.drop_last()
                &&& window_recv_step(
                    pre.stack.last(),
                    name@,
                    pre.props[name@],
                    post.stack.last(),
                )
            } else {
                post == pre
            }
        } else {
            &&& post.props == pre.props
            &&& post.stack == if pre.stack.len() >= 1 {
                pre.stack.drop_last()
            } else {
                pre.stack
            }
            &&& post.popup matches Some(p) && p.popup_type is Warning && p.message@
                == missing_property_message(name@)
        },
    }
}

/// How a batch of requests changes the kernel's state: each applied in
/// emission order.
pub open spec fn requests_steps(pre: AppState, reqs: Seq<Request>, post: AppState) -> bool
    decreases reqs.len(),
{
    if reqs.len() == 0 {
        post == pre
    } else {
        exists|mid: AppState|
            #[trigger] request_step(pre, reqs[0], mid) && requests_steps(
                mid,
                reqs.drop_first(),
                post,
            )
    }
}

/// Appending one more request to a batch composes the steps.
proof fn lemma_requests_steps_snoc(pre: AppState, reqs: Seq<Request>, mid: AppState, req: Request, post: AppState)
    requires
        requests_steps(pre, reqs, mid),
        request_step(mid, req, post),
    ensures
        requests_steps(pre, reqs.push(req), post),
    decreases reqs.len(),
{
    if reqs.len() == 0 {
        assert(reqs.push(req).drop_first() =~= Seq::<Request>::empty());
        assert(requests_steps(post, reqs.push(req).drop_first(), post));
        assert(request_step(pre, reqs.push(req)[0], post));
    } else {
        let m1 = choose|m1: AppState|
            #[trigger] request_step(pre, reqs[0], m1) && requests_steps(m1, reqs.drop_first(), mid);
        lemma_requests_steps_snoc(m1, reqs.drop_first(), mid, req, post);
        assert(reqs.push(req).drop_first() =~= reqs.drop_first().push(req));
        assert(requests_steps(m1, reqs.push(req).drop_first(), post));
        assert(request_step(pre, reqs.push(req)[0], m1));
    }
}

/// While the kernel runs, the stack never empties under screen-pushing and
/// screen-popping requests: pushing only grows it, and popping is a no-op on
/// a stack of one. So any batch made of those two requests alone keeps the
/// stack's length at least one.
pub proof fn lemma_stack_stays_nonempty(pre: AppState, reqs: Seq<Request>, post: AppState)
    requires
        pre.stack.len() >= 1,
        requests_steps(pre, reqs, post),
        forall|i: int|
            0 <= i < reqs.len() ==> (#[trigger] reqs[i]) is PushWindow || reqs[i] is PopWindow,
    ensures
        post.stack.len() >= 1,
    decreases reqs.len(),
{
    if reqs.len() > 0 {
        let mid = choose|mid: AppState|
            #[trigger] request_step(pre, reqs[0], mid) && requests_steps(
                mid,
                reqs.drop_first(),
                post,
            );
        assert(reqs[0] is PushWindow || reqs[0] is PopWindow);
        assert(mid.stack.len() >= 1);
        assert(forall|i: int|
            0 <= i < reqs.drop_first().len() ==> (#[trigger] reqs.drop_first()[i]) is PushWindow
                || reqs.drop_first()[i] is PopWindow);
        lemma_stack_stays_nonempty(mid, reqs.drop_first(), post);
    }
}

/// The kernel: the window stack (the last element is the active screen), the
/// property store, and at most one popup.
pub struct App {
    pub window_stack: Vec<Window>,
    pub properties: PropertyStore,
    pub popup: Option<Popup>,
}

impl View for App {
    type V = AppState;

    open spec fn view(&self) -> AppState {
        AppState { stack: self.window_stack@, props: self.properties@, popup: self.popup }
    }
}

impl App {
    /// Every screen on the stack is well formed.
    pub open spec fn wf(self) -> bool {
        forall|i: int|
            0 <= i < self.window_stack@.len() ==> (#[trigger] self.window_stack@[i]).wf()
    }

    /// A fresh kernel: the project-setup screen alone on the stack, the store
    /// seeded with the default port, no popup.
    pub fn new() -> (r: App)
        ensures
            r.wf(),
            r@.stack.len() == 1,
            r@.stack[0] matches Window::Project(p) && project_window_initial(p),
            r@.props == Map::<Seq<char>, PropView>::empty().insert(
                "port"@,
                PropView::Port(1337),
            ),
            r@.popup is None,
    {
        let mut window_stack: Vec<Window> = Vec::new();
        window_stack.push(Window::Project(ProjectWindow::new()));
        let mut properties = PropertyStore::new();
        properties.insert(String::from_str("port"), PropValue::Port(1337));
        App { window_stack, properties, popup: None }
    }

    /// Apply one request.
    pub fn handle_request(&mut self, req: Request)
        requires
            old(self).wf(),
            req_wf(req),
        ensures
            final(self).wf(),
            request_step(old(self)@, req, final(self)@),
    {
        match req {
            Request::Popup(p) => {
                self.popup = Some(p);
            },
            Request::PushWindow(w) => {
                self.window_stack.push(w);
            },
            Request::PopWindow => {
                if self.window_stack.len() > 1 {
                    self.window_stack.pop();
                }
            },
            Request::PushProperty(name, v) => {
                self.properties.insert(name, v);
            },
            Request::GetProperty(name) => {
                let looked_up: Option<PropValue> = match self.properties.get(&name) {
                    Some(v) => Some(clone_prop(v)),
                    None => None,
                };
                match looked_up {
                    Some(value) => {
                        if self.window_stack.len() >= 1 {
                            let mut w = match self.window_stack.pop() {
                                Some(w) => w,
                                None => unreached(),
                            };
                            w.send_property(name, value);
                            self.window_stack.push(w);
                            proof {
                                assert(self.window_stack@.drop_last() =~= old(
                                    self,
                                ).window_stack@.drop_last());
                            }
                        }
                    },
                    None => {
                        if self.window_stack.len() >= 1 {
                            self.window_stack.pop();
                        }
                        let msg = String::from_str(
                            "The requested property was not found in the application state: ",
                        ).concat(name.as_str());
                        self.popup = Some(Popup::new(PopupType::Warning, msg));
                    },
                }
            },
        }
    }

    /// Apply a batch of requests in emission order.
    pub fn handle_requests(&mut self, reqs: Vec<Request>)
        requires
            old(self).wf(),
            reqs_wf(reqs@),
        ensures
            final(self).wf(),
            requests_steps(old(self)@, reqs@, final(self)@),
    {
        let ghost all = reqs@;
        let ghost pre = self@;
        let mut rest = reqs;
        proof {
            assert(all.take(0) =~= Seq::<Request>::empty());
            assert(rest@ =~= all.skip(0));
        }
        while rest.len() > 0
            invariant
                self.wf(),
                reqs_wf(all),
                rest@.len() <= all.len(),
                rest@ == all.skip(all.len() - rest@.len()),
                requests_steps(pre, all.take(all.len() - rest@.len()), self@),
            decreases rest@.len(),
        {
            let ghost mid = self@;
            let ghost k = all.len() - rest@.len();
            let req = rest.remove(0);
            proof {
                assert(all.skip(k)[0] == all[k]);
                assert(req_wf(all[k]));
            }
            self.handle_request(req);
            proof {
                lemma_requests_steps_snoc(pre, all.take(k), mid, req, self@);
                assert(all.take(k).push(all[k]) =~= all.take(k + 1));
                assert(rest@ =~= all.skip(all.len() - rest@.len()));
            }
        }
        proof {
            assert(all.take(all.len() as int) =~= all);
        }
    }

    /// Route one input event and apply everything it causes, and say whether
    /// the program goes on.
    ///
    /// If a popup is present, the event is consumed to dismiss it and nothing
    /// else changes: the event is not forwarded to the screen below this
    /// cycle. Otherwise, unless the active screen captures all input, the two
    /// reserved keys are intercepted: quit ends the program unconditionally,
    /// and back pops one screen, ending the program when none is left. Any
    /// other event is forwarded to the active screen, whose requests are then
    /// applied in order; outside work the screen asked for is handed back to
    /// the caller.
    pub fn handle_input(&mut self, key: Key) -> (r: (bool, Option<Action>))
        requires
            old(self).wf(),
        ensures
            final(self).wf(),
            app_input_step(old(self)@, key, final(self)@, r.0, r.1),
    {
        if self.popup.is_some() {
            self.popup = None;
            return (true, None);
        }
        let cap = match self.window_stack.last() {
            Some(w) => w.capture_all_input(),
            None => false,
        };
        if !cap {
            if key == Key::Char('q') {
                return (false, None);
            }
            if key == Key::Char('b') {
                self.window_stack.pop();
                return (self.window_stack.len() >= 1, None);
            }
        }
        if self.window_stack.len() == 0 {
            return (true, None);
        }
        let mut w = match self.window_stack.pop() {
            Some(w) => w,
            None => unreached(),
        };
        let ghost pre_w = w;
        let (reqs, act) = w.handle_input(key);
        self.window_stack.push(w);
        let ghost mid = self@;
        let ghost reqs_view = reqs@;
        self.handle_requests(reqs);
        proof {
            assert(mid.stack =~= old(self)@.stack.drop_last().push(mid.stack.last()));
            assert(window_input_step(old(self)@.stack.last(), key, mid.stack.last(), reqs_view, act)
                && requests_steps(mid, reqs_view, self@));
        }
        (true, act)
    }

    /// The render-phase step: let the active screen emit requests while it is
    /// drawn (the polling pattern), and apply them.
    pub fn tick(&mut self) -> (r: Option<Action>)
        requires
            old(self).wf(),
        ensures
            final(self).wf(),
            app_tick_step(old(self)@, final(self)@, r),
    {
        if self.window_stack.len() == 0 {
            return None;
        }
        let mut w = match self.window_stack.pop() {
            Some(w) => w,
            None => unreached(),
        };
        let (reqs, act) = w.poll();
        self.window_stack.push(w);
        let ghost mid = self@;
        let ghost reqs_view = reqs@;
        self.handle_requests(reqs);
        proof {
            assert(mid.stack =~= old(self)@.stack.drop_last().push(mid.stack.last()));
            assert(window_poll_step(old(self)@.stack.last(), mid.stack.last(), reqs_view, act)
                && requests_steps(mid, reqs_view, self@));
        }
        act
    }

    /// Deliver the outcome of a performed action to the active screen and
    /// apply what it answers.
    pub fn handle_outcome(&mut self, out: Outcome) -> (r: Option<Action>)
        requires
            old(self).wf(),
        ensures
            final(self).wf(),
            app_outcome_step(old(self)@, out, final(self)@, r),
    {
        if self.window_stack.len() == 0 {
            return None;
        }
        let mut w = match self.window_stack.pop() {
            Some(w) => w,
            None => unreached(),
        };
        let (reqs, act) = w.handle_outcome(out);
        self.window_stack.push(w);
        let ghost mid = self@;
        let ghost reqs_view = reqs@;
        self.handle_requests(reqs);
        proof {
            assert(mid.stack =~= old(self)@.stack.drop_last().push(mid.stack.last()));
            assert(window_outcome_step(old(self)@.stack.last(), out, mid.stack.last(), reqs_view, act)
                && requests_steps(mid, reqs_view, self@));
        }
        act
    }
}

/// The active screen is stepped by `step` and the requests it emitted are
/// then applied in order.
pub open spec fn app_forwarded(
    pre: AppState,
    post: AppState,
    mid_window: Window,
    reqs: Seq<Request>,
) -> bool {
    requests_steps(
        AppState { stack: pre.stack.drop_last().push(mid_window), ..pre },
        reqs,
        post,
    )
}

/// The kernel's whole input-transition relation; `cont` is whether the
/// program goes on.
pub open spec fn app_input_step(
    pre: AppState,
    key: Key,
    post: AppState,
    cont: bool,
    act: Option<Action>,
) -> bool {
    if pre.popup is Some {
        &&& post == AppState { popup: None, ..pre }
        &&& cont
        &&& act is None
    } else {
        let cap = pre.stack.len() >= 1 && crate::window::window_capture_spec(pre.stack.last());
        if !cap && key == Key::Char('q') {
            post == pre && !cont && act is None
        } else if !cap && key == Key::Char('b') {
            &&& post == AppState {
                stack: if pre.stack.len() >= 1 {
                    pre.stack.drop_last()
                } else {
                    pre.stack
                },
                ..pre
            }
            &&& cont == (pre.stack.len() >= 2)
            &&& act is None
        } else if pre.stack.len() == 0 {
            post == pre && cont && act is None
        } else {
            &&& cont
            &&& exists|mw: Window, reqs: Seq<Request>|
                #[trigger] window_input_step(pre.stack.last(), key, mw, reqs, act)
                    && app_forwarded(pre, post, mw, reqs)
        }
    }
}

/// The kernel's render-phase relation: the active screen's poll step followed
/// by its requests.
pub open spec fn app_tick_step(
    pre: AppState,
    post: AppState,
    act: Option<Action>,
) -> bool {
    if pre.stack.len() == 0 {
        post == pre && act is None
    } else {
        exists|mw: Window, reqs: Seq<Request>|
            #[trigger] window_poll_step(pre.stack.last(), mw, reqs, act) && app_forwarded(
                pre,
                post,
                mw,
                reqs,
            )
    }
}

/// The kernel's outcome-delivery relation: the active screen's outcome step
/// followed by its requests.
pub open spec fn app_outcome_step(
    pre: AppState,
    out: Outcome,
    post: AppState,
    act: Option<Action>,
) -> bool {
    if pre.stack.len() == 0 {
        post == pre && act is None
    } else {
        exists|mw: Window, reqs: Seq<Request>|
            #[trigger] window_outcome_step(pre.stack.last(), out, mw, reqs, act) && app_forwarded(
                pre,
                post,
                mw,
                reqs,
            )
    }
}

} // verus!
