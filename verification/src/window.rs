//! The window contract: every modal screen in one closed variant set, with
//! the capability surface the kernel needs — a display name, input handling,
//! a render-phase poll, a capture-all-input predicate, outcome handling and a
//! property-receive callback.

use vstd::prelude::*;

use crate::action::{Action, Outcome};
use crate::app::Request;
use crate::config_window::{
    config_input_step, config_name_spec, config_outcome_step, config_poll_step, ConfigWindow,
};
use crate::fuzzing_window::{
    fuzzing_outcome_step, fuzzing_poll_step, fuzzing_recv, FuzzingWindow,
};
use crate::keys::Key;
use crate::main_window::{main_input_step, MainWindow};
use crate::project_window::{
    project_input_step, project_name_spec, project_outcome_step, ProjectWindow,
};
use crate::property::{PropValue, PropView};

verus! {

/// One modal screen. The stack exclusively owns one instance per slot.
pub enum Window {
    Project(ProjectWindow),
    Main(MainWindow),
    Config(ConfigWindow),
    Fuzzing(FuzzingWindow),
}

/// The screen's display name.
pub open spec fn window_name_spec(w: Window) -> Seq<char> {
    match w {
        Window::Project(p) => project_name_spec(p),
        Window::Main(_) => "Main Menu"@,
        Window::Config(c) => config_name_spec(c),
        Window::Fuzzing(_) => "Fuzzing"@,
    }
}

/// Whether the screen wants every key verbatim, bypassing the kernel's
/// reserved quit and back keys.
pub open spec fn window_capture_spec(w: Window) -> bool {
    match w {
        Window::Project(p) => !(p.state is SelectingAction),
        Window::Main(_) => false,
        Window::Config(c) => !(c.state is Main),
        Window::Fuzzing(_) => false,
    }
}

/// The input-transition relation of whichever screen is stepped.
pub open spec fn window_input_step(
    pre: Window,
    key: Key,
    post: Window,
    reqs: Seq<Request>,
    act: Option<Action>,
) -> bool {
    &&& crate::app::reqs_wf(reqs)
    &&& {
        match pre {
            Window::Project(p) => post matches Window::Project(p2) && project_input_step(
                p,
                key,
                p2,
                reqs,
                act,
            ),
            Window::Main(m) => post matches Window::Main(m2) && main_input_step(
                m,
                key,
                m2,
                reqs,
                act,
            ),
            Window::Config(c) => post matches Window::Config(c2) && config_input_step(
                c,
                key,
                c2,
                reqs,
                act,
            ),
            Window::Fuzzing(_) => post == pre && reqs.len() == 0 && act is None,
        }
    }
}

/// The render-phase relation: only the configuration screen (loading its
/// artifact) and the fuzzing screen (polling for its properties) emit
/// anything while rendering.
pub open spec fn window_poll_step(
    pre: Window,
    post: Window,
    reqs: Seq<Request>,
    act: Option<Action>,
) -> bool {
    &&& crate::app::reqs_wf(reqs)
    &&& {
        match pre {
            Window::Config(c) => post matches Window::Config(c2) && config_poll_step(
                c,
                c2,
                reqs,
                act,
            ),
            Window::Fuzzing(f) => post matches Window::Fuzzing(f2) && fuzzing_poll_step(
                f,
                f2,
                reqs,
                act,
            ),
            _ => post == pre && reqs.len() == 0 && act is None,
        }
    }
}

/// The outcome-application relation of whichever screen is stepped.
pub open spec fn window_outcome_step(
    pre: Window,
    out: Outcome,
    post: Window,
    reqs: Seq<Request>,
    act: Option<Action>,
) -> bool {
    &&& crate::app::reqs_wf(reqs)
    &&& {
        match pre {
            Window::Project(p) => post matches Window::Project(p2) && project_outcome_step(
                p,
                out,
                p2,
                reqs,
                act,
            ),
            Window::Config(c) => post matches Window::Config(c2) && config_outcome_step(
                c,
                out,
                c2,
                reqs,
                act,
            ),
            Window::Fuzzing(f) => post matches Window::Fuzzing(f2) && fuzzing_outcome_step(
                f,
                out,
                f2,
                reqs,
                act,
            ),
            _ => post == pre && reqs.len() == 0 && act is None,
        }
    }
}

/// The property-receive relation: only the fuzzing screen stores what it is
/// handed; every other screen ignores it.
pub open spec fn window_recv_step(
    pre: Window,
    name: Seq<char>,
    v: PropView,
    post: Window,
) -> bool {
    match pre {
        Window::Fuzzing(f) => post matches Window::Fuzzing(f2) && fuzzing_recv(f, name, v, f2),
        _ => post == pre,
    }
}

impl Window {
    pub open spec fn wf(self) -> bool {
        match self {
            Window::Project(p) => p.wf(),
            Window::Main(m) => m.wf(),
            Window::Config(c) => c.wf(),
            Window::Fuzzing(_) => true,
        }
    }

    pub fn name(&self) -> (r: &'static str)
        ensures
            r@ == window_name_spec(*self),
    {
        match self {
            Window::Project(p) => p.name(),
            Window::Main(_) => "Main Menu",
            Window::Config(c) => c.name(),
            Window::Fuzzing(_) => "Fuzzing",
        }
    }

    pub fn capture_all_input(&self) -> (r: bool)
        ensures
            r == window_capture_spec(*self),
    {
        match self {
            Window::Project(p) => p.capture_all_input(),
            Window::Main(_) => false,
            Window::Config(c) => c.capture_all_input(),
            Window::Fuzzing(_) => false,
        }
    }

    /// Route one key through the screen.
    pub fn handle_input(&mut self, key: Key) -> (r: (Vec<Request>, Option<Action>))
        requires
            old(self).wf(),
        ensures
            final(self).wf(),
            window_input_step(*old(self), key, *final(self), r.0@, r.1),
    {
        match self {
            Window::Project(p) => p.handle_input(key),
            Window::Main(m) => m.handle_input(key),
            Window::Config(c) => c.handle_input(key),
            Window::Fuzzing(_) => (Vec::new(), None),
        }
    }

    /// The render-phase step: whatever the screen emits while it is drawn.
    pub fn poll(&mut self) -> (r: (Vec<Request>, Option<Action>))
        requires
            old(self).wf(),
        ensures
            final(self).wf(),
            window_poll_step(*old(self), *final(self), r.0@, r.1),
    {
        match self {
            Window::Config(c) => c.poll(),
            Window::Fuzzing(f) => f.poll(),
            _ => (Vec::new(), None),
        }
    }

    /// Apply the outcome of a performed action.
    pub fn handle_outcome(&mut self, out: Outcome) -> (r: (Vec<Request>, Option<Action>))
        requires
            old(self).wf(),
        ensures
            final(self).wf(),
            window_outcome_step(*old(self), out, *final(self), r.0@, r.1),
    {
        match self {
            Window::Project(p) => p.handle_outcome(out),
            Window::Config(c) => c.handle_outcome(out),
            Window::Fuzzing(f) => f.handle_outcome(out),
            _ => (Vec::new(), None),
        }
    }

    /// The property-receive callback.
    pub fn send_property(&mut self, name: String, value: PropValue)
        requires
            old(self).wf(),
        ensures
            final(self).wf(),
            window_recv_step(*old(self), name@, value@, *final(self)),
    {
        match self {
            Window::Fuzzing(f) => f.send_property(name, value),
            _ => {},
        }
    }
}

} // verus!
