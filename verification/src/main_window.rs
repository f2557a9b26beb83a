//! The main menu screen: a fixed list of actions, two of which push other
//! screens onto the stack.

use vstd::prelude::*;
use vstd::string::StringExecFns;

use crate::action::Action;
use crate::app::Request;
use crate::config_window::{config_window_initial, ConfigWindow};
use crate::fuzzing_window::{fuzzing_window_initial, FuzzingWindow};
use crate::keys::Key;
use crate::window::Window;

verus! {

/// The menu's fixed options, in order.
pub open spec fn main_options_spec() -> Seq<Seq<char>> {
    seq!["Static analysis"@, "Fuzz !"@, "Config"@, "Quit"@]
}

/// The main menu: its options and the selected index.
pub struct MainWindow {
    pub options: Vec<String>,
    pub selected: usize,
}

pub open spec fn main_window_initial(w: MainWindow) -> bool {
    &&& w.wf()
    &&& w.selected == 0
}

/// The menu's transition relation: up/`k` and down/`j` move the selection
/// clamped to the list; enter on the configuration entry pushes a fresh
/// configuration screen, enter on the fuzz entry pushes a fresh fuzzing
/// screen; everything else changes nothing. The menu asks for no outside
/// work.
pub open spec fn main_input_step(
    pre: MainWindow,
    key: Key,
    post: MainWindow,
    reqs: Seq<Request>,
    act: Option<Action>,
) -> bool {
    &&& crate::app::reqs_wf(reqs)
    &&& {
        &&& act is None
        &&& post.options == pre.options
        &&& if key == Key::Up || key == Key::Char('k') {
            &&& post.selected == if pre.selected > 0 {
                pre.selected - 1
            } else {
                0int
            }
            &&& reqs.len() == 0
        } else if key == Key::Down || key == Key::Char('j') {
            &&& post.selected == if pre.selected + 1 < 4 {
                pre.selected + 1
            } else {
                pre.selected as int
            }
            &&& reqs.len() == 0
        } else if key == Key::Enter {
            &&& post.selected == pre.selected
            &&& if pre.selected == 2 {
                &&& reqs.len() == 1
                &&& reqs[0] matches Request::PushWindow(w) && w matches Window::Config(c)
                    && config_window_initial(c)
            } else if pre.selected == 1 {
                &&& reqs.len() == 1
                &&& reqs[0] matches Request::PushWindow(w) && w matches Window::Fuzzing(f)
                    && fuzzing_window_initial(f)
            } else {
                reqs.len() == 0
            }
        } else {
            post.selected == pre.selected && reqs.len() == 0
        }
    }
}

impl MainWindow {
    /// The options are the fixed four and the selection stays among them.
    pub open spec fn wf(self) -> bool {
        &&& self.options.deep_view() == main_options_spec()
        &&& self.selected < 4
    }

    pub fn new() -> (r: MainWindow)
        ensures
            main_window_initial(r),
    {
        let mut options: Vec<String> = Vec::new();
        options.push(String::from_str("Static analysis"));
        options.push(String::from_str("Fuzz !"));
        options.push(String::from_str("Config"));
        options.push(String::from_str("Quit"));
        proof {
            assert(options.deep_view() =~~= main_options_spec());
        }
        MainWindow { options, selected: 0 }
    }

    /// Route one key through the menu.
    pub fn handle_input(&mut self, key: Key) -> (r: (Vec<Request>, Option<Action>))
        requires
            old(self).wf(),
        ensures
            final(self).wf(),
            main_input_step(*old(self), key, *final(self), r.0@, r.1),
    {
        let up = key == Key::Up || key == Key::Char('k');
        let down = key == Key::Down || key == Key::Char('j');
        if up {
            if self.selected > 0 {
                self.selected = self.selected - 1;
            }
        } else if down {
            if self.selected + 1 < 4 {
                self.selected = self.selected + 1;
            }
        } else if key == Key::Enter {
            if self.selected == 2 {
                let mut reqs: Vec<Request> = Vec::new();
                reqs.push(Request::PushWindow(Window::Config(ConfigWindow::new())));
                return (reqs, None);
            }
            if self.selected == 1 {
                let mut reqs: Vec<Request> = Vec::new();
                reqs.push(Request::PushWindow(Window::Fuzzing(FuzzingWindow::new())));
                return (reqs, None);
            }
        }
        (Vec::new(), None)
    }
}

} // verus!
