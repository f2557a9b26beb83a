//! The project-setup screen: create a new project (pick a parent directory,
//! name the project, scaffold the fixed layout) or open an existing one
//! (pick a directory, validate the layout). On success the process's working
//! directory moves into the project and the main menu takes over.

use vstd::prelude::*;
use vstd::string::StringExecFns;

use crate::action::{Action, Outcome};
use crate::app::{is_info_popup, Request};
use crate::file_dialogue::{
    fd_empty, file_dialogue_step, sel_name, FileDialogue, FileDialogueResult,
};
use crate::input_dialogue::{input_dialogue_step, InputDialogue, InputDialogueResult};
use crate::keys::Key;
use crate::main_window::{main_window_initial, MainWindow};
use crate::popup::{Popup, PopupType};
use crate::project::{layout_complete, layout_error_message};
use crate::property::PropValue;
use crate::strutil::{clone_path, path_display, path_display_spec};
use crate::window::Window;

verus! {

/// The screen's fixed options, in order.
pub open spec fn project_options_spec() -> Seq<Seq<char>> {
    seq!["Create New Project"@, "Open Existing Project"@]
}

/// Which part of the project-setup flow is active.
pub enum ProjectWindowState {
    /// Choosing between create and open, with the selected index.
    SelectingAction(usize),
    /// Browsing for the new project's parent directory; once a directory is
    /// committed, the naming dialogue is present.
    BrowsingForCreate(Option<InputDialogue>),
    /// Browsing for an existing project directory.
    BrowsingForOpen,
    /// The project layout is being created on disk.
    AwaitingCreate(Vec<String>),
    /// The chosen directory's layout is being probed.
    AwaitingProbe(Vec<String>),
    /// The working directory is being moved into the project.
    AwaitingCwd { path: Vec<String>, from_open: bool },
}

/// The project-setup screen's state.
pub struct ProjectWindow {
    pub options: Vec<String>,
    pub state: ProjectWindowState,
    pub explorer: FileDialogue,
}

pub open spec fn project_window_initial(w: ProjectWindow) -> bool {
    &&& w.wf()
    &&& w.state matches ProjectWindowState::SelectingAction(s) && s == 0
    &&& fd_empty(w.explorer)
}

/// The naming dialogue inside the create flow: a committed name asks for the
/// fixed layout to be created under the selected directory joined with the
/// name; cancel returns to browsing.
pub open spec fn project_naming_step(
    pre: ProjectWindow,
    d: InputDialogue,
    key: Key,
    post: ProjectWindow,
    reqs: Seq<Request>,
    act: Option<Action>,
) -> bool {
    exists|d2: InputDialogue, res: InputDialogueResult|
        {
            &&& #[trigger] input_dialogue_step(d, key, d2, res)
            &&& post.explorer == pre.explorer
            &&& match res {
                InputDialogueResult::Continue => {
                    &&& post.state matches ProjectWindowState::BrowsingForCreate(n) && n matches
                        Some(d3) && d3 == d2
                    &&& reqs.len() == 0
                    &&& act is None
                },
                InputDialogueResult::Cancel => {
                    &&& post.state matches ProjectWindowState::BrowsingForCreate(n) && n is None
                    &&& reqs.len() == 0
                    &&& act is None
                },
                InputDialogueResult::Submit(name) => {
                    &&& post.state matches ProjectWindowState::AwaitingCreate(p) && p.deep_view()
                        == pre.explorer.cwd.deep_view().push(sel_name(pre.explorer)).push(name@)
                    &&& reqs.len() == 0
                    &&& act matches Some(Action::CreateProjectDirs(p2)) && p2.deep_view()
                        == pre.explorer.cwd.deep_view().push(sel_name(pre.explorer)).push(name@)
                },
            }
        }
}

/// Browsing in the create flow: committing a directory opens the naming
/// dialogue, committing a file only warns, cancel returns to the choice list,
/// navigation may ask for a fresh listing.
pub open spec fn project_browse_create_step(
    pre: ProjectWindow,
    key: Key,
    post: ProjectWindow,
    reqs: Seq<Request>,
    act: Option<Action>,
) -> bool {
    exists|e2: FileDialogue, res: FileDialogueResult, refresh: bool|
        {
            &&& #[trigger] file_dialogue_step(pre.explorer, key, e2, res, refresh)
            &&& post.explorer == e2
            &&& match res {
                FileDialogueResult::Continue => {
                    &&& post.state matches ProjectWindowState::BrowsingForCreate(n) && n is None
                    &&& reqs.len() == 0
                    &&& if refresh {
                        act matches Some(Action::ReadDir(p)) && p.deep_view()
                            == e2.cwd.deep_view()
                    } else {
                        act is None
                    }
                },
                FileDialogueResult::Select(_) => {
                    &&& act is None
                    &&& if pre.explorer.current_list@[pre.explorer.selected as int] is File {
                        &&& post.state matches ProjectWindowState::BrowsingForCreate(n)
                            && n is None
                        &&& is_info_popup(
                            reqs,
                            "Please select a directory for project operations."@,
                        )
                    } else {
                        &&& post.state matches ProjectWindowState::BrowsingForCreate(n)
                            && n matches Some(d) && d.title@ == "Create New Project"@ && d.prompt@
                            == "Enter project name:"@ && d.buf.chars@.len() == 0 && d.buf.cursor
                            == 0
                        &&& reqs.len() == 0
                    }
                },
                FileDialogueResult::Cancel => {
                    &&& post.state matches ProjectWindowState::SelectingAction(s) && s == 0
                    &&& reqs.len() == 0
                    &&& act is None
                },
            }
        }
}

/// Browsing in the open flow: committing a directory asks for its layout to
/// be probed, committing a file only warns, cancel returns to the choice
/// list.
pub open spec fn project_browse_open_step(
    pre: ProjectWindow,
    key: Key,
    post: ProjectWindow,
    reqs: Seq<Request>,
    act: Option<Action>,
) -> bool {
    exists|e2: FileDialogue, res: FileDialogueResult, refresh: bool|
        {
            &&& #[trigger] file_dialogue_step(pre.explorer, key, e2, res, refresh)
            &&& post.explorer == e2
            &&& match res {
                FileDialogueResult::Continue => {
                    &&& post.state is BrowsingForOpen
                    &&& reqs.len() == 0
                    &&& if refresh {
                        act matches Some(Action::ReadDir(p)) && p.deep_view()
                            == e2.cwd.deep_view()
                    } else {
                        act is None
                    }
                },
                FileDialogueResult::Select(p) => {
                    &&& if pre.explorer.current_list@[pre.explorer.selected as int] is File {
                        &&& post.state is BrowsingForOpen
                        &&& is_info_popup(
                            reqs,
                            "Please select a directory for project operations."@,
                        )
                        &&& act is None
                    } else {
                        &&& post.state matches ProjectWindowState::AwaitingProbe(p2)
                            && p2.deep_view() == p.deep_view()
                        &&& reqs.len() == 0
                        &&& act matches Some(Action::ProbeProjectLayout(p3)) && p3.deep_view()
                            == p.deep_view()
                    }
                },
                FileDialogueResult::Cancel => {
                    &&& post.state matches ProjectWindowState::SelectingAction(s) && s == 0
                    &&& reqs.len() == 0
                    &&& act is None
                },
            }
        }
}

/// The screen's whole input-transition relation, by active part. While an
/// action's outcome is awaited, input changes nothing.
pub open spec fn project_input_step(
    pre: ProjectWindow,
    key: Key,
    post: ProjectWindow,
    reqs: Seq<Request>,
    act: Option<Action>,
) -> bool {
    &&& crate::app::reqs_wf(reqs)
    &&& {
        &&& post.options == pre.options
        &&& match pre.state {
            ProjectWindowState::SelectingAction(sel) => {
                &&& post.explorer == pre.explorer
                &&& if key == Key::Up || key == Key::Char('k') {
                    &&& post.state matches ProjectWindowState::SelectingAction(s) && s == if sel > 0 {
                        sel - 1
                    } else {
                        0int
                    }
                    &&& reqs.len() == 0
                    &&& act is None
                } else if key == Key::Down || key == Key::Char('j') {
                    &&& post.state matches ProjectWindowState::SelectingAction(s) && s == if sel + 1
                        < 2 {
                        sel + 1
                    } else {
                        sel as int
                    }
                    &&& reqs.len() == 0
                    &&& act is None
                } else if key == Key::Enter {
                    &&& reqs.len() == 0
                    &&& act matches Some(Action::ReadDir(p)) && p.deep_view()
                        == pre.explorer.cwd.deep_view()
                    &&& if sel == 0 {
                        post.state matches ProjectWindowState::BrowsingForCreate(n) && n is None
                    } else {
                        post.state is BrowsingForOpen
                    }
                } else {
                    post == pre && reqs.len() == 0 && act is None
                }
            },
            ProjectWindowState::BrowsingForCreate(od) => match od {
                Some(d) => project_naming_step(pre, d, key, post, reqs, act),
                None => project_browse_create_step(pre, key, post, reqs, act),
            },
            ProjectWindowState::BrowsingForOpen => project_browse_open_step(
                pre,
                key,
                post,
                reqs,
                act,
            ),
            _ => post == pre && reqs.len() == 0 && act is None,
        }
    }
}

/// What an outcome does to the screen. A created layout moves on to changing
/// the working directory; a complete probed layout does the same, an
/// incomplete one warns naming the missing element; a moved working directory
/// hands the project over to the main menu with a success popup; any failure
/// warns and reverts to the step before it.
pub open spec fn project_outcome_step(
    pre: ProjectWindow,
    out: Outcome,
    post: ProjectWindow,
    reqs: Seq<Request>,
    act: Option<Action>,
) -> bool {
    &&& crate::app::reqs_wf(reqs)
    &&& {
        &&& post.options == pre.options
        &&& post.explorer == pre.explorer
        &&& match pre.state {
            ProjectWindowState::AwaitingCreate(path) => match out {
                Outcome::CreateResult(e) => match e {
                    None => {
                        &&& post.state matches ProjectWindowState::AwaitingCwd {
                            path: p2,
                            from_open,
                        } && p2 == path && !from_open
                        &&& reqs.len() == 0
                        &&& act matches Some(Action::SetCwd(p3)) && p3.deep_view()
                            == path.deep_view()
                    },
                    Some(err) => {
                        &&& post.state matches ProjectWindowState::BrowsingForCreate(n) && n is None
                        &&& reqs.len() == 1
                        &&& reqs[0] matches Request::Popup(p) && p.popup_type is Warning && p.message@
                            == "Failed to create project: "@ + err@
                        &&& act is None
                    },
                },
                _ => post == pre && reqs.len() == 0 && act is None,
            },
            ProjectWindowState::AwaitingProbe(path) => match out {
                Outcome::ProbeResult(layout) => if layout_complete(layout) {
                    &&& post.state matches ProjectWindowState::AwaitingCwd { path: p2, from_open }
                        && p2 == path && from_open
                    &&& reqs.len() == 0
                    &&& act matches Some(Action::SetCwd(p3)) && p3.deep_view() == path.deep_view()
                } else {
                    &&& post.state is BrowsingForOpen
                    &&& reqs.len() == 1
                    &&& reqs[0] matches Request::Popup(p) && p.popup_type is Warning && p.message@
                        == "Invalid project: "@ + layout_error_message(layout)
                    &&& act is None
                },
                _ => post == pre && reqs.len() == 0 && act is None,
            },
            ProjectWindowState::AwaitingCwd { path, from_open } => match out {
                Outcome::CwdResult(e) => match e {
                    None => {
                        &&& post.state matches ProjectWindowState::SelectingAction(s) && s == 0
                        &&& act is None
                        &&& reqs.len() == 4
                        &&& reqs[0] matches Request::PushProperty(n, v) && n@ == "project_name"@
                            && (v matches PropValue::Text(t) && t@ == path.deep_view().last())
                        &&& reqs[1] is PopWindow
                        &&& reqs[2] matches Request::PushWindow(w) && w matches Window::Main(m)
                            && main_window_initial(m)
                        &&& reqs[3] matches Request::Popup(p) && p.popup_type is Success && p.message@
                            == "Project opened successfully at: "@ + path_display_spec(
                            path.deep_view(),
                        )
                    },
                    Some(err) => {
                        &&& if from_open {
                            post.state is BrowsingForOpen
                        } else {
                            post.state matches ProjectWindowState::BrowsingForCreate(n) && n is None
                        }
                        &&& reqs.len() == 1
                        &&& reqs[0] matches Request::Popup(p) && p.popup_type is Warning && p.message@
                            == "Failed to set current directory: "@ + err@
                        &&& act is None
                    },
                },
                _ => post == pre && reqs.len() == 0 && act is None,
            },
            _ => post == pre && reqs.len() == 0 && act is None,
        }
    }
}

/// The screen's display name, by active part.
pub open spec fn project_name_spec(w: ProjectWindow) -> Seq<char> {
    match w.state {
        ProjectWindowState::SelectingAction(_) => "Project Setup"@,
        ProjectWindowState::BrowsingForCreate(n) => if n is Some {
            "Create Project - Enter project name"@
        } else {
            "Create Project - Select Directory"@
        },
        ProjectWindowState::BrowsingForOpen => "Open Project - Select Directory"@,
        _ => "Project Setup"@,
    }
}

impl ProjectWindow {
    pub open spec fn wf(self) -> bool {
        &&& self.options.deep_view() == project_options_spec()
        &&& self.explorer.wf()
        &&& match self.state {
            ProjectWindowState::SelectingAction(s) => s < 2,
            ProjectWindowState::BrowsingForCreate(n) => n matches Some(d) ==> d.wf(),
            ProjectWindowState::AwaitingCreate(p) => p@.len() >= 1,
            ProjectWindowState::AwaitingProbe(p) => p@.len() >= 1,
            ProjectWindowState::AwaitingCwd { path, .. } => path@.len() >= 1,
            _ => true,
        }
    }

    pub fn new() -> (r: ProjectWindow)
        ensures
            project_window_initial(r),
    {
        let mut options: Vec<String> = Vec::new();
        options.push(String::from_str("Create New Project"));
        options.push(String::from_str("Open Existing Project"));
        proof {
            assert(options.deep_view() =~~= project_options_spec());
        }
        ProjectWindow {
            options,
            state: ProjectWindowState::SelectingAction(0),
            explorer: FileDialogue::empty(),
        }
    }

    pub fn name(&self) -> (r: &'static str)
        ensures
            r@ == project_name_spec(*self),
    {
        match &self.state {
            ProjectWindowState::SelectingAction(_) => "Project Setup",
            ProjectWindowState::BrowsingForCreate(n) => if n.is_some() {
                "Create Project - Enter project name"
            } else {
                "Create Project - Select Directory"
            },
            ProjectWindowState::BrowsingForOpen => "Open Project - Select Directory",
            _ => "Project Setup",
        }
    }

    /// Whether the screen wants every key verbatim: everywhere but the choice
    /// list.
    pub fn capture_all_input(&self) -> (r: bool)
        ensures
            r == !(self.state is SelectingAction),
    {
        match &self.state {
            ProjectWindowState::SelectingAction(_) => false,
            _ => true,
        }
    }

    /// Route one key through the screen.
    pub fn handle_input(&mut self, key: Key) -> (r: (Vec<Request>, Option<Action>))
        requires
            old(self).wf(),
        ensures
            final(self).wf(),
            project_input_step(*old(self), key, *final(self), r.0@, r.1),
    {
        let mut st = ProjectWindowState::BrowsingForOpen;
        core::mem::swap(&mut st, &mut self.state);
        match st {
            ProjectWindowState::SelectingAction(sel) => {
                if key == Key::Up || key == Key::Char('k') {
                    self.state = ProjectWindowState::SelectingAction(
                        if sel > 0 {
                            sel - 1
                        } else {
                            0
                        },
                    );
                    (Vec::new(), None)
                } else if key == Key::Down || key == Key::Char('j') {
                    self.state = ProjectWindowState::SelectingAction(
                        if sel + 1 < 2 {
                            sel + 1
                        } else {
                            sel
                        },
                    );
                    (Vec::new(), None)
                } else if key == Key::Enter {
                    if sel == 0 {
                        self.state = ProjectWindowState::BrowsingForCreate(None);
                    } else {
                        self.state = ProjectWindowState::BrowsingForOpen;
                    }
                    (Vec::new(), Some(Action::ReadDir(clone_path(&self.explorer.cwd))))
                } else {
                    self.state = ProjectWindowState::SelectingAction(sel);
                    (Vec::new(), None)
                }
            },
            ProjectWindowState::BrowsingForCreate(od) => match od {
                Some(mut d) => {
                    let res = d.handle_input(key);
                    match res {
                        InputDialogueResult::Continue => {
                            self.state = ProjectWindowState::BrowsingForCreate(Some(d));
                            (Vec::new(), None)
                        },
                        InputDialogueResult::Cancel => {
                            self.state = ProjectWindowState::BrowsingForCreate(None);
                            (Vec::new(), None)
                        },
                        InputDialogueResult::Submit(name) => {
                            let mut path = self.explorer.get_selected();
                            path.push(name);
                            proof {
                                assert(path.deep_view() =~~= old(
                                    self,
                                ).explorer.cwd.deep_view().push(sel_name(old(self).explorer)).push(
                                    name@,
                                ));
                            }
                            let path2 = clone_path(&path);
                            self.state = ProjectWindowState::AwaitingCreate(path);
                            (Vec::new(), Some(Action::CreateProjectDirs(path2)))
                        },
                    }
                },
                None => {
                    let (res, refresh) = self.explorer.handle_input(key);
                    match res {
                        FileDialogueResult::Continue => {
                            self.state = ProjectWindowState::BrowsingForCreate(None);
                            let act = if refresh {
                                Some(Action::ReadDir(clone_path(&self.explorer.cwd)))
                            } else {
                                None
                            };
                            (Vec::new(), act)
                        },
                        FileDialogueResult::Select(_) => {
                            if self.explorer.selected_is_file() {
                                self.state = ProjectWindowState::BrowsingForCreate(None);
                                let mut reqs: Vec<Request> = Vec::new();
                                reqs.push(
                                    Request::Popup(
                                        Popup::new(
                                            PopupType::Info,
                                            String::from_str(
                                                "Please select a directory for project operations.",
                                            ),
                                        ),
                                    ),
                                );
                                (reqs, None)
                            } else {
                                self.state = ProjectWindowState::BrowsingForCreate(
                                    Some(
                                        InputDialogue::new(
                                            String::from_str("Create New Project"),
                                            String::from_str("Enter project name:"),
                                        ),
                                    ),
                                );
                                (Vec::new(), None)
                            }
                        },
                        FileDialogueResult::Cancel => {
                            self.state = ProjectWindowState::SelectingAction(0);
                            (Vec::new(), None)
                        },
                    }
                },
            },
            ProjectWindowState::BrowsingForOpen => {
                let (res, refresh) = self.explorer.handle_input(key);
                match res {
                    FileDialogueResult::Continue => {
                        self.state = ProjectWindowState::BrowsingForOpen;
                        let act = if refresh {
                            Some(Action::ReadDir(clone_path(&self.explorer.cwd)))
                        } else {
                            None
                        };
                        (Vec::new(), act)
                    },
                    FileDialogueResult::Select(p) => {
                        if self.explorer.selected_is_file() {
                            self.state = ProjectWindowState::BrowsingForOpen;
                            let mut reqs: Vec<Request> = Vec::new();
                            reqs.push(
                                Request::Popup(
                                    Popup::new(
                                        PopupType::Info,
                                        String::from_str(
                                            "Please select a directory for project operations.",
                                        ),
                                    ),
                                ),
                            );
                            (reqs, None)
                        } else {
                            let p2 = clone_path(&p);
                            proof {
                                assert(p@.len() == p.deep_view().len());
                            }
                            self.state = ProjectWindowState::AwaitingProbe(p);
                            (Vec::new(), Some(Action::ProbeProjectLayout(p2)))
                        }
                    },
                    FileDialogueResult::Cancel => {
                        self.state = ProjectWindowState::SelectingAction(0);
                        (Vec::new(), None)
                    },
                }
            },
            other => {
                self.state = other;
                (Vec::new(), None)
            },
        }
    }

    /// Apply the outcome of a performed action.
    pub fn handle_outcome(&mut self, out: Outcome) -> (r: (Vec<Request>, Option<Action>))
        requires
            old(self).wf(),
        ensures
            final(self).wf(),
            project_outcome_step(*old(self), out, *final(self), r.0@, r.1),
    {
        let mut st = ProjectWindowState::BrowsingForOpen;
        core::mem::swap(&mut st, &mut self.state);
        match st {
            ProjectWindowState::AwaitingCreate(path) => match out {
                Outcome::CreateResult(e) => match e {
                    None => {
                        let p3 = clone_path(&path);
                        self.state = ProjectWindowState::AwaitingCwd { path, from_open: false };
                        (Vec::new(), Some(Action::SetCwd(p3)))
                    },
                    Some(err) => {
                        self.state = ProjectWindowState::BrowsingForCreate(None);
                        let msg = String::from_str("Failed to create project: ").concat(
                            err.as_str(),
                        );
                        let mut reqs: Vec<Request> = Vec::new();
                        reqs.push(Request::Popup(Popup::new(PopupType::Warning, msg)));
                        (reqs, None)
                    },
                },
                _ => {
                    self.state = ProjectWindowState::AwaitingCreate(path);
                    (Vec::new(), None)
                },
            },
            ProjectWindowState::AwaitingProbe(path) => match out {
                Outcome::ProbeResult(layout) => {
                    match crate::project::validate_project_structure(&layout) {
                        Ok(_) => {
                            let p3 = clone_path(&path);
                            self.state = ProjectWindowState::AwaitingCwd {
                                path,
                                from_open: true,
                            };
                            (Vec::new(), Some(Action::SetCwd(p3)))
                        },
                        Err(m) => {
                            self.state = ProjectWindowState::BrowsingForOpen;
                            let msg = String::from_str("Invalid project: ").concat(m.as_str());
                            let mut reqs: Vec<Request> = Vec::new();
                            reqs.push(Request::Popup(Popup::new(PopupType::Warning, msg)));
                            (reqs, None)
                        },
                    }
                },
                _ => {
                    self.state = ProjectWindowState::AwaitingProbe(path);
                    (Vec::new(), None)
                },
            },
            ProjectWindowState::AwaitingCwd { path, from_open } => match out {
                Outcome::CwdResult(e) => match e {
                    None => {
                        let project_name = path[path.len() - 1].clone();
                        let shown = path_display(&path);
                        self.state = ProjectWindowState::SelectingAction(0);
                        let mut reqs: Vec<Request> = Vec::new();
                        reqs.push(
                            Request::PushProperty(
                                String::from_str("project_name"),
                                PropValue::Text(project_name),
                            ),
                        );
                        reqs.push(Request::PopWindow);
                        reqs.push(Request::PushWindow(Window::Main(MainWindow::new())));
                        let msg = String::from_str("Project opened successfully at: ").concat(
                            shown.as_str(),
                        );
                        reqs.push(Request::Popup(Popup::new(PopupType::Success, msg)));
                        (reqs, None)
                    },
                    Some(err) => {
                        if from_open {
                            self.state = ProjectWindowState::BrowsingForOpen;
                        } else {
                            self.state = ProjectWindowState::BrowsingForCreate(None);
                        }
                        let msg = String::from_str("Failed to set current directory: ").concat(
                            err.as_str(),
                        );
                        let mut reqs: Vec<Request> = Vec::new();
                        reqs.push(Request::Popup(Popup::new(PopupType::Warning, msg)));
                        (reqs, None)
                    },
                },
                _ => {
                    self.state = ProjectWindowState::AwaitingCwd { path, from_open };
                    (Vec::new(), None)
                },
            },
            other => {
                self.state = other;
                (Vec::new(), None)
            },
        }
    }
}

} // verus!
