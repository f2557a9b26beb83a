//! The configuration screen: edits and validates the structured-text
//! configuration artifact, and offers sub-flows to pick a target binary and
//! set a port, both stored as properties.

use vstd::prelude::*;
use vstd::string::StringExecFns;

use crate::action::{Action, Outcome};
use crate::app::{is_warning_popup, is_warning_popup_prefixed, Request};
use crate::file_dialogue::{fd_empty, file_dialogue_step, FileDialogue, FileDialogueResult};
use crate::input_dialogue::{input_dialogue_step, InputDialogue, InputDialogueResult};
use crate::json::{json_well_formed, validate_json};
use crate::keys::Key;
use crate::popup::{Popup, PopupType};
use crate::port::{all_digits, digits_val, parse_port};
use crate::property::PropValue;
use crate::strutil::{chars_of_str, clone_path, string_from_chars};
use crate::text::TextBuffer;

verus! {

/// The configuration menu's fixed options, in order.
pub open spec fn config_options_spec() -> Seq<Seq<char>> {
    seq!["From script"@, "Manual configuration"@, "Select Binary"@, "Set Port"@, "Done"@]
}

/// Which part of the configuration screen is active.
pub enum ConfigWindowState {
    /// The menu, with the selected index.
    Main(usize),
    /// Editing the configuration text directly.
    ManualConfig,
    /// Browsing for a script (its choice is not used further).
    FromScript(FileDialogue),
    /// Browsing for the target binary.
    SelectBinary(FileDialogue),
    /// Typing a port number.
    SetPort(InputDialogue),
    /// The validated text has been handed out to be written.
    AwaitingSave(String),
}

/// The configuration screen's state.
pub struct ConfigWindow {
    pub state: ConfigWindowState,
    pub config_file: Option<String>,
    pub config_tx: TextBuffer,
    pub config_valid: bool,
    pub loaded: bool,
    pub options: Vec<String>,
}

pub open spec fn config_window_initial(c: ConfigWindow) -> bool {
    &&& c.wf()
    &&& c.state matches ConfigWindowState::Main(s) && s == 0
    &&& c.config_file matches Some(f) && f@ == "./config.json"@
    &&& c.config_tx.chars@ == "Configuration not read yet!"@
    &&& !c.loaded
    &&& !c.config_valid
}

/// The fields no input event touches.
pub open spec fn config_core_same(pre: ConfigWindow, post: ConfigWindow) -> bool {
    &&& post.options == pre.options
    &&& post.config_file == pre.config_file
    &&& post.loaded == pre.loaded
}

/// The configuration text and its validity flag are untouched.
pub open spec fn config_tx_same(pre: ConfigWindow, post: ConfigWindow) -> bool {
    &&& post.config_tx == pre.config_tx
    &&& post.config_valid == pre.config_valid
}

/// The screen is back at the menu with the given selection.
pub open spec fn config_in_main(post: ConfigWindow, sel: int) -> bool {
    post.state matches ConfigWindowState::Main(s) && s == sel
}

/// A string's view, the empty sequence when absent.
pub open spec fn opt_string_view(o: Option<String>) -> Seq<char> {
    match o {
        Some(f) => f@,
        None => Seq::empty(),
    }
}

/// The "Done" entry: with well-formed text and a known artifact path the text
/// is handed out to be written and the screen waits for the outcome; invalid
/// text or a missing path surfaces as a warning and nothing is written.
pub open spec fn config_done_step(
    pre: ConfigWindow,
    post: ConfigWindow,
    reqs: Seq<Request>,
    act: Option<Action>,
) -> bool {
    if json_well_formed(pre.config_tx.chars@) {
        match pre.config_file {
            Some(f) => {
                &&& config_tx_same(pre, post)
                &&& post.state matches ConfigWindowState::AwaitingSave(t) && t@
                    == pre.config_tx.chars@
                &&& reqs.len() == 0
                &&& act matches Some(Action::WriteConfig { path, text }) && path@ == f@ && text@
                    == pre.config_tx.chars@
            },
            None => {
                &&& post == pre
                &&& is_warning_popup(reqs, "Config file not set:"@)
                &&& act is None
            },
        }
    } else {
        &&& post == pre
        &&& is_warning_popup_prefixed(reqs, "Invalid JSON configuration: "@)
        &&& act is None
    }
}

/// The menu: up/`j` and down/`k` move the selection clamped to the list;
/// enter opens the selected sub-flow (the browsing flows ask for a directory
/// listing), or runs the "Done" step.
pub open spec fn config_main_step(
    pre: ConfigWindow,
    sel: int,
    key: Key,
    post: ConfigWindow,
    reqs: Seq<Request>,
    act: Option<Action>,
) -> bool {
    if key == Key::Up || key == Key::Char('j') {
        &&& config_tx_same(pre, post)
        &&& config_in_main(post, if sel > 0 { sel - 1 } else { 0 })
        &&& reqs.len() == 0
        &&& act is None
    } else if key == Key::Down || key == Key::Char('k') {
        &&& config_tx_same(pre, post)
        &&& config_in_main(post, if sel + 1 < 5 { sel + 1 } else { sel })
        &&& reqs.len() == 0
        &&& act is None
    } else if key == Key::Enter {
        if sel == 0 {
            &&& config_tx_same(pre, post)
            &&& post.state matches ConfigWindowState::FromScript(d) && fd_empty(d)
            &&& reqs.len() == 0
            &&& act matches Some(Action::ReadDir(p)) && p@.len() == 0
        } else if sel == 1 {
            &&& config_tx_same(pre, post)
            &&& post.state is ManualConfig
            &&& reqs.len() == 0
            &&& act is None
        } else if sel == 2 {
            &&& config_tx_same(pre, post)
            &&& post.state matches ConfigWindowState::SelectBinary(d) && fd_empty(d)
            &&& reqs.len() == 0
            &&& act matches Some(Action::ReadDir(p)) && p@.len() == 0
        } else if sel == 3 {
            &&& config_tx_same(pre, post)
            &&& post.state matches ConfigWindowState::SetPort(d) && d.title@ == "Set Port"@
                && d.prompt@ == "Enter the port number:"@ && d.buf.chars@.len() == 0
                && d.buf.cursor == 0
            &&& reqs.len() == 0
            &&& act is None
        } else if sel == 4 {
            config_done_step(pre, post, reqs, act)
        } else {
            post == pre && reqs.len() == 0 && act is None
        }
    } else {
        post == pre && reqs.len() == 0 && act is None
    }
}

/// Manual editing: escape returns to the menu; characters, enter (a line
/// break), backspace and the arrow keys edit the buffer as in the text-entry
/// dialogue. After every event the validity flag reflects the buffer.
pub open spec fn config_manual_step(
    pre: ConfigWindow,
    key: Key,
    post: ConfigWindow,
    reqs: Seq<Request>,
    act: Option<Action>,
) -> bool {
    &&& reqs.len() == 0
    &&& act is None
    &&& post.config_valid == json_well_formed(post.config_tx.chars@)
    &&& if key == Key::Esc {
        &&& post.config_tx.chars@ == pre.config_tx.chars@
        &&& post.config_tx.cursor == pre.config_tx.cursor
        &&& config_in_main(post, 0)
    } else {
        &&& post.state is ManualConfig
        &&& match key {
            Key::Char(c) => post.config_tx.chars@ == pre.config_tx.chars@.insert(
                pre.config_tx.cursor as int,
                c,
            ) && post.config_tx.cursor == pre.config_tx.cursor + 1,
            Key::Enter => post.config_tx.chars@ == pre.config_tx.chars@.insert(
                pre.config_tx.cursor as int,
                '\n',
            ) && post.config_tx.cursor == pre.config_tx.cursor + 1,
            Key::Backspace => if pre.config_tx.cursor == 0 {
                post.config_tx == pre.config_tx
            } else {
                post.config_tx.chars@ == pre.config_tx.chars@.remove(pre.config_tx.cursor - 1)
                    && post.config_tx.cursor == pre.config_tx.cursor - 1
            },
            Key::Left => post.config_tx.chars@ == pre.config_tx.chars@ && post.config_tx.cursor
                == if pre.config_tx.cursor > 0 {
                (pre.config_tx.cursor - 1) as usize
            } else {
                0usize
            },
            Key::Right => post.config_tx.chars@ == pre.config_tx.chars@ && post.config_tx.cursor
                == if pre.config_tx.cursor < pre.config_tx.chars@.len() {
                (pre.config_tx.cursor + 1) as usize
            } else {
                pre.config_tx.cursor
            },
            _ => post.config_tx == pre.config_tx,
        }
    }
}

/// Browsing for a script: the embedded dialogue handles the key; a committed
/// or cancelled choice returns to the menu (the chosen path is not used), and
/// navigation may ask for a fresh listing of the dialogue's directory.
pub open spec fn config_from_script_step(
    pre: ConfigWindow,
    d: FileDialogue,
    key: Key,
    post: ConfigWindow,
    reqs: Seq<Request>,
    act: Option<Action>,
) -> bool {
    exists|d2: FileDialogue, res: FileDialogueResult, refresh: bool|
        {
            &&& #[trigger] file_dialogue_step(d, key, d2, res, refresh)
            &&& config_tx_same(pre, post)
            &&& match res {
                FileDialogueResult::Continue => {
                    &&& post.state matches ConfigWindowState::FromScript(d3) && d3 == d2
                    &&& reqs.len() == 0
                    &&& if refresh {
                        act matches Some(Action::ReadDir(p)) && p.deep_view()
                            == d2.cwd.deep_view()
                    } else {
                        act is None
                    }
                },
                FileDialogueResult::Select(_) => config_in_main(post, 0) && reqs.len() == 0
                    && act is None,
                FileDialogueResult::Cancel => config_in_main(post, 0) && reqs.len() == 0
                    && act is None,
            }
        }
}

/// Browsing for the target binary: a committed choice stores its full path as
/// the binary-path property and returns to the menu.
pub open spec fn config_select_binary_step(
    pre: ConfigWindow,
    d: FileDialogue,
    key: Key,
    post: ConfigWindow,
    reqs: Seq<Request>,
    act: Option<Action>,
) -> bool {
    exists|d2: FileDialogue, res: FileDialogueResult, refresh: bool|
        {
            &&& #[trigger] file_dialogue_step(d, key, d2, res, refresh)
            &&& config_tx_same(pre, post)
            &&& match res {
                FileDialogueResult::Continue => {
                    &&& post.state matches ConfigWindowState::SelectBinary(d3) && d3 == d2
                    &&& reqs.len() == 0
                    &&& if refresh {
                        act matches Some(Action::ReadDir(p)) && p.deep_view()
                            == d2.cwd.deep_view()
                    } else {
                        act is None
                    }
                },
                FileDialogueResult::Select(p) => {
                    &&& config_in_main(post, 0)
                    &&& reqs.len() == 1
                    &&& reqs[0] matches Request::PushProperty(n, v) && n@ == "binary_path"@
                        && (v matches PropValue::Path(pp) && pp.deep_view() == p.deep_view())
                    &&& act is None
                },
                FileDialogueResult::Cancel => config_in_main(post, 0) && reqs.len() == 0
                    && act is None,
            }
        }
}

/// Typing a port: a committed entry that reads as a port number stores it as
/// the port property; anything else is rejected with a warning. Either way
/// the screen returns to the menu.
pub open spec fn config_set_port_step(
    pre: ConfigWindow,
    d: InputDialogue,
    key: Key,
    post: ConfigWindow,
    reqs: Seq<Request>,
    act: Option<Action>,
) -> bool {
    exists|d2: InputDialogue, res: InputDialogueResult|
        {
            &&& #[trigger] input_dialogue_step(d, key, d2, res)
            &&& config_tx_same(pre, post)
            &&& act is None
            &&& match res {
                InputDialogueResult::Continue => {
                    &&& post.state matches ConfigWindowState::SetPort(d3) && d3 == d2
                    &&& reqs.len() == 0
                },
                InputDialogueResult::Cancel => config_in_main(post, 0) && reqs.len() == 0,
                InputDialogueResult::Submit(s) => {
                    &&& config_in_main(post, 0)
                    &&& if s@.len() > 0 && all_digits(s@) && digits_val(s@) <= u16::MAX {
                        &&& reqs.len() == 1
                        &&& reqs[0] matches Request::PushProperty(n, v) && n@ == "port"@
                            && (v matches PropValue::Port(pn) && pn == digits_val(s@))
                    } else {
                        is_warning_popup(reqs, "Invalid port number"@)
                    }
                },
            }
        }
}

/// The screen's whole input-transition relation, by active part.
pub open spec fn config_input_step(
    pre: ConfigWindow,
    key: Key,
    post: ConfigWindow,
    reqs: Seq<Request>,
    act: Option<Action>,
) -> bool {
    &&& crate::app::reqs_wf(reqs)
    &&& {
        &&& config_core_same(pre, post)
        &&& match pre.state {
            ConfigWindowState::Main(sel) => config_main_step(pre, sel as int, key, post, reqs, act),
            ConfigWindowState::ManualConfig => config_manual_step(pre, key, post, reqs, act),
            ConfigWindowState::FromScript(d) => config_from_script_step(pre, d, key, post, reqs, act),
            ConfigWindowState::SelectBinary(d) => config_select_binary_step(
                pre,
                d,
                key,
                post,
                reqs,
                act,
            ),
            ConfigWindowState::SetPort(d) => config_set_port_step(pre, d, key, post, reqs, act),
            ConfigWindowState::AwaitingSave(_) => post == pre && reqs.len() == 0 && act is None,
        }
    }
}

/// The render-phase poll: until the artifact has been read once, ask for it.
pub open spec fn config_poll_step(
    pre: ConfigWindow,
    post: ConfigWindow,
    reqs: Seq<Request>,
    act: Option<Action>,
) -> bool {
    &&& crate::app::reqs_wf(reqs)
    &&& {
        &&& post == pre
        &&& reqs.len() == 0
        &&& if pre.loaded {
            act is None
        } else {
            act matches Some(Action::ReadConfig)
        }
    }
}

/// What an outcome does to the screen: the artifact's text (or the read
/// error) becomes the buffer; a finished write surfaces as a popup, stores
/// the blob property and leaves the screen; a failed write surfaces as a
/// warning.
pub open spec fn config_outcome_step(
    pre: ConfigWindow,
    out: Outcome,
    post: ConfigWindow,
    reqs: Seq<Request>,
    act: Option<Action>,
) -> bool {
    &&& crate::app::reqs_wf(reqs)
    &&& {
        match out {
            Outcome::ConfigText(res) => {
                &&& post.options == pre.options
                &&& post.config_file == pre.config_file
                &&& post.state == pre.state
                &&& post.loaded
                &&& post.config_tx.chars@ == match res {
                    Ok(s) => s@,
                    Err(e) => "Error reading config file: "@ + e@,
                }
                &&& post.config_valid == json_well_formed(post.config_tx.chars@)
                &&& post.config_tx.wf()
                &&& reqs.len() == 0
                &&& act is None
            },
            Outcome::WriteResult(e) => match pre.state {
                ConfigWindowState::AwaitingSave(text) => {
                    &&& config_core_same(pre, post)
                    &&& config_tx_same(pre, post)
                    &&& config_in_main(post, 0)
                    &&& act is None
                    &&& match e {
                        None => {
                            &&& reqs.len() == 3
                            &&& reqs[0] matches Request::Popup(p) && p.popup_type is Info
                                && p.message@ == "Configuration saved to "@ + opt_string_view(
                                pre.config_file,
                            )
                            &&& reqs[1] matches Request::PushProperty(n, v) && n@ == "emu_opts"@
                                && (v matches PropValue::Blob(b) && b@ == text@)
                            &&& reqs[2] is PopWindow
                        },
                        Some(err) => {
                            &&& reqs.len() == 1
                            &&& reqs[0] matches Request::Popup(p) && p.popup_type is Warning
                                && p.message@ == "Error writing config file: "@ + err@
                        },
                    }
                },
                _ => post == pre && reqs.len() == 0 && act is None,
            },
            _ => post == pre && reqs.len() == 0 && act is None,
        }
    }
}

/// The screen's display name, by active part.
pub open spec fn config_name_spec(c: ConfigWindow) -> Seq<char> {
    match c.state {
        ConfigWindowState::Main(_) => "Configuration Menu"@,
        ConfigWindowState::ManualConfig => "Configuration Menu: Manual config"@,
        ConfigWindowState::FromScript(_) => "Configuration Menu: From Script"@,
        ConfigWindowState::SelectBinary(_) => "Configuration Menu: Selecting Binary"@,
        ConfigWindowState::SetPort(_) => "Configuration Menu: Selecting port"@,
        ConfigWindowState::AwaitingSave(_) => "Configuration Menu"@,
    }
}

impl ConfigWindow {
    pub open spec fn wf(self) -> bool {
        &&& self.options.deep_view() == config_options_spec()
        &&& self.config_tx.wf()
        &&& match self.state {
            ConfigWindowState::Main(sel) => sel < 5,
            ConfigWindowState::FromScript(d) => d.wf(),
            ConfigWindowState::SelectBinary(d) => d.wf(),
            ConfigWindowState::SetPort(d) => d.wf(),
            _ => true,
        }
    }

    pub fn new() -> (r: ConfigWindow)
        ensures
            config_window_initial(r),
    {
        let mut options: Vec<String> = Vec::new();
        options.push(String::from_str("From script"));
        options.push(String::from_str("Manual configuration"));
        options.push(String::from_str("Select Binary"));
        options.push(String::from_str("Set Port"));
        options.push(String::from_str("Done"));
        proof {
            assert(options.deep_view() =~~= config_options_spec());
        }
        let config_tx = TextBuffer::from_chars(chars_of_str("Configuration not read yet!"));
        let mut r = ConfigWindow {
            state: ConfigWindowState::Main(0),
            config_file: None,
            config_tx,
            config_valid: false,
            loaded: false,
            options,
        };
        r.load_config_file();
        r
    }

    /// Point the screen at the artifact's conventional path inside the
    /// current project directory.
    pub fn load_config_file(&mut self)
        ensures
            *final(self) == (ConfigWindow {
                config_file: final(self).config_file,
                ..*old(self)
            }),
            final(self).config_file matches Some(f) && f@ == "./config.json"@,
    {
        self.config_file = Some(String::from_str("./config.json"));
    }

    /// Take the artifact's text (or the error met reading it) as the buffer's
    /// new content, and refresh the validity flag.
    pub fn load_config_str(&mut self, text: Result<String, String>)
        ensures
            final(self).options == old(self).options,
            final(self).config_file == old(self).config_file,
            final(self).state == old(self).state,
            final(self).loaded,
            final(self).config_tx.chars@ == match text {
                Ok(s) => s@,
                Err(e) => "Error reading config file: "@ + e@,
            },
            final(self).config_tx.wf(),
            final(self).config_valid == json_well_formed(final(self).config_tx.chars@),
    {
        let s: String = match text {
            Ok(s) => s,
            Err(e) => String::from_str("Error reading config file: ").concat(e.as_str()),
        };
        self.config_tx = TextBuffer::from_chars(chars_of_str(s.as_str()));
        self.loaded = true;
        self.update_config_block();
    }

    /// Refresh the validity flag from the buffer.
    pub fn update_config_block(&mut self)
        ensures
            *final(self) == (ConfigWindow {
                config_valid: final(self).config_valid,
                ..*old(self)
            }),
            final(self).config_valid == json_well_formed(old(self).config_tx.chars@),
    {
        let text = string_from_chars(&self.config_tx.chars);
        self.config_valid = match validate_json(text.as_str()) {
            Ok(_) => true,
            Err(_) => false,
        };
    }

    pub fn name(&self) -> (r: &'static str)
        ensures
            r@ == config_name_spec(*self),
    {
        match &self.state {
            ConfigWindowState::Main(_) => "Configuration Menu",
            ConfigWindowState::ManualConfig => "Configuration Menu: Manual config",
            ConfigWindowState::FromScript(_) => "Configuration Menu: From Script",
            ConfigWindowState::SelectBinary(_) => "Configuration Menu: Selecting Binary",
            ConfigWindowState::SetPort(_) => "Configuration Menu: Selecting port",
            ConfigWindowState::AwaitingSave(_) => "Configuration Menu",
        }
    }

    /// Whether the screen wants every key verbatim: everywhere but the menu.
    pub fn capture_all_input(&self) -> (r: bool)
        ensures
            r == !(self.state is Main),
    {
        match &self.state {
            ConfigWindowState::Main(_) => false,
            _ => true,
        }
    }

    /// One render-phase poll.
    pub fn poll(&mut self) -> (r: (Vec<Request>, Option<Action>))
        ensures
            config_poll_step(*old(self), *final(self), r.0@, r.1),
    {
        if self.loaded {
            (Vec::new(), None)
        } else {
            (Vec::new(), Some(Action::ReadConfig))
        }
    }

    /// Route one key through the screen.
    pub fn handle_input(&mut self, key: Key) -> (r: (Vec<Request>, Option<Action>))
        requires
            old(self).wf(),
        ensures
            final(self).wf(),
            config_input_step(*old(self), key, *final(self), r.0@, r.1),
    {
        let mut st = ConfigWindowState::ManualConfig;
        core::mem::swap(&mut st, &mut self.state);
        match st {
            ConfigWindowState::Main(sel) => self.input_in_main(sel, key),
            ConfigWindowState::ManualConfig => {
                self.state = ConfigWindowState::ManualConfig;
                match key {
                    Key::Esc => {
                        self.state = ConfigWindowState::Main(0);
                    },
                    Key::Char(c) => self.config_tx.insert_char(c),
                    Key::Enter => self.config_tx.insert_char('\n'),
                    Key::Backspace => self.config_tx.backspace(),
                    Key::Left => self.config_tx.move_left(),
                    Key::Right => self.config_tx.move_right(),
                    _ => {},
                }
                self.update_config_block();
                (Vec::new(), None)
            },
            ConfigWindowState::FromScript(mut d) => {
                let ghost d_old = d;
                let (res, refresh) = d.handle_input(key);
                match res {
                    FileDialogueResult::Continue => {
                        let act = if refresh {
                            Some(Action::ReadDir(clone_path(&d.cwd)))
                        } else {
                            None
                        };
                        self.state = ConfigWindowState::FromScript(d);
                        (Vec::new(), act)
                    },
                    _ => {
                        self.state = ConfigWindowState::Main(0);
                        (Vec::new(), None)
                    },
                }
            },
            ConfigWindowState::SelectBinary(mut d) => {
                let ghost d_old = d;
                let (res, refresh) = d.handle_input(key);
                match res {
                    FileDialogueResult::Continue => {
                        let act = if refresh {
                            Some(Action::ReadDir(clone_path(&d.cwd)))
                        } else {
                            None
                        };
                        self.state = ConfigWindowState::SelectBinary(d);
                        (Vec::new(), act)
                    },
                    FileDialogueResult::Select(p) => {
                        self.state = ConfigWindowState::Main(0);
                        let mut reqs: Vec<Request> = Vec::new();
                        reqs.push(
                            Request::PushProperty(
                                String::from_str("binary_path"),
                                PropValue::Path(p),
                            ),
                        );
                        (reqs, None)
                    },
                    FileDialogueResult::Cancel => {
                        self.state = ConfigWindowState::Main(0);
                        (Vec::new(), None)
                    },
                }
            },
            ConfigWindowState::SetPort(mut d) => {
                let ghost d_old = d;
                let res = d.handle_input(key);
                match res {
                    InputDialogueResult::Continue => {
                        self.state = ConfigWindowState::SetPort(d);
                        (Vec::new(), None)
                    },
                    InputDialogueResult::Cancel => {
                        self.state = ConfigWindowState::Main(0);
                        (Vec::new(), None)
                    },
                    InputDialogueResult::Submit(s) => {
                        self.state = ConfigWindowState::Main(0);
                        let mut reqs: Vec<Request> = Vec::new();
                        let chars = chars_of_str(s.as_str());
                        match parse_port(&chars) {
                            Some(n) => {
                                reqs.push(
                                    Request::PushProperty(
                                        String::from_str("port"),
                                        PropValue::Port(n),
                                    ),
                                );
                            },
                            None => {
                                reqs.push(
                                    Request::Popup(
                                        Popup::new(
                                            PopupType::Warning,
                                            String::from_str("Invalid port number"),
                                        ),
                                    ),
                                );
                            },
                        }
                        (reqs, None)
                    },
                }
            },
            ConfigWindowState::AwaitingSave(text) => {
                self.state = ConfigWindowState::AwaitingSave(text);
                (Vec::new(), None)
            },
        }
    }

    /// The menu's own input handling.
    fn input_in_main(&mut self, sel: usize, key: Key) -> (r: (Vec<Request>, Option<Action>))
        requires
            old(self).wf(),
            old(self).state is ManualConfig,
            sel < 5,
        ensures
            final(self).wf(),
            config_core_same(*old(self), *final(self)),
            config_main_step(
                ConfigWindow { state: ConfigWindowState::Main(sel), ..*old(self) },
                sel as int,
                key,
                *final(self),
                r.0@,
                r.1,
            ),
    {
        let ghost pre = ConfigWindow { state: ConfigWindowState::Main(sel), ..*old(self) };
        if key == Key::Up || key == Key::Char('j') {
            self.state = ConfigWindowState::Main(
                if sel > 0 {
                    sel - 1
                } else {
                    0
                },
            );
            return (Vec::new(), None);
        }
        if key == Key::Down || key == Key::Char('k') {
            self.state = ConfigWindowState::Main(
                if sel + 1 < 5 {
                    sel + 1
                } else {
                    sel
                },
            );
            return (Vec::new(), None);
        }
        if key == Key::Enter {
            if sel == 0 {
                self.state = ConfigWindowState::FromScript(FileDialogue::empty());
                return (Vec::new(), Some(Action::ReadDir(Vec::new())));
            }
            if sel == 1 {
                self.state = ConfigWindowState::ManualConfig;
                return (Vec::new(), None);
            }
            if sel == 2 {
                self.state = ConfigWindowState::SelectBinary(FileDialogue::empty());
                return (Vec::new(), Some(Action::ReadDir(Vec::new())));
            }
            if sel == 3 {
                self.state = ConfigWindowState::SetPort(
                    InputDialogue::new(
                        String::from_str("Set Port"),
                        String::from_str("Enter the port number:"),
                    ),
                );
                return (Vec::new(), None);
            }
            if sel == 4 {
                let text = string_from_chars(&self.config_tx.chars);
                match validate_json(text.as_str()) {
                    Ok(_) => match &self.config_file {
                        Some(f) => {
                            let path = f.clone();
                            let text2 = text.clone();
                            self.state = ConfigWindowState::AwaitingSave(text);
                            return (
                                Vec::new(),
                                Some(Action::WriteConfig { path, text: text2 }),
                            );
                        },
                        None => {
                            self.state = ConfigWindowState::Main(sel);
                            let mut reqs: Vec<Request> = Vec::new();
                            reqs.push(
                                Request::Popup(
                                    Popup::new(
                                        PopupType::Warning,
                                        String::from_str("Config file not set:"),
                                    ),
                                ),
                            );
                            return (reqs, None);
                        },
                    },
                    Err(e) => {
                        self.state = ConfigWindowState::Main(sel);
                        let msg = String::from_str("Invalid JSON configuration: ").concat(
                            e.as_str(),
                        );
                        proof {
                            assert("Invalid JSON configuration: "@.is_prefix_of(msg@));
                        }
                        let mut reqs: Vec<Request> = Vec::new();
                        reqs.push(Request::Popup(Popup::new(PopupType::Warning, msg)));
                        return (reqs, None);
                    },
                }
            }
            self.state = ConfigWindowState::Main(sel);
            return (Vec::new(), None);
        }
        self.state = ConfigWindowState::Main(sel);
        (Vec::new(), None)
    }

    /// Apply the outcome of a performed action.
    pub fn handle_outcome(&mut self, out: Outcome) -> (r: (Vec<Request>, Option<Action>))
        requires
            old(self).wf(),
        ensures
            final(self).wf(),
            config_outcome_step(*old(self), out, *final(self), r.0@, r.1),
    {
        match out {
            Outcome::ConfigText(res) => {
                self.load_config_str(res);
                (Vec::new(), None)
            },
            Outcome::WriteResult(e) => {
                let mut st = ConfigWindowState::ManualConfig;
                core::mem::swap(&mut st, &mut self.state);
                match st {
                    ConfigWindowState::AwaitingSave(text) => {
                        self.state = ConfigWindowState::Main(0);
                        match e {
                            None => {
                                let fname = match &self.config_file {
                                    Some(f) => f.clone(),
                                    None => String::new(),
                                };
                                let msg = String::from_str("Configuration saved to ").concat(
                                    fname.as_str(),
                                );
                                let mut reqs: Vec<Request> = Vec::new();
                                reqs.push(Request::Popup(Popup::new(PopupType::Info, msg)));
                                reqs.push(
                                    Request::PushProperty(
                                        String::from_str("emu_opts"),
                                        PropValue::Blob(text),
                                    ),
                                );
                                reqs.push(Request::PopWindow);
                                (reqs, None)
                            },
                            Some(err) => {
                                let msg = String::from_str("Error writing config file: ").concat(
                                    err.as_str(),
                                );
                                let mut reqs: Vec<Request> = Vec::new();
                                reqs.push(Request::Popup(Popup::new(PopupType::Warning, msg)));
                                (reqs, None)
                            },
                        }
                    },
                    other => {
                        self.state = other;
                        (Vec::new(), None)
                    },
                }
            },
            _ => (Vec::new(), None),
        }
    }
}

} // verus!
