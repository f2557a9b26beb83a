//! Modal navigation kernel for a terminal configuration wizard.
//!
//! The crate models the wizard's core as a verified state machine: a stack of
//! modal screens, a request protocol by which screens ask the kernel for
//! effects, a single-dismiss popup overlay, and a typed property store shared
//! across screens. Directory browsing and single-line text entry are small
//! state machines of their own. All terminal drawing, file-system access and
//! process handling live outside the library and communicate with it through
//! plain values.

pub mod action;
pub mod app;
pub mod config_window;
pub mod file_dialogue;
pub mod fuzzing_window;
pub mod input_dialogue;
pub mod json;
pub mod keys;
pub mod main_window;
pub mod popup;
pub mod port;
pub mod project;
pub mod project_window;
pub mod property;
pub mod strutil;
pub mod text;
pub mod window;
