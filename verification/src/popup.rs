//! The popup overlay: an exclusive, single-dismiss notification.

use vstd::prelude::*;

verus! {

/// Severity of a popup. Each severity has a fixed title.
#[derive(Clone, Copy, Debug, PartialEq, Eq, Structural)]
pub enum PopupType {
    Info,
    Warning,
    Success,
}

impl PopupType {
    /// The fixed title shown for this severity.
    pub open spec fn title_spec(self) -> Seq<char> {
        match self {
            PopupType::Info => "Info"@,
            PopupType::Warning => "Warning"@,
            PopupType::Success => "Success"@,
        }
    }

    pub fn title(&self) -> (r: &'static str)
        ensures
            r@ == self.title_spec(),
    {
        match self {
            PopupType::Info => "Info",
            PopupType::Warning => "Warning",
            PopupType::Success => "Success",
        }
    }
}

/// A popup wraps one message under a severity. It is held outside the window
/// stack and consumes exactly one input event before it is discarded.
pub struct Popup {
    pub popup_type: PopupType,
    pub message: String,
}

impl Popup {
    pub fn new(popup_type: PopupType, message: String) -> (r: Popup)
        ensures
            r.popup_type == popup_type,
            r.message == message,
    {
        Popup { popup_type, message }
    }
}

} // verus!
