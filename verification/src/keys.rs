//! The input events the kernel routes: one discrete key per cycle.

use vstd::prelude::*;

verus! {

/// One key event. Character keys carry their character; the named keys are
/// the ones the dialogues and the kernel react to. Anything else is `Other`.
#[derive(Clone, Copy, Debug, PartialEq, Eq, Structural)]
pub enum Key {
    Char(char),
    Up,
    Down,
    Left,
    Right,
    Enter,
    Esc,
    Backspace,
    Other,
}

} // verus!
