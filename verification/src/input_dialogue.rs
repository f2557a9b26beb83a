//! The single-line text-entry dialogue: a titled prompt over a mutable
//! buffer with a cursor.

use vstd::prelude::*;

use crate::keys::Key;
use crate::strutil::string_from_chars;
use crate::text::TextBuffer;

verus! {

/// A text-entry dialogue: a title, a prompt shown beside the input line, and
/// the buffer being edited.
pub struct InputDialogue {
    pub title: String,
    pub prompt: String,
    pub buf: TextBuffer,
}

/// What one input event did to the dialogue: still editing, committed with
/// the buffer's content, or cancelled.
pub enum InputDialogueResult {
    Continue,
    Submit(String),
    Cancel,
}

/// The dialogue's transition relation: how one key turns `pre` into `post`
/// with result `r`. Printable characters are inserted at the cursor,
/// backspace deletes before it, the arrow keys move it clamped to the buffer,
/// enter commits a copy of the buffer, escape cancels, and every other key
/// leaves the dialogue unchanged.
pub open spec fn input_dialogue_step(
    pre: InputDialogue,
    key: Key,
    post: InputDialogue,
    r: InputDialogueResult,
) -> bool {
    &&& post.title == pre.title
    &&& post.prompt == pre.prompt
    &&& match key {
        Key::Enter => {
            &&& post.buf == pre.buf
            &&& r matches InputDialogueResult::Submit(s) && s@ == pre.buf.chars@
        },
        Key::Esc => post.buf == pre.buf && r is Cancel,
        Key::Char(c) => {
            &&& r is Continue
            &&& post.buf.chars@ == pre.buf.chars@.insert(pre.buf.cursor as int, c)
            &&& post.buf.cursor == pre.buf.cursor + 1
        },
        Key::Backspace => {
            &&& r is Continue
            &&& if pre.buf.cursor == 0 {
                post.buf == pre.buf
            } else {
                post.buf.chars@ == pre.buf.chars@.remove(pre.buf.cursor - 1) && post.buf.cursor
                    == pre.buf.cursor - 1
            }
        },
        Key::Left => {
            &&& r is Continue
            &&& post.buf.chars@ == pre.buf.chars@
            &&& post.buf.cursor == if pre.buf.cursor > 0 {
                (pre.buf.cursor - 1) as usize
            } else {
                0usize
            }
        },
        Key::Right => {
            &&& r is Continue
            &&& post.buf.chars@ == pre.buf.chars@
            &&& post.buf.cursor == if pre.buf.cursor < pre.buf.chars@.len() {
                (pre.buf.cursor + 1) as usize
            } else {
                pre.buf.cursor
            }
        },
        _ => r is Continue && post.buf == pre.buf,
    }
}

impl InputDialogue {
    pub open spec fn wf(self) -> bool {
        self.buf.wf()
    }

    /// A fresh dialogue with an empty buffer.
    pub fn new(title: String, prompt: String) -> (r: InputDialogue)
        ensures
            r.wf(),
            r.title == title,
            r.prompt == prompt,
            r.buf.chars@ == Seq::<char>::empty(),
            r.buf.cursor == 0,
    {
        InputDialogue { title, prompt, buf: TextBuffer::new() }
    }

    /// Route one key through the dialogue.
    pub fn handle_input(&mut self, key: Key) -> (r: InputDialogueResult)
        requires
            old(self).wf(),
        ensures
            final(self).wf(),
            input_dialogue_step(*old(self), key, *final(self), r),
    {
        match key {
            Key::Enter => {
                let s = string_from_chars(&self.buf.chars);
                InputDialogueResult::Submit(s)
            },
            Key::Esc => InputDialogueResult::Cancel,
            Key::Char(c) => {
                self.buf.insert_char(c);
                InputDialogueResult::Continue
            },
            Key::Backspace => {
                self.buf.backspace();
                InputDialogueResult::Continue
            },
            Key::Left => {
                self.buf.move_left();
                InputDialogueResult::Continue
            },
            Key::Right => {
                self.buf.move_right();
                InputDialogueResult::Continue
            },
            _ => InputDialogueResult::Continue,
        }
    }
}

} // verus!
