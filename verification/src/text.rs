//! A single-line text buffer with a cursor, shared by the text-entry dialogue
//! and the configuration editor.

use vstd::prelude::*;

verus! {

/// A mutable character buffer with a cursor offset in `[0, chars.len()]`.
pub struct TextBuffer {
    pub chars: Vec<char>,
    pub cursor: usize,
}

impl TextBuffer {
    /// The cursor never leaves the buffer's bounds.
    pub open spec fn wf(self) -> bool {
        self.cursor <= self.chars@.len()
    }

    pub fn new() -> (r: TextBuffer)
        ensures
            r.wf(),
            r.chars@ == Seq::<char>::empty(),
            r.cursor == 0,
    {
        TextBuffer { chars: Vec::new(), cursor: 0 }
    }

    /// A buffer holding the given characters, cursor at the end.
    pub fn from_chars(chars: Vec<char>) -> (r: TextBuffer)
        ensures
            r.wf(),
            r.chars@ == chars@,
            r.cursor == chars@.len(),
    {
        let cursor = chars.len();
        TextBuffer { chars, cursor }
    }

    /// Insert `c` at the cursor and advance the cursor past it.
    pub fn insert_char(&mut self, c: char)
        requires
            old(self).wf(),
        ensures
            final(self).wf(),
            final(self).chars@ == old(self).chars@.insert(old(self).cursor as int, c),
            final(self).cursor == old(self).cursor + 1,
    {
        self.chars.insert(self.cursor, c);
        let n = self.chars.len();
        self.cursor = self.cursor + 1;
    }

    /// Delete the character before the cursor; a no-op at offset 0.
    pub fn backspace(&mut self)
        requires
            old(self).wf(),
        ensures
            final(self).wf(),
            old(self).cursor == 0 ==> *final(self) == *old(self),
            old(self).cursor > 0 ==> {
                &&& final(self).chars@ == old(self).chars@.remove(old(self).cursor - 1)
                &&& final(self).cursor == old(self).cursor - 1
            },
    {
        if self.cursor > 0 {
            self.chars.remove(self.cursor - 1);
            self.cursor = self.cursor - 1;
        }
    }

    /// Move the cursor one step left, clamped at 0.
    pub fn move_left(&mut self)
        requires
            old(self).wf(),
        ensures
            final(self).wf(),
            final(self).chars@ == old(self).chars@,
            final(self).cursor == if old(self).cursor > 0 {
                (old(self).cursor - 1) as usize
            } else {
                0usize
            },
    {
        if self.cursor > 0 {
            self.cursor = self.cursor - 1;
        }
    }

    /// Move the cursor one step right, clamped at the buffer's length.
    pub fn move_right(&mut self)
        requires
            old(self).wf(),
        ensures
            final(self).wf(),
            final(self).chars@ == old(self).chars@,
            final(self).cursor == if old(self).cursor < old(self).chars@.len() {
                (old(self).cursor + 1) as usize
            } else {
                old(self).cursor
            },
    {
        if self.cursor < self.chars.len() {
            self.cursor = self.cursor + 1;
        }
    }

    /// The displayed copy of the buffer with a cursor marker spliced in at the
    /// cursor offset; the stored buffer is untouched.
    pub fn display_line(&self, marker: char) -> (r: Vec<char>)
        requires
            self.wf(),
        ensures
            r@ == self.chars@.insert(self.cursor as int, marker),
    {
        let mut r: Vec<char> = Vec::new();
        let mut i: usize = 0;
        while i < self.cursor
            invariant
                self.wf(),
                i <= self.cursor,
                r@ == self.chars@.subrange(0, i as int),
            decreases self.cursor - i,
        {
            r.push(self.chars[i]);
            i = i + 1;
        }
        r.push(marker);
        while i < self.chars.len()
            invariant
                self.wf(),
                self.cursor <= i <= self.chars@.len(),
                r@ == self.chars@.subrange(0, self.cursor as int) + seq![marker]
                    + self.chars@.subrange(self.cursor as int, i as int),
            decreases self.chars@.len() - i,
        {
            r.push(self.chars[i]);
            i = i + 1;
        }
        proof {
            assert(r@ =~= self.chars@.insert(self.cursor as int, marker));
        }
        r
    }
}

} // verus!
