//! The directory-browsing dialogue: a current directory, the ordered listing
//! derived from it, and a selection index.
//!
//! The library never reads the file system. When navigation enters another
//! directory the dialogue reports that its listing must be refreshed, and the
//! caller hands the raw directory entries back through `set_listing`.

use vstd::prelude::*;

use crate::keys::Key;
use crate::strutil::clone_path;
use vstd::string::StringExecFns;

verus! {

/// One entry of the ordered listing, tagged by kind.
pub enum FileType {
    File(String),
    Directory(String),
}

/// The listing entry's mathematical shape.
pub enum FileTypeView {
    File(Seq<char>),
    Directory(Seq<char>),
}

impl View for FileType {
    type V = FileTypeView;

    open spec fn view(&self) -> FileTypeView {
        match self {
            FileType::File(n) => FileTypeView::File(n@),
            FileType::Directory(n) => FileTypeView::Directory(n@),
        }
    }
}

/// What a probe of one directory entry found. An entry whose kind could not
/// be read is skipped silently when the listing is built.
#[derive(Clone, Copy, PartialEq, Eq, Structural)]
pub enum RawKind {
    Directory,
    File,
    Unreadable,
}

/// A raw directory entry as the caller found it on disk.
pub struct RawEntry {
    pub name: String,
    pub kind: RawKind,
}

/// What one input event did to the dialogue: still browsing, committed to the
/// selected entry's full path, or cancelled.
pub enum FileDialogueResult {
    Continue,
    Select(Vec<String>),
    Cancel,
}

/// The directory entries of `s`, in order, as listing entries.
pub open spec fn dir_entries(s: Seq<RawEntry>) -> Seq<FileType>
    decreases s.len(),
{
    if s.len() == 0 {
        Seq::empty()
    } else {
        let rest = dir_entries(s.drop_last());
        if s.last().kind is Directory {
            rest.push(FileType::Directory(s.last().name))
        } else {
            rest
        }
    }
}

/// The file entries of `s`, in order, as listing entries.
pub open spec fn file_entries(s: Seq<RawEntry>) -> Seq<FileType>
    decreases s.len(),
{
    if s.len() == 0 {
        Seq::empty()
    } else {
        let rest = file_entries(s.drop_last());
        if s.last().kind is File {
            rest.push(FileType::File(s.last().name))
        } else {
            rest
        }
    }
}

/// The listing derived from raw entries: a synthetic parent entry first, then
/// the directories in order, then the files in order; unreadable entries are
/// skipped.
pub open spec fn is_listing_of(list: Seq<FileType>, entries: Seq<RawEntry>) -> bool {
    &&& list.len() >= 1
    &&& list[0] matches FileType::Directory(n) && n@ == ".."@
    &&& list.skip(1) == dir_entries(entries) + file_entries(entries)
}

/// The browsing dialogue's state.
pub struct FileDialogue {
    pub cwd: Vec<String>,
    pub current_list: Vec<FileType>,
    pub selected: usize,
}

/// A dialogue at the root with nothing listed yet (only the parent entry).
pub open spec fn fd_empty(d: FileDialogue) -> bool {
    &&& d.wf()
    &&& d.cwd@.len() == 0
    &&& is_listing_of(d.current_list@, Seq::<RawEntry>::empty())
    &&& d.selected == 0
}

/// The selection moved (or stayed); directory and listing untouched.
pub open spec fn fd_moved(pre: FileDialogue, post: FileDialogue, newsel: int) -> bool {
    &&& post.cwd == pre.cwd
    &&& post.current_list == pre.current_list
    &&& post.selected == newsel
}

/// The name of the selected entry.
pub open spec fn sel_name(d: FileDialogue) -> Seq<char> {
    match d.current_list@[d.selected as int] {
        FileType::File(n) => n@,
        FileType::Directory(n) => n@,
    }
}

/// The dialogue's transition relation: how one key turns `pre` into `post`
/// with result `r`; `refresh` says that the caller must re-read the (possibly
/// new) current directory and call `set_listing`. Selection moves one step on
/// down/up (also `j`/`k`) and jumps on `g`/`G`; left (also `h`) steps to the
/// parent directory; right (also `l`) steps into the selected entry only if
/// it is a directory; enter commits the selected entry's full path whatever
/// its kind; `q` cancels; anything else changes nothing.
pub open spec fn file_dialogue_step(
    pre: FileDialogue,
    key: Key,
    post: FileDialogue,
    r: FileDialogueResult,
    refresh: bool,
) -> bool {
    let len = pre.current_list@.len() as int;
    let sel = pre.selected as int;
    if key == Key::Down || key == Key::Char('j') {
        &&& fd_moved(pre, post, if sel + 1 < len { sel + 1 } else { sel })
        &&& r is Continue
        &&& !refresh
    } else if key == Key::Up || key == Key::Char('k') {
        &&& fd_moved(pre, post, if sel > 0 { sel - 1 } else { 0 })
        &&& r is Continue
        &&& !refresh
    } else if key == Key::Char('g') {
        &&& fd_moved(pre, post, 0)
        &&& r is Continue
        &&& !refresh
    } else if key == Key::Char('G') {
        &&& fd_moved(pre, post, len - 1)
        &&& r is Continue
        &&& !refresh
    } else if key == Key::Left || key == Key::Char('h') {
        &&& post.cwd.deep_view() == if pre.cwd@.len() > 0 {
            pre.cwd.deep_view().drop_last()
        } else {
            pre.cwd.deep_view()
        }
        &&& post.current_list == pre.current_list
        &&& post.selected == pre.selected
        &&& r is Continue
        &&& refresh
    } else if key == Key::Right || key == Key::Char('l') {
        match pre.current_list@[sel] {
            FileType::Directory(n) => {
                &&& post.cwd.deep_view() == if sel == 0 {
                    if pre.cwd@.len() > 0 {
                        pre.cwd.deep_view().drop_last()
                    } else {
                        pre.cwd.deep_view()
                    }
                } else {
                    pre.cwd.deep_view().push(n@)
                }
                &&& post.current_list == pre.current_list
                &&& post.selected == pre.selected
                &&& r is Continue
                &&& refresh
            },
            FileType::File(_) => post == pre && r is Continue && !refresh,
        }
    } else if key == Key::Enter {
        &&& post == pre
        &&& r matches FileDialogueResult::Select(p) && p.deep_view() == pre.cwd.deep_view().push(
            sel_name(pre),
        )
        &&& !refresh
    } else if key == Key::Char('q') {
        &&& post == pre
        &&& r is Cancel
        &&& !refresh
    } else {
        &&& post == pre
        &&& r is Continue
        &&& !refresh
    }
}

impl FileDialogue {
    /// The listing always holds at least the parent entry, and the selection
    /// stays inside it.
    pub open spec fn wf(self) -> bool {
        &&& self.current_list@.len() >= 1
        &&& (self.selected as int) < self.current_list@.len()
    }

    /// A dialogue at the root with nothing listed yet.
    pub fn empty() -> (r: FileDialogue)
        ensures
            fd_empty(r),
    {
        let r = FileDialogue::with_cwd(Vec::new(), Vec::new());
        proof {
            assert(r.current_list@.len() == 1) by {
                assert(r.current_list@.skip(1) =~= Seq::<FileType>::empty());
            }
        }
        r
    }

    /// A dialogue browsing `cwd`, whose raw entries are `entries`.
    pub fn with_cwd(cwd: Vec<String>, entries: Vec<RawEntry>) -> (r: FileDialogue)
        ensures
            r.wf(),
            r.cwd == cwd,
            is_listing_of(r.current_list@, entries@),
            r.selected == if r.current_list@.len() > 1 {
                1int
            } else {
                0int
            },
    {
        let mut r = FileDialogue { cwd, current_list: Vec::new(), selected: 0 };
        r.set_listing(entries);
        r
    }

    /// Replace the listing with the one derived from `entries`: parent entry
    /// first, then directories, then files, unreadable entries skipped. The
    /// selection returns to the first real entry, or to the parent entry when
    /// there is none.
    pub fn set_listing(&mut self, entries: Vec<RawEntry>)
        ensures
            final(self).wf(),
            final(self).cwd == old(self).cwd,
            is_listing_of(final(self).current_list@, entries@),
            final(self).selected == if final(self).current_list@.len() > 1 {
                1int
            } else {
                0int
            },
    {
        let mut list: Vec<FileType> = Vec::new();
        list.push(FileType::Directory(String::from_str("..")));
        let ghost parent = list@[0];
        let mut i: usize = 0;
        while i < entries.len()
            invariant
                i <= entries@.len(),
                list@.len() >= 1,
                list@[0] == parent,
                list@.skip(1) == dir_entries(entries@.take(i as int)),
            decreases entries@.len() - i,
        {
            proof {
                assert(entries@.take(i + 1).drop_last() =~= entries@.take(i as int));
                assert(entries@.take(i + 1).last() == entries@[i as int]);
            }
            if let RawKind::Directory = entries[i].kind {
                list.push(FileType::Directory(entries[i].name.clone()));
            }
            proof {
                assert(list@.skip(1) =~= dir_entries(entries@.take(i + 1)));
            }
            i = i + 1;
        }
        proof {
            assert(entries@.take(entries@.len() as int) =~= entries@);
        }
        let ghost after_dirs = list@;
        let mut j: usize = 0;
        while j < entries.len()
            invariant
                j <= entries@.len(),
                list@.len() >= 1,
                list@ == after_dirs + file_entries(entries@.take(j as int)),
                after_dirs[0] == parent,
                after_dirs.skip(1) == dir_entries(entries@),
            decreases entries@.len() - j,
        {
            proof {
                assert(entries@.take(j + 1).drop_last() =~= entries@.take(j as int));
                assert(entries@.take(j + 1).last() == entries@[j as int]);
            }
            if let RawKind::File = entries[j].kind {
                list.push(FileType::File(entries[j].name.clone()));
            }
            proof {
                assert(list@ =~= after_dirs + file_entries(entries@.take(j + 1)));
            }
            j = j + 1;
        }
        proof {
            assert(entries@.take(entries@.len() as int) =~= entries@);
            assert((after_dirs + file_entries(entries@)).skip(1) =~= dir_entries(entries@)
                + file_entries(entries@));
        }
        let sel: usize = if list.len() > 1 {
            1
        } else {
            0
        };
        self.current_list = list;
        self.selected = sel;
    }

    /// The full path of the selected entry: the current directory with the
    /// entry's name appended, whatever its kind. Validity of the choice is
    /// the caller's responsibility.
    pub fn get_selected(&self) -> (r: Vec<String>)
        requires
            self.wf(),
        ensures
            r.deep_view() == self.cwd.deep_view().push(sel_name(*self)),
    {
        let mut r = clone_path(&self.cwd);
        let name = match &self.current_list[self.selected] {
            FileType::File(n) => n.clone(),
            FileType::Directory(n) => n.clone(),
        };
        r.push(name);
        proof {
            assert(r.deep_view() =~~= self.cwd.deep_view().push(sel_name(*self)));
        }
        r
    }

    /// Whether the selected entry is a file (as opposed to a directory).
    pub fn selected_is_file(&self) -> (r: bool)
        requires
            self.wf(),
        ensures
            r == self.current_list@[self.selected as int] is File,
    {
        match &self.current_list[self.selected] {
            FileType::File(_) => true,
            FileType::Directory(_) => false,
        }
    }

    /// Route one key through the dialogue. The second component of the result
    /// says that the listing is stale and must be refreshed via
    /// `set_listing`.
    pub fn handle_input(&mut self, key: Key) -> (r: (FileDialogueResult, bool))
        requires
            old(self).wf(),
        ensures
            final(self).wf(),
            file_dialogue_step(*old(self), key, *final(self), r.0, r.1),
    {
        match key {
            Key::Down => self.step_down(),
            Key::Up => self.step_up(),
            Key::Left => self.step_parent(),
            Key::Right => self.step_into(),
            Key::Char(c) => {
                if c == 'j' {
                    self.step_down()
                } else if c == 'k' {
                    self.step_up()
                } else if c == 'h' {
                    self.step_parent()
                } else if c == 'l' {
                    self.step_into()
                } else if c == 'g' {
                    self.selected = 0;
                    (FileDialogueResult::Continue, false)
                } else if c == 'G' {
                    self.selected = self.current_list.len() - 1;
                    (FileDialogueResult::Continue, false)
                } else if c == 'q' {
                    (FileDialogueResult::Cancel, false)
                } else {
                    (FileDialogueResult::Continue, false)
                }
            },
            Key::Enter => {
                let p = self.get_selected();
                (FileDialogueResult::Select(p), false)
            },
            _ => (FileDialogueResult::Continue, false),
        }
    }

    fn step_down(&mut self) -> (r: (FileDialogueResult, bool))
        requires
            old(self).wf(),
        ensures
            final(self).wf(),
            fd_moved(
                *old(self),
                *final(self),
                if old(self).selected + 1 < old(self).current_list@.len() {
                    old(self).selected + 1
                } else {
                    old(self).selected as int
                },
            ),
            r.0 is Continue && !r.1,
    {
        let n = self.current_list.len();
        if self.selected + 1 < n {
            self.selected = self.selected + 1;
        }
        (FileDialogueResult::Continue, false)
    }

    fn step_up(&mut self) -> (r: (FileDialogueResult, bool))
        requires
            old(self).wf(),
        ensures
            final(self).wf(),
            fd_moved(
                *old(self),
                *final(self),
                if old(self).selected > 0 {
                    old(self).selected - 1
                } else {
                    0int
                },
            ),
            r.0 is Continue && !r.1,
    {
        if self.selected > 0 {
            self.selected = self.selected - 1;
        }
        (FileDialogueResult::Continue, false)
    }

    fn step_parent(&mut self) -> (r: (FileDialogueResult, bool))
        requires
            old(self).wf(),
        ensures
            final(self).wf(),
            final(self).cwd.deep_view() == if old(self).cwd@.len() > 0 {
                old(self).cwd.deep_view().drop_last()
            } else {
                old(self).cwd.deep_view()
            },
            final(self).current_list == old(self).current_list,
            final(self).selected == old(self).selected,
            r.0 is Continue && r.1,
    {
        if self.cwd.len() > 0 {
            self.cwd.pop();
            proof {
                assert(self.cwd.deep_view() =~~= old(self).cwd.deep_view().drop_last());
            }
        }
        (FileDialogueResult::Continue, true)
    }

    fn step_into(&mut self) -> (r: (FileDialogueResult, bool))
        requires
            old(self).wf(),
        ensures
            final(self).wf(),
            match old(self).current_list@[old(self).selected as int] {
                FileType::Directory(n) => {
                    &&& final(self).cwd.deep_view() == if old(self).selected == 0 {
                        if old(self).cwd@.len() > 0 {
                            old(self).cwd.deep_view().drop_last()
                        } else {
                            old(self).cwd.deep_view()
                        }
                    } else {
                        old(self).cwd.deep_view().push(n@)
                    }
                    &&& final(self).current_list == old(self).current_list
                    &&& final(self).selected == old(self).selected
                    &&& r.0 is Continue && r.1
                },
                FileType::File(_) => *final(self) == *old(self) && r.0 is Continue && !r.1,
            },
    {
        let is_dir_name: Option<String> = match &self.current_list[self.selected] {
            FileType::Directory(n) => Some(n.clone()),
            FileType::File(_) => None,
        };
        match is_dir_name {
            Some(n) => {
                if self.selected == 0 {
                    if self.cwd.len() > 0 {
                        self.cwd.pop();
                        proof {
                            assert(self.cwd.deep_view() =~~= old(self).cwd.deep_view().drop_last());
                        }
                    }
                } else {
                    self.cwd.push(n);
                    proof {
                        assert(self.cwd.deep_view() =~~= old(self).cwd.deep_view().push(
                            sel_name(*old(self)),
                        ));
                    }
                }
                (FileDialogueResult::Continue, true)
            },
            None => (FileDialogueResult::Continue, false),
        }
    }
}

} // verus!
