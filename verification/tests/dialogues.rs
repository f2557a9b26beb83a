use flashfuzz_tui::file_dialogue::{
    FileDialogue, FileDialogueResult, FileType, RawEntry, RawKind,
};
use flashfuzz_tui::input_dialogue::{InputDialogue, InputDialogueResult};
use flashfuzz_tui::keys::Key;

fn entry(name: &str, kind: RawKind) -> RawEntry {
    RawEntry { name: String::from(name), kind }
}

fn sample_entries() -> Vec<RawEntry> {
    vec![entry("a", RawKind::Directory), entry("b", RawKind::File)]
}

fn names(d: &FileDialogue) -> Vec<String> {
    d.current_list
        .iter()
        .map(|e| match e {
            FileType::File(n) => n.clone(),
            FileType::Directory(n) => n.clone(),
        })
        .collect()
}

#[test]
fn listing_is_parent_then_dirs_then_files() {
    // Raw order has the file first; the listing still puts directories first.
    let d = FileDialogue::with_cwd(
        vec![String::from("home")],
        vec![entry("b", RawKind::File), entry("a", RawKind::Directory)],
    );
    assert_eq!(names(&d), vec!["..", "a", "b"]);
}

#[test]
fn unreadable_entries_are_skipped_silently() {
    let d = FileDialogue::with_cwd(
        vec![],
        vec![
            entry("ok_dir", RawKind::Directory),
            entry("broken", RawKind::Unreadable),
            entry("ok_file", RawKind::File),
        ],
    );
    assert_eq!(names(&d), vec!["..", "ok_dir", "ok_file"]);
}

#[test]
fn committing_first_entry_selects_it() {
    // With entries {"a" (dir), "b" (file)}, the default selection is the
    // first real entry, index 0 of the directory's own entries.
    let mut d = FileDialogue::with_cwd(vec![String::from("path")], sample_entries());
    assert_eq!(d.selected, 1);
    let (res, refresh) = d.handle_input(Key::Enter);
    assert!(!refresh);
    match res {
        FileDialogueResult::Select(p) => {
            assert_eq!(p, vec![String::from("path"), String::from("a")])
        },
        _ => panic!("expected a committed selection"),
    }
}

#[test]
fn parent_and_back_reproduce_the_ordering() {
    let mut d = FileDialogue::with_cwd(vec![String::from("path")], sample_entries());
    // Step to the parent directory: the listing must be refreshed.
    let (res, refresh) = d.handle_input(Key::Char('h'));
    assert!(matches!(res, FileDialogueResult::Continue));
    assert!(refresh);
    assert!(d.cwd.is_empty());
    d.set_listing(vec![entry("path", RawKind::Directory)]);
    assert_eq!(names(&d), vec!["..", "path"]);
    // Step back into the directory ("path" is the selected first real entry).
    assert_eq!(d.selected, 1);
    let (res, refresh) = d.handle_input(Key::Char('l'));
    assert!(matches!(res, FileDialogueResult::Continue));
    assert!(refresh);
    assert_eq!(d.cwd, vec![String::from("path")]);
    d.set_listing(sample_entries());
    // Same ordering as before: parent entry first, then "a", then "b".
    assert_eq!(names(&d), vec!["..", "a", "b"]);
}

#[test]
fn selection_movement_is_clamped() {
    let mut d = FileDialogue::with_cwd(vec![], sample_entries());
    assert_eq!(d.selected, 1);
    d.handle_input(Key::Char('k'));
    assert_eq!(d.selected, 0);
    d.handle_input(Key::Up);
    assert_eq!(d.selected, 0);
    d.handle_input(Key::Char('G'));
    assert_eq!(d.selected, 2);
    d.handle_input(Key::Char('j'));
    assert_eq!(d.selected, 2);
    d.handle_input(Key::Char('g'));
    assert_eq!(d.selected, 0);
    d.handle_input(Key::Down);
    assert_eq!(d.selected, 1);
}

#[test]
fn stepping_into_a_file_does_nothing() {
    let mut d = FileDialogue::with_cwd(vec![], sample_entries());
    d.handle_input(Key::Char('G'));
    assert_eq!(d.selected, 2); // "b", a file
    let (res, refresh) = d.handle_input(Key::Char('l'));
    assert!(matches!(res, FileDialogueResult::Continue));
    assert!(!refresh);
    assert!(d.cwd.is_empty());
}

#[test]
fn cancel_returns_without_mutating() {
    let mut d = FileDialogue::with_cwd(vec![String::from("x")], sample_entries());
    let (res, refresh) = d.handle_input(Key::Char('q'));
    assert!(matches!(res, FileDialogueResult::Cancel));
    assert!(!refresh);
    assert_eq!(d.cwd, vec![String::from("x")]);
    assert_eq!(names(&d), vec!["..", "a", "b"]);
}

#[test]
fn input_dialogue_edit_sequence_yields_axc() {
    let mut d = InputDialogue::new(String::from("Title"), String::from("Prompt"));
    for c in ['a', 'b', 'c'] {
        assert!(matches!(
            d.handle_input(Key::Char(c)),
            InputDialogueResult::Continue
        ));
    }
    d.handle_input(Key::Left);
    d.handle_input(Key::Backspace);
    d.handle_input(Key::Char('X'));
    match d.handle_input(Key::Enter) {
        InputDialogueResult::Submit(s) => assert_eq!(s, "aXc"),
        _ => panic!("expected a committed buffer"),
    }
}

#[test]
fn input_dialogue_cursor_is_clamped() {
    let mut d = InputDialogue::new(String::from("t"), String::from("p"));
    d.handle_input(Key::Left);
    d.handle_input(Key::Backspace);
    d.handle_input(Key::Char('z'));
    d.handle_input(Key::Right);
    d.handle_input(Key::Right);
    d.handle_input(Key::Char('w'));
    match d.handle_input(Key::Enter) {
        InputDialogueResult::Submit(s) => assert_eq!(s, "zw"),
        _ => panic!("expected a committed buffer"),
    }
}

#[test]
fn input_dialogue_cancel_and_unknown_keys_keep_state() {
    let mut d = InputDialogue::new(String::from("t"), String::from("p"));
    d.handle_input(Key::Char('h'));
    d.handle_input(Key::Char('i'));
    assert!(matches!(d.handle_input(Key::Other), InputDialogueResult::Continue));
    assert!(matches!(d.handle_input(Key::Esc), InputDialogueResult::Cancel));
    match d.handle_input(Key::Enter) {
        InputDialogueResult::Submit(s) => assert_eq!(s, "hi"),
        _ => panic!("expected a committed buffer"),
    }
}

#[test]
fn display_line_splices_cursor_marker() {
    let mut d = InputDialogue::new(String::from("t"), String::from("p"));
    d.handle_input(Key::Char('a'));
    d.handle_input(Key::Char('b'));
    d.handle_input(Key::Left);
    let shown: String = d.buf.display_line('_').into_iter().collect();
    assert_eq!(shown, "a_b");
    // The stored buffer is untouched.
    match d.handle_input(Key::Enter) {
        InputDialogueResult::Submit(s) => assert_eq!(s, "ab"),
        _ => panic!("expected a committed buffer"),
    }
}
