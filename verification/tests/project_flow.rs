use flashfuzz_tui::action::{Action, Outcome};
use flashfuzz_tui::app::Request;
use flashfuzz_tui::file_dialogue::{RawEntry, RawKind};
use flashfuzz_tui::keys::Key;
use flashfuzz_tui::popup::PopupType;
use flashfuzz_tui::project::ProjectLayout;
use flashfuzz_tui::project_window::{ProjectWindow, ProjectWindowState};
use flashfuzz_tui::property::PropValue;
use flashfuzz_tui::window::Window;

fn dir(name: &str) -> RawEntry {
    RawEntry { name: String::from(name), kind: RawKind::Directory }
}

/// Drive a fresh project screen into the open flow browsing `projects`.
fn into_open_flow(w: &mut ProjectWindow) {
    w.handle_input(Key::Down);
    let (_, act) = w.handle_input(Key::Enter);
    assert!(matches!(act, Some(Action::ReadDir(_))));
    assert!(matches!(w.state, ProjectWindowState::BrowsingForOpen));
    w.explorer.set_listing(vec![dir("projects")]);
}

#[test]
fn open_flow_probes_validates_and_hands_over() {
    let mut w = ProjectWindow::new();
    into_open_flow(&mut w);
    // Commit the selected directory: its layout is probed.
    let (_, act) = w.handle_input(Key::Enter);
    match act {
        Some(Action::ProbeProjectLayout(p)) => assert_eq!(p, vec![String::from("projects")]),
        _ => panic!("expected the layout probe"),
    }
    // The layout is complete: move the working directory.
    let (_, act) = w.handle_outcome(Outcome::ProbeResult(ProjectLayout {
        corpus_dir: true,
        crashes_dir: true,
        config_file: true,
        grammar_file: true,
    }));
    match act {
        Some(Action::SetCwd(p)) => assert_eq!(p, vec![String::from("projects")]),
        _ => panic!("expected the working-directory move"),
    }
    // Moved: the screen hands over to the main menu with a success popup.
    let (reqs, act) = w.handle_outcome(Outcome::CwdResult(None));
    assert!(act.is_none());
    assert_eq!(reqs.len(), 4);
    match &reqs[0] {
        Request::PushProperty(name, PropValue::Text(t)) => {
            assert_eq!(name, "project_name");
            assert_eq!(t, "projects");
        },
        _ => panic!("expected the project-name property"),
    }
    assert!(matches!(reqs[1], Request::PopWindow));
    assert!(matches!(reqs[2], Request::PushWindow(Window::Main(_))));
    match &reqs[3] {
        Request::Popup(p) => {
            assert!(matches!(p.popup_type, PopupType::Success));
            assert_eq!(p.message, "Project opened successfully at: /projects");
        },
        _ => panic!("expected the success popup"),
    }
}

#[test]
fn open_flow_incomplete_layout_warns_and_returns_to_browsing() {
    let mut w = ProjectWindow::new();
    into_open_flow(&mut w);
    w.handle_input(Key::Enter);
    let (reqs, act) = w.handle_outcome(Outcome::ProbeResult(ProjectLayout {
        corpus_dir: true,
        crashes_dir: false,
        config_file: true,
        grammar_file: true,
    }));
    assert!(act.is_none());
    assert_eq!(reqs.len(), 1);
    match &reqs[0] {
        Request::Popup(p) => {
            assert!(matches!(p.popup_type, PopupType::Warning));
            assert_eq!(p.message, "Invalid project: Crashes directory not found.");
        },
        _ => panic!("expected a warning popup"),
    }
    assert!(matches!(w.state, ProjectWindowState::BrowsingForOpen));
}

#[test]
fn create_flow_names_scaffolds_and_handles_failure() {
    let mut w = ProjectWindow::new();
    // Choose "Create New Project".
    let (_, act) = w.handle_input(Key::Enter);
    assert!(matches!(act, Some(Action::ReadDir(_))));
    w.explorer.set_listing(vec![dir("work")]);
    // Commit the parent directory: the naming dialogue opens.
    w.handle_input(Key::Enter);
    assert!(matches!(
        w.state,
        ProjectWindowState::BrowsingForCreate(Some(_))
    ));
    for c in "proj".chars() {
        w.handle_input(Key::Char(c));
    }
    let (_, act) = w.handle_input(Key::Enter);
    match act {
        Some(Action::CreateProjectDirs(p)) => {
            assert_eq!(p, vec![String::from("work"), String::from("proj")])
        },
        _ => panic!("expected the scaffold"),
    }
    // Scaffolding failed: a warning, back to browsing.
    let (reqs, act) = w.handle_outcome(Outcome::CreateResult(Some(String::from("denied"))));
    assert!(act.is_none());
    match &reqs[0] {
        Request::Popup(p) => {
            assert!(matches!(p.popup_type, PopupType::Warning));
            assert_eq!(p.message, "Failed to create project: denied");
        },
        _ => panic!("expected a warning popup"),
    }
    assert!(matches!(w.state, ProjectWindowState::BrowsingForCreate(None)));
}

#[test]
fn create_flow_on_a_file_selection_warns() {
    let mut w = ProjectWindow::new();
    w.handle_input(Key::Enter);
    w.explorer.set_listing(vec![RawEntry {
        name: String::from("notes.txt"),
        kind: RawKind::File,
    }]);
    let (reqs, _) = w.handle_input(Key::Enter);
    assert_eq!(reqs.len(), 1);
    match &reqs[0] {
        Request::Popup(p) => {
            assert!(matches!(p.popup_type, PopupType::Info));
            assert_eq!(
                p.message,
                "Please select a directory for project operations."
            );
        },
        _ => panic!("expected an informational popup"),
    }
    assert!(matches!(
        w.state,
        ProjectWindowState::BrowsingForCreate(None)
    ));
}

#[test]
fn cwd_failure_warns_and_reverts() {
    let mut w = ProjectWindow::new();
    into_open_flow(&mut w);
    w.handle_input(Key::Enter);
    w.handle_outcome(Outcome::ProbeResult(ProjectLayout {
        corpus_dir: true,
        crashes_dir: true,
        config_file: true,
        grammar_file: true,
    }));
    let (reqs, _) = w.handle_outcome(Outcome::CwdResult(Some(String::from("not permitted"))));
    match &reqs[0] {
        Request::Popup(p) => {
            assert!(matches!(p.popup_type, PopupType::Warning));
            assert_eq!(
                p.message,
                "Failed to set current directory: not permitted"
            );
        },
        _ => panic!("expected a warning popup"),
    }
    assert!(matches!(w.state, ProjectWindowState::BrowsingForOpen));
}
