use flashfuzz_tui::action::{Action, Outcome};
use flashfuzz_tui::app::Request;
use flashfuzz_tui::config_window::{ConfigWindow, ConfigWindowState};
use flashfuzz_tui::fuzzing_window::FuzzingWindow;
use flashfuzz_tui::json::validate_json;
use flashfuzz_tui::keys::Key;
use flashfuzz_tui::popup::PopupType;
use flashfuzz_tui::port::parse_port;
use flashfuzz_tui::project::{validate_project_structure, ProjectLayout};
use flashfuzz_tui::property::PropValue;

fn layout(corpus: bool, crashes: bool, config: bool, grammar: bool) -> ProjectLayout {
    ProjectLayout { corpus_dir: corpus, crashes_dir: crashes, config_file: config, grammar_file: grammar }
}

#[test]
fn validate_complete_layout_succeeds() {
    assert!(validate_project_structure(&layout(true, true, true, true)).is_ok());
}

#[test]
fn validate_missing_crashes_names_crashes() {
    let r = validate_project_structure(&layout(true, false, true, true));
    assert_eq!(r.unwrap_err(), "Crashes directory not found.");
}

#[test]
fn validate_missing_corpus_names_corpus() {
    let r = validate_project_structure(&layout(false, true, true, true));
    assert_eq!(r.unwrap_err(), "Corpus directory not found.");
}

#[test]
fn validate_missing_config_names_config() {
    let r = validate_project_structure(&layout(true, true, false, true));
    assert_eq!(r.unwrap_err(), "config.json not found.");
}

#[test]
fn validate_missing_grammar_names_grammar() {
    let r = validate_project_structure(&layout(true, true, true, false));
    assert_eq!(r.unwrap_err(), "grammar.json not found.");
}

#[test]
fn validate_reports_first_missing_element() {
    let r = validate_project_structure(&layout(false, false, false, false));
    assert_eq!(r.unwrap_err(), "Corpus directory not found.");
}

#[test]
fn parse_port_accepts_digits_in_range() {
    assert_eq!(parse_port(&"1337".chars().collect()), Some(1337));
    assert_eq!(parse_port(&"0".chars().collect()), Some(0));
    assert_eq!(parse_port(&"65535".chars().collect()), Some(65535));
    assert_eq!(parse_port(&"00080".chars().collect()), Some(80));
}

#[test]
fn parse_port_rejects_bad_input() {
    assert_eq!(parse_port(&"".chars().collect()), None);
    assert_eq!(parse_port(&"65536".chars().collect()), None);
    assert_eq!(parse_port(&"99999999".chars().collect()), None);
    assert_eq!(parse_port(&"12a".chars().collect()), None);
    assert_eq!(parse_port(&"+1".chars().collect()), None);
    assert_eq!(parse_port(&"-1".chars().collect()), None);
    assert_eq!(parse_port(&" 80".chars().collect()), None);
}

#[test]
fn validate_json_accepts_and_rejects() {
    assert!(validate_json("{\"a\": [1, 2, 3]}").is_ok());
    assert!(validate_json("17").is_ok());
    assert!(validate_json("{\"a\": ").is_err());
    assert!(validate_json("not json").is_err());
    assert!(validate_json("").is_err());
}

#[test]
fn config_window_loads_text_and_flags_validity() {
    let mut c = ConfigWindow::new();
    assert!(!c.loaded);
    assert!(!c.config_valid);
    c.load_config_str(Ok(String::from("{\"depth\": 3}")));
    assert!(c.loaded);
    assert!(c.config_valid);
    let text: String = c.config_tx.chars.iter().collect();
    assert_eq!(text, "{\"depth\": 3}");
    c.load_config_str(Err(String::from("no such file")));
    let text: String = c.config_tx.chars.iter().collect();
    assert_eq!(text, "Error reading config file: no such file");
    assert!(!c.config_valid);
}

#[test]
fn config_manual_editing_revalidates_each_keystroke() {
    let mut c = ConfigWindow::new();
    c.load_config_str(Ok(String::from("")));
    // Enter manual configuration from the menu: move down once, then enter.
    c.handle_input(Key::Down);
    let (reqs, act) = c.handle_input(Key::Enter);
    assert!(reqs.is_empty() && act.is_none());
    for ch in "{}".chars() {
        c.handle_input(Key::Char(ch));
    }
    assert!(c.config_valid);
    c.handle_input(Key::Backspace);
    assert!(!c.config_valid);
    c.handle_input(Key::Esc);
    assert!(matches!(c.state, ConfigWindowState::Main(0)));
}

#[test]
fn config_set_port_flow_pushes_property() {
    let mut c = ConfigWindow::new();
    // Menu order: From script, Manual configuration, Select Binary, Set Port.
    // The menu's alternate bindings move with 'k' (down) and 'j' (up).
    c.handle_input(Key::Char('k'));
    c.handle_input(Key::Char('k'));
    c.handle_input(Key::Char('k'));
    let (_, act) = c.handle_input(Key::Enter);
    assert!(act.is_none());
    assert!(matches!(c.state, ConfigWindowState::SetPort(_)));
    for ch in "4242".chars() {
        c.handle_input(Key::Char(ch));
    }
    let (reqs, _) = c.handle_input(Key::Enter);
    assert_eq!(reqs.len(), 1);
    match &reqs[0] {
        Request::PushProperty(name, PropValue::Port(p)) => {
            assert_eq!(name, "port");
            assert_eq!(*p, 4242);
        },
        _ => panic!("expected the port property"),
    }
    assert!(matches!(c.state, ConfigWindowState::Main(0)));
}

#[test]
fn config_set_port_rejects_non_numeric() {
    let mut c = ConfigWindow::new();
    c.handle_input(Key::Char('k'));
    c.handle_input(Key::Char('k'));
    c.handle_input(Key::Char('k'));
    c.handle_input(Key::Enter);
    for ch in "80x".chars() {
        c.handle_input(Key::Char(ch));
    }
    let (reqs, _) = c.handle_input(Key::Enter);
    assert_eq!(reqs.len(), 1);
    match &reqs[0] {
        Request::Popup(p) => {
            assert!(matches!(p.popup_type, PopupType::Warning));
            assert_eq!(p.message, "Invalid port number");
        },
        _ => panic!("expected a warning popup"),
    }
}

#[test]
fn config_done_with_invalid_text_warns() {
    let mut c = ConfigWindow::new();
    c.load_config_str(Ok(String::from("{ broken")));
    // Move to "Done" (index 4) and commit.
    for _ in 0..4 {
        c.handle_input(Key::Char('k'));
    }
    let (reqs, act) = c.handle_input(Key::Enter);
    assert!(act.is_none());
    assert_eq!(reqs.len(), 1);
    match &reqs[0] {
        Request::Popup(p) => {
            assert!(matches!(p.popup_type, PopupType::Warning));
            assert!(p.message.starts_with("Invalid JSON configuration: "));
        },
        _ => panic!("expected a warning popup"),
    }
}

#[test]
fn config_done_with_valid_text_writes_then_stores_blob() {
    let mut c = ConfigWindow::new();
    c.load_config_str(Ok(String::from("{\"a\":1}")));
    for _ in 0..4 {
        c.handle_input(Key::Char('k'));
    }
    let (reqs, act) = c.handle_input(Key::Enter);
    assert!(reqs.is_empty());
    match act {
        Some(Action::WriteConfig { path, text }) => {
            assert_eq!(path, "./config.json");
            assert_eq!(text, "{\"a\":1}");
        },
        _ => panic!("expected the artifact write"),
    }
    // The write succeeded: popup, blob property, and the screen leaves.
    let (reqs, act) = c.handle_outcome(Outcome::WriteResult(None));
    assert!(act.is_none());
    assert_eq!(reqs.len(), 3);
    match &reqs[0] {
        Request::Popup(p) => {
            assert!(matches!(p.popup_type, PopupType::Info));
            assert_eq!(p.message, "Configuration saved to ./config.json");
        },
        _ => panic!("expected the saved popup"),
    }
    match &reqs[1] {
        Request::PushProperty(name, PropValue::Blob(b)) => {
            assert_eq!(name, "emu_opts");
            assert_eq!(b, "{\"a\":1}");
        },
        _ => panic!("expected the blob property"),
    }
    assert!(matches!(reqs[2], Request::PopWindow));
}

#[test]
fn config_write_failure_warns_and_stays() {
    let mut c = ConfigWindow::new();
    c.load_config_str(Ok(String::from("{}")));
    for _ in 0..4 {
        c.handle_input(Key::Char('k'));
    }
    let (_, act) = c.handle_input(Key::Enter);
    assert!(act.is_some());
    let (reqs, _) = c.handle_outcome(Outcome::WriteResult(Some(String::from("disk full"))));
    assert_eq!(reqs.len(), 1);
    match &reqs[0] {
        Request::Popup(p) => {
            assert!(matches!(p.popup_type, PopupType::Warning));
            assert_eq!(p.message, "Error writing config file: disk full");
        },
        _ => panic!("expected a warning popup"),
    }
}

#[test]
fn fuzzing_screen_polls_then_launches_once() {
    let mut f = FuzzingWindow::new();
    let (reqs, act) = f.poll();
    assert!(act.is_none());
    assert_eq!(reqs.len(), 1);
    match &reqs[0] {
        Request::GetProperty(n) => assert_eq!(n, "emu_opts"),
        _ => panic!("expected a property lookup"),
    }
    f.send_property(String::from("emu_opts"), PropValue::Blob(String::from("{}")));
    let (reqs, _) = f.poll();
    match &reqs[0] {
        Request::GetProperty(n) => assert_eq!(n, "port"),
        _ => panic!("expected a property lookup"),
    }
    f.send_property(String::from("port"), PropValue::Port(7));
    let (reqs, _) = f.poll();
    match &reqs[0] {
        Request::GetProperty(n) => assert_eq!(n, "binary_path"),
        _ => panic!("expected a property lookup"),
    }
    f.send_property(
        String::from("binary_path"),
        PropValue::Path(vec![String::from("bin"), String::from("target")]),
    );
    let (reqs, act) = f.poll();
    assert!(reqs.is_empty());
    match act {
        Some(Action::Launch { blob, port, binary }) => {
            assert_eq!(blob, "{}");
            assert_eq!(port, 7);
            assert_eq!(binary, vec![String::from("bin"), String::from("target")]);
        },
        _ => panic!("expected the launch"),
    }
    assert!(f.started);
    // Polling stopped for good.
    let (reqs, act) = f.poll();
    assert!(reqs.is_empty() && act.is_none());
}

#[test]
fn fuzzing_screen_warns_on_wrong_kind() {
    let mut f = FuzzingWindow::new();
    f.send_property(String::from("emu_opts"), PropValue::Port(1));
    let (reqs, act) = f.poll();
    assert!(act.is_none());
    assert_eq!(reqs.len(), 1);
    match &reqs[0] {
        Request::Popup(p) => {
            assert!(matches!(p.popup_type, PopupType::Warning));
            assert_eq!(p.message, "Unexpected Type for emu_opts");
        },
        _ => panic!("expected a warning popup"),
    }
}

#[test]
fn fuzzing_launch_failure_surfaces_as_warning() {
    let mut f = FuzzingWindow::new();
    let (reqs, act) =
        f.handle_outcome(Outcome::LaunchResult(Some(String::from("Fork failed"))));
    assert!(act.is_none());
    assert_eq!(reqs.len(), 1);
    match &reqs[0] {
        Request::Popup(p) => {
            assert!(matches!(p.popup_type, PopupType::Warning));
            assert_eq!(p.message, "Fork failed");
        },
        _ => panic!("expected a warning popup"),
    }
}
