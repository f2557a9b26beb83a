use flashfuzz_tui::app::{App, Request};
use flashfuzz_tui::fuzzing_window::FuzzingWindow;
use flashfuzz_tui::keys::Key;
use flashfuzz_tui::main_window::MainWindow;
use flashfuzz_tui::popup::{Popup, PopupType};
use flashfuzz_tui::property::PropValue;
use flashfuzz_tui::window::Window;

#[test]
fn new_kernel_has_one_screen_and_seeded_port() {
    let app = App::new();
    assert_eq!(app.window_stack.len(), 1);
    assert!(matches!(app.window_stack[0], Window::Project(_)));
    assert!(app.popup.is_none());
    match app.properties.get(&String::from("port")) {
        Some(PropValue::Port(p)) => assert_eq!(*p, 1337),
        _ => panic!("default port missing"),
    }
}

#[test]
fn pop_window_is_a_no_op_on_a_stack_of_one() {
    let mut app = App::new();
    app.handle_request(Request::PopWindow);
    assert_eq!(app.window_stack.len(), 1);
    app.handle_request(Request::PushWindow(Window::Main(MainWindow::new())));
    assert_eq!(app.window_stack.len(), 2);
    app.handle_request(Request::PopWindow);
    assert_eq!(app.window_stack.len(), 1);
    app.handle_request(Request::PopWindow);
    app.handle_request(Request::PopWindow);
    assert_eq!(app.window_stack.len(), 1);
}

#[test]
fn get_property_absent_pops_screen_and_warns() {
    let mut app = App::new();
    app.handle_request(Request::PushWindow(Window::Main(MainWindow::new())));
    assert_eq!(app.window_stack.len(), 2);
    app.handle_request(Request::GetProperty(String::from("missing_key")));
    assert_eq!(app.window_stack.len(), 1);
    match &app.popup {
        Some(p) => {
            assert!(matches!(p.popup_type, PopupType::Warning));
            assert_eq!(
                p.message,
                "The requested property was not found in the application state: missing_key"
            );
        },
        None => panic!("expected a warning popup"),
    }
    // The store is untouched: the seeded port is still there, the key still absent.
    assert!(app.properties.get(&String::from("port")).is_some());
    assert!(app.properties.get(&String::from("missing_key")).is_none());
}

#[test]
fn get_property_present_delivers_to_active_screen() {
    let mut app = App::new();
    app.handle_request(Request::PushWindow(Window::Fuzzing(FuzzingWindow::new())));
    assert_eq!(app.window_stack.len(), 2);
    app.handle_request(Request::GetProperty(String::from("port")));
    assert_eq!(app.window_stack.len(), 2);
    assert!(app.popup.is_none());
    match app.window_stack.last() {
        Some(Window::Fuzzing(f)) => match f.properties.get(&String::from("port")) {
            Some(PropValue::Port(p)) => assert_eq!(*p, 1337),
            _ => panic!("delivered property missing or of the wrong kind"),
        },
        _ => panic!("active screen changed"),
    }
}

#[test]
fn push_property_overwrites() {
    let mut app = App::new();
    app.handle_request(Request::PushProperty(
        String::from("port"),
        PropValue::Port(8080),
    ));
    match app.properties.get(&String::from("port")) {
        Some(PropValue::Port(p)) => assert_eq!(*p, 8080),
        _ => panic!("port missing"),
    }
}

#[test]
fn popup_consumes_one_key_and_shields_the_screen() {
    let mut app = App::new();
    app.handle_request(Request::Popup(Popup::new(
        PopupType::Info,
        String::from("hello"),
    )));
    assert!(app.popup.is_some());
    let stack_len = app.window_stack.len();
    // 'q' would normally quit, but the popup consumes it.
    let (cont, act) = app.handle_input(Key::Char('q'));
    assert!(cont);
    assert!(act.is_none());
    assert!(app.popup.is_none());
    assert_eq!(app.window_stack.len(), stack_len);
    // The screen below did not see the key: a second 'q' now quits.
    let (cont2, _) = app.handle_input(Key::Char('q'));
    assert!(!cont2);
}

#[test]
fn quit_and_back_keys() {
    let mut app = App::new();
    let (cont, _) = app.handle_input(Key::Char('q'));
    assert!(!cont);

    let mut app = App::new();
    app.handle_request(Request::PushWindow(Window::Main(MainWindow::new())));
    let (cont, _) = app.handle_input(Key::Char('b'));
    assert!(cont);
    assert_eq!(app.window_stack.len(), 1);
    let (cont, _) = app.handle_input(Key::Char('b'));
    assert!(!cont);
}

#[test]
fn replacing_popup_is_unconditional() {
    let mut app = App::new();
    app.handle_request(Request::Popup(Popup::new(
        PopupType::Info,
        String::from("first"),
    )));
    app.handle_request(Request::Popup(Popup::new(
        PopupType::Success,
        String::from("second"),
    )));
    match &app.popup {
        Some(p) => {
            assert!(matches!(p.popup_type, PopupType::Success));
            assert_eq!(p.message, "second");
        },
        None => panic!("expected a popup"),
    }
}

#[test]
fn popup_titles() {
    assert_eq!(PopupType::Info.title(), "Info");
    assert_eq!(PopupType::Warning.title(), "Warning");
    assert_eq!(PopupType::Success.title(), "Success");
}
