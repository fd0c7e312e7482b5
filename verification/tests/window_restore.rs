use std::cell::RefCell;

use voice_vibe_local::window::{restore_main_window, MainWindowLifecycle};

struct FakeMainWindow {
    calls: RefCell<Vec<&'static str>>,
    fail_on: Option<&'static str>,
}

impl FakeMainWindow {
    fn new() -> Self {
        Self {
            calls: RefCell::new(Vec::new()),
            fail_on: None,
        }
    }

    fn step(&self, name: &'static str) -> Result<(), String> {
        self.calls.borrow_mut().push(name);
        if self.fail_on == Some(name) {
            Err(format!("{name} failed"))
        } else {
            Ok(())
        }
    }
}

impl MainWindowLifecycle for FakeMainWindow {
    fn show(&self) -> Result<(), String> {
        self.step("show")
    }

    fn unminimize(&self) -> Result<(), String> {
        self.step("unminimize")
    }

    fn set_focus(&self) -> Result<(), String> {
        self.step("set_focus")
    }
}

#[test]
fn restore_main_window_shows_unminimizes_and_focuses_window() {
    let window = FakeMainWindow::new();

    restore_main_window(&window).expect("restore main window");

    assert_eq!(
        window.calls.borrow().as_slice(),
        ["show", "unminimize", "set_focus"]
    );
}

#[test]
fn restore_stops_at_the_first_failing_step() {
    let window = FakeMainWindow {
        calls: RefCell::new(Vec::new()),
        fail_on: Some("unminimize"),
    };

    assert_eq!(
        restore_main_window(&window),
        Err("unminimize failed".to_string())
    );
    assert_eq!(window.calls.borrow().as_slice(), ["show", "unminimize"]);
}
