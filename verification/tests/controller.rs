use autoclicker::app::{AutoclickerApp, AutoclickerMode, HotkeyCode, MouseButton, PressKey};

#[test]
fn new_has_documented_defaults() {
    let app = AutoclickerApp::new();
    assert!(!app.running);
    assert!(app.mode == AutoclickerMode::Click);
    assert!(app.click_type == MouseButton::Left);
    assert!(app.key_press_type == PressKey::Space);
    assert_eq!(app.s, 1);
    assert_eq!(app.s_str, "1");
    assert_eq!(app.ms, 0);
    assert_eq!(app.ms_str, "0");
    assert!(!app.hold);
    assert_eq!(app.hold_s, 0);
    assert_eq!(app.hold_s_str, "0");
    assert_eq!(app.hold_ms, 100);
    assert_eq!(app.hold_ms_str, "100");
    assert!(app.hotkey == HotkeyCode::F6);
    assert!(!app.hotkey_pressed);
}

#[test]
fn start_captures_interval_and_hold() {
    let mut app = AutoclickerApp::new();
    let cfg = app.start().expect("first start must hand out a loop");
    assert_eq!(cfg.interval_ms, 1000);
    assert_eq!(cfg.hold_ms, 100);
    assert!(cfg.mode == AutoclickerMode::Click);
    assert!(cfg.click_type == MouseButton::Left);
    assert!(app.running);
}

#[test]
fn start_is_idempotent_while_running() {
    let mut app = AutoclickerApp::new();
    assert!(app.start().is_some());
    // a second start while running hands out no second loop
    assert!(app.start().is_none());
    assert!(app.start().is_none());
    assert!(app.running);
}

#[test]
fn stop_then_start_resumes() {
    let mut app = AutoclickerApp::new();
    assert!(app.start().is_some());
    app.stop();
    assert!(!app.running);
    // after a stop, a start hands out exactly one fresh loop
    assert!(app.start().is_some());
    assert!(app.start().is_none());
    assert!(app.running);
}

#[test]
fn repeated_stop_start_cycles_hand_out_one_loop_each() {
    let mut app = AutoclickerApp::new();
    let mut loops_handed_out = 0;
    for _ in 0..10 {
        if app.start().is_some() {
            loops_handed_out += 1;
        }
        app.stop();
    }
    assert_eq!(loops_handed_out, 10);
}

#[test]
fn start_combines_seconds_and_milliseconds() {
    let mut app = AutoclickerApp::new();
    app.s = 2;
    app.ms = 500;
    app.hold_s = 1;
    app.hold_ms = 50;
    let cfg = app.start().expect("start from stopped");
    assert_eq!(cfg.interval_ms, 2500);
    assert_eq!(cfg.hold_ms, 1050);
}

#[test]
fn hotkey_held_down_toggles_exactly_once() {
    let mut app = AutoclickerApp::new();
    let mut toggles = 0;
    // the key goes down and stays down for many polls
    for _ in 0..20 {
        let was_running = app.running;
        let spawn = app.hotkey_tick(true);
        if app.running != was_running {
            toggles += 1;
        }
        if was_running {
            assert!(spawn.is_none());
        }
    }
    assert_eq!(toggles, 1);
    assert!(app.running);
}

#[test]
fn hotkey_release_then_press_toggles_again() {
    let mut app = AutoclickerApp::new();
    assert!(app.hotkey_tick(true).is_some()); // rising edge: start
    assert!(app.running);
    assert!(app.hotkey_tick(true).is_none()); // still held: nothing
    assert!(app.hotkey_tick(false).is_none()); // released: rearmed
    assert!(app.hotkey_tick(true).is_none()); // rising edge again: stop
    assert!(!app.running);
    assert!(app.hotkey_tick(false).is_none());
    assert!(app.hotkey_tick(true).is_some()); // and once more: start
    assert!(app.running);
}

#[test]
fn refresh_sanitizes_and_parses_every_field() {
    let mut app = AutoclickerApp::new();
    app.s_str = String::from("007");
    app.ms_str = String::from("abc123");
    app.hold_s_str = String::from("1234567");
    app.hold_ms_str = String::from("no digits");
    app.refresh_numeric_fields();
    assert_eq!(app.s_str, "7");
    assert_eq!(app.s, 7);
    assert_eq!(app.ms_str, "123");
    assert_eq!(app.ms, 123);
    assert_eq!(app.hold_s_str, "12345");
    assert_eq!(app.hold_s, 12345);
    assert_eq!(app.hold_ms_str, "");
    assert_eq!(app.hold_ms, 0);
    // the rest of the controller is untouched
    assert!(!app.running);
    assert!(app.mode == AutoclickerMode::Click);
}
