use overlay_shell::window::{CursorCommand, StartupError, WindowState};

#[test]
fn startup_succeeds_when_every_checked_call_succeeds() {
    let w = WindowState::startup(true, true, true, true).unwrap();
    assert!(w.always_on_top);
    assert!(w.skip_taskbar);
    assert!(!w.decorations);
    assert!(w.transparent);
    assert!(w.ignore_cursor_events);
    assert_eq!(w, WindowState::startup_state());
}

#[test]
fn startup_window_not_found_is_fatal() {
    assert_eq!(
        WindowState::startup(false, true, true, true),
        Err(StartupError::WindowNotFound)
    );
}

#[test]
fn startup_surfaces_first_failure_in_order() {
    assert_eq!(
        WindowState::startup(true, false, false, false),
        Err(StartupError::SkipTaskbarFailed)
    );
    assert_eq!(
        WindowState::startup(true, true, false, false),
        Err(StartupError::DecorationsFailed)
    );
    assert_eq!(
        WindowState::startup(true, true, true, false),
        Err(StartupError::IgnoreCursorFailed)
    );
}

#[test]
fn startup_leaves_window_click_through() {
    assert!(WindowState::startup_state().ignore_cursor_events);
}

#[test]
fn set_interactive_then_set_ignore() {
    let mut w = WindowState::startup_state();
    w.set_interactive();
    assert!(!w.ignore_cursor_events);
    w.set_ignore();
    assert!(w.ignore_cursor_events);
}

#[test]
fn toggles_keep_other_attributes() {
    let mut w = WindowState::startup_state();
    w.set_interactive();
    w.set_ignore();
    w.set_interactive();
    assert!(w.always_on_top);
    assert!(w.skip_taskbar);
    assert!(!w.decorations);
    assert!(w.transparent);
}

#[test]
fn set_ignore_twice_is_idempotent() {
    let mut w = WindowState::startup_state();
    w.set_ignore();
    w.set_ignore();
    assert!(w.ignore_cursor_events);
    let mut v = WindowState::startup_state();
    v.set_ignore();
    assert_eq!(w, v);
}

#[test]
fn set_interactive_twice_is_idempotent() {
    let mut w = WindowState::startup_state();
    w.set_interactive();
    w.set_interactive();
    assert!(!w.ignore_cursor_events);
    let mut v = WindowState::startup_state();
    v.set_interactive();
    assert_eq!(w, v);
}

#[test]
fn last_command_decides_cursor_mode() {
    let mut w = WindowState::startup_state();
    w.apply_all(&vec![
        CursorCommand::SetInteractive,
        CursorCommand::SetInteractive,
        CursorCommand::SetIgnore,
        CursorCommand::SetInteractive,
    ]);
    assert!(!w.ignore_cursor_events);

    let mut v = WindowState::startup_state();
    v.apply_all(&vec![
        CursorCommand::SetIgnore,
        CursorCommand::SetInteractive,
        CursorCommand::SetIgnore,
    ]);
    assert!(v.ignore_cursor_events);
}

#[test]
fn empty_command_sequence_keeps_initial_mode() {
    let mut w = WindowState::startup_state();
    w.apply_all(&vec![]);
    assert!(w.ignore_cursor_events);
    assert_eq!(w, WindowState::startup_state());
}

#[test]
fn apply_matches_the_named_setters() {
    let mut w = WindowState::startup_state();
    w.apply(CursorCommand::SetInteractive);
    assert!(!w.ignore_cursor_events);
    w.apply(CursorCommand::SetIgnore);
    assert!(w.ignore_cursor_events);
}
