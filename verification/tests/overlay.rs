use vibe_dictate::overlay::{nonempty, Command, Overlay, OverlayState};

#[test]
fn commands_come_out_in_order() {
    let mut overlay = Overlay::new();
    assert!(overlay.show_recording("F8", 3, Some("hello")));
    assert!(overlay.show_processing(None));
    assert!(overlay.show_partial("live"));
    assert!(overlay.hide_card());
    assert!(matches!(
        overlay.next_command(),
        Some(Command::Show(OverlayState::Recording { hotkey, elapsed_secs: 3, transcript: Some(t) }))
            if hotkey == "F8" && t == "hello"
    ));
    assert!(matches!(
        overlay.next_command(),
        Some(Command::Show(OverlayState::Processing { transcript: None }))
    ));
    assert!(matches!(
        overlay.next_command(),
        Some(Command::Show(OverlayState::Processing { transcript: Some(t) })) if t == "live"
    ));
    assert!(matches!(overlay.next_command(), Some(Command::Show(OverlayState::Hidden))));
    assert!(overlay.next_command().is_none());
}

#[test]
fn blank_transcripts_are_left_out() {
    assert_eq!(nonempty(None), None);
    assert_eq!(nonempty(Some("")), None);
    assert_eq!(nonempty(Some(" \t\r\n\u{a0}\u{3000}")), None);
    assert_eq!(nonempty(Some("  x ")), Some("  x ".to_string()));
    let mut overlay = Overlay::new();
    overlay.show_partial("\u{2003}");
    assert!(matches!(
        overlay.next_command(),
        Some(Command::Show(OverlayState::Processing { transcript: None }))
    ));
}

#[test]
fn only_the_last_handle_stops_the_thread() {
    let mut overlay = Overlay::new();
    overlay.add_handle();
    overlay.add_handle();
    assert_eq!(overlay.handle_count(), 3);
    assert!(overlay.drop_handle());
    assert!(overlay.drop_handle());
    assert!(overlay.next_command().is_none());
    assert!(overlay.hide_card());
    assert!(overlay.drop_handle());
    assert!(matches!(overlay.next_command(), Some(Command::Show(OverlayState::Hidden))));
    assert!(matches!(overlay.next_command(), Some(Command::Stop)));
    assert!(overlay.next_command().is_none());
}

#[test]
fn a_closed_card_takes_nothing() {
    let mut overlay = Overlay::new();
    overlay.show_processing(None);
    overlay.close();
    assert!(overlay.next_command().is_none());
    assert!(!overlay.show_recording("F8", 0, None));
    assert!(!overlay.set(OverlayState::Hidden));
    assert!(!overlay.drop_handle());
    assert!(overlay.next_command().is_none());
}

#[test]
fn the_stop_comes_once_and_behind_everything_else() {
    let mut overlay = Overlay::new();
    overlay.add_handle();
    assert!(overlay.show_partial("one"));
    assert!(overlay.drop_handle());
    assert!(overlay.hide_card());
    assert!(matches!(overlay.next_command(), Some(Command::Show(_))));
    assert!(overlay.drop_handle());
    assert_eq!(overlay.handle_count(), 0);
    assert!(matches!(overlay.next_command(), Some(Command::Show(OverlayState::Hidden))));
    assert!(matches!(overlay.next_command(), Some(Command::Stop)));
    assert!(overlay.next_command().is_none());
}

#[test]
fn a_closed_card_is_not_told_to_stop() {
    let mut overlay = Overlay::new();
    overlay.add_handle();
    overlay.close();
    assert!(overlay.drop_handle());
    assert!(!overlay.drop_handle());
    assert_eq!(overlay.handle_count(), 0);
    assert!(overlay.next_command().is_none());
    let mut told = Overlay::new();
    assert!(told.drop_handle());
    told.close();
    assert!(told.next_command().is_none());
}
