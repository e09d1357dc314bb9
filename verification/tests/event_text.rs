use crossterm::event::{KeyCode, KeyEvent, KeyModifiers, MouseButton, MouseEvent, MouseEventKind};
use crossterm_cffi::event_text::{event_c_string, event_text, TerminalEvent};

fn text(outcome: &std::io::Result<TerminalEvent>) -> String {
    String::from_utf8(event_text(outcome)).unwrap()
}

#[test]
fn resize_is_a_pair() {
    assert_eq!(text(&Ok(TerminalEvent::Resize(80, 24))), "(80, 24)");
    assert_eq!(text(&Ok(TerminalEvent::Resize(0, 65535))), "(0, 65535)");
    assert_eq!(text(&Ok(TerminalEvent::Resize(10, 9))), format!("{:?}", (10u16, 9u16)));
}

#[test]
fn focus_events_are_quoted_names() {
    assert_eq!(text(&Ok(TerminalEvent::FocusLost)), "\"FocusLost\"");
    assert_eq!(text(&Ok(TerminalEvent::FocusGained)), "\"FocusGained\"");
}

#[test]
fn paste_is_debug_quoted() {
    assert_eq!(text(&Ok(TerminalEvent::Paste("hi\n".to_string()))), "\"hi\\n\"");
    assert_eq!(text(&Ok(TerminalEvent::Paste("say \"x\"".to_string()))), "\"say \\\"x\\\"\"");
}

#[test]
fn key_and_mouse_use_crossterm_debug() {
    let key = KeyEvent::new(KeyCode::Char('q'), KeyModifiers::CONTROL);
    assert_eq!(text(&Ok(TerminalEvent::Key(key))), format!("{:?}", key));
    assert!(text(&Ok(TerminalEvent::Key(key))).starts_with("KeyEvent"));
    let mouse = MouseEvent {
        kind: MouseEventKind::Down(MouseButton::Left),
        column: 3,
        row: 4,
        modifiers: KeyModifiers::NONE,
    };
    assert_eq!(text(&Ok(TerminalEvent::Mouse(mouse))), format!("{:?}", mouse));
}

#[test]
fn read_error_is_unknown_event() {
    let err = std::io::Error::new(std::io::ErrorKind::Other, "gone");
    let expected = format!("Unknown event {:?}", err);
    assert_eq!(text(&Err(err)), expected);
    assert!(expected.starts_with("Unknown event Custom"));
}

#[test]
fn event_c_string_is_nul_terminated() {
    assert_eq!(event_c_string(&Ok(TerminalEvent::Resize(1, 2))), Some(b"(1, 2)\0".to_vec()));
    // a pasted NUL is escaped by Debug, so the C string is still produced
    assert_eq!(
        event_c_string(&Ok(TerminalEvent::Paste("\0".to_string()))),
        Some(b"\"\\0\"\0".to_vec())
    );
}

#[test]
fn ok_events_always_give_a_c_string() {
    let key = KeyEvent::new(KeyCode::Char('\0'), KeyModifiers::NONE);
    let c = event_c_string(&Ok(TerminalEvent::Key(key))).unwrap();
    let mut expected = format!("{:?}", key).into_bytes();
    expected.push(0);
    assert_eq!(c, expected);
    assert_eq!(c.iter().filter(|b| **b == 0).count(), 1);
    let mouse = MouseEvent {
        kind: MouseEventKind::ScrollUp,
        column: 0,
        row: 0,
        modifiers: KeyModifiers::SHIFT,
    };
    let c = event_c_string(&Ok(TerminalEvent::Mouse(mouse))).unwrap();
    assert_eq!(c.last(), Some(&0u8));
    assert!(event_c_string(&Ok(TerminalEvent::FocusGained)).is_some());
}
