use ha_tui::input_modal::{InputKeyOutcome, InputModalKind, InputModalState};
use ha_tui::wizard::Key;

fn modal(kind: InputModalKind, value: &str) -> InputModalState {
    InputModalState::open("home".to_string(), "input_x.y".to_string(), "Y".to_string(), kind, value.to_string())
}

#[test]
fn opening_puts_the_cursor_at_the_end() {
    let m = modal(InputModalKind::Text { min_length: 0, max_length: 100, password: false }, "héllo");
    assert_eq!(m.buffer, "héllo");
    assert_eq!(m.cursor, 6);
    assert!(m.error.is_none());
}

#[test]
fn number_takes_digits_point_and_leading_minus() {
    let mut m = modal(InputModalKind::Number, "");
    assert_eq!(m.key(Key::Char('-')), InputKeyOutcome::Handled);
    assert_eq!(m.key(Key::Char('1')), InputKeyOutcome::Handled);
    m.key(Key::Char('.'));
    m.key(Key::Char('5'));
    m.key(Key::Char('-'));
    m.key(Key::Char('x'));
    assert_eq!(m.buffer, "-1.5");
    assert_eq!(m.cursor, 4);
    assert_eq!(m.key(Key::Up), InputKeyOutcome::Step(true));
    assert_eq!(m.key(Key::Down), InputKeyOutcome::Step(false));
    assert_eq!(m.buffer, "-1.5");
}

#[test]
fn backspace_drops_a_character_and_clears_the_error() {
    let mut m = modal(InputModalKind::Text { min_length: 0, max_length: 10, password: true }, "ab");
    m.error = Some("too short".to_string());
    m.key(Key::Backspace);
    assert_eq!(m.buffer, "a");
    assert_eq!(m.cursor, 1);
    assert!(m.error.is_none());
    m.key(Key::Backspace);
    m.key(Key::Backspace);
    assert_eq!(m.buffer, "");
    assert_eq!(m.cursor, 0);
}

#[test]
fn select_moves_within_its_options_and_ignores_typing() {
    let mut m = modal(InputModalKind::Select { options: vec!["a".to_string(), "b".to_string()], selected: 0 }, "a");
    m.key(Key::Up);
    m.key(Key::Down);
    m.key(Key::Down);
    m.key(Key::Char('z'));
    assert_eq!(m.buffer, "a");
    match &m.kind {
        InputModalKind::Select { selected, .. } => assert_eq!(*selected, 1),
        other => panic!("unexpected {other:?}"),
    }
    m.key(Key::Up);
    match &m.kind {
        InputModalKind::Select { selected, .. } => assert_eq!(*selected, 0),
        other => panic!("unexpected {other:?}"),
    }
}

#[test]
fn enter_submits_and_set_buffer_replaces_the_text() {
    let mut m = modal(InputModalKind::DateTime { has_date: true, has_time: false }, "2024-01-01");
    assert_eq!(m.key(Key::Enter), InputKeyOutcome::Submit);
    m.error = Some("bad".to_string());
    m.set_buffer("7".to_string());
    assert_eq!(m.buffer, "7");
    assert_eq!(m.cursor, 1);
    assert!(m.error.is_none());
    m.key(Key::Char('x'));
    assert_eq!(m.buffer, "7x");
}
