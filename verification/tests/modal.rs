use arangotui::modal::{InputModal, DEFAULT_DOCUMENT_COUNT};
use arangotui::view::Key;

fn typed(keys: &str) -> InputModal {
    let mut modal = InputModal::new();
    modal.open();
    for c in keys.chars() {
        assert_eq!(modal.handle_key(Key::Char(c)), None);
    }
    modal
}

#[test]
fn a_new_entry_is_closed() {
    let modal = InputModal::new();
    assert!(!modal.is_active());
    assert_eq!(modal.text(), None);
}

#[test]
fn the_entry_opens_with_no_text() {
    let mut modal = InputModal::new();
    modal.open();
    assert!(modal.is_active());
    assert_eq!(modal.text(), Some(""));
}

#[test]
fn the_default_count_is_ten() {
    assert_eq!(DEFAULT_DOCUMENT_COUNT, 10);
}

#[test]
fn digits_are_added_at_the_end() {
    let mut modal = InputModal::new();
    modal.open();
    assert_eq!(modal.handle_key(Key::Char('5')), None);
    assert_eq!(modal.text(), Some("5"));
    assert_eq!(modal.handle_key(Key::Char('0')), None);
    assert_eq!(modal.text(), Some("50"));
    assert_eq!(modal.handle_key(Key::Char('7')), None);
    assert_eq!(modal.text(), Some("507"));
    assert_eq!(modal.handle_key(Key::Enter), Some(507));
}

#[test]
fn other_characters_are_not_added() {
    let mut modal = typed("42");
    for c in ['a', 'q', ' ', '-', '+', '.', 'j', 'k', 'g'] {
        assert_eq!(modal.handle_key(Key::Char(c)), None);
        assert_eq!(modal.text(), Some("42"));
    }
}

#[test]
fn backspace_takes_the_last_character() {
    let mut modal = typed("10");
    assert_eq!(modal.handle_key(Key::Backspace), None);
    assert_eq!(modal.text(), Some("1"));
    assert_eq!(modal.handle_key(Key::Backspace), None);
    assert_eq!(modal.text(), Some(""));
    assert_eq!(modal.handle_key(Key::Backspace), None);
    assert_eq!(modal.text(), Some(""));
    assert!(modal.is_active());
}

#[test]
fn typing_one_then_zero_confirms_ten() {
    let mut modal = InputModal::new();
    modal.open();
    assert_eq!(modal.handle_key(Key::Char('1')), None);
    assert_eq!(modal.text(), Some("1"));
    assert_eq!(modal.handle_key(Key::Char('0')), None);
    assert_eq!(modal.text(), Some("10"));
    assert_eq!(modal.handle_key(Key::Enter), Some(10));
    assert!(!modal.is_active());
}

#[test]
fn an_empty_text_confirms_the_default() {
    let mut modal = InputModal::new();
    modal.open();
    assert_eq!(modal.handle_key(Key::Enter), Some(10));
    assert!(!modal.is_active());
}

#[test]
fn a_text_emptied_again_confirms_the_default() {
    let mut modal = typed("7");
    assert_eq!(modal.handle_key(Key::Backspace), None);
    assert_eq!(modal.text(), Some(""));
    assert_eq!(modal.handle_key(Key::Enter), Some(10));
}

#[test]
fn a_count_too_large_confirms_the_default() {
    let mut modal = typed("99999999999999999999999999999");
    assert_eq!(modal.handle_key(Key::Enter), Some(10));
}

#[test]
fn zero_and_leading_zeros_are_counts() {
    let mut modal = typed("0");
    assert_eq!(modal.handle_key(Key::Enter), Some(0));
    let mut modal = typed("0025");
    assert_eq!(modal.handle_key(Key::Enter), Some(25));
}

#[test]
fn escape_closes_the_entry_without_a_count() {
    let mut modal = typed("42");
    assert_eq!(modal.handle_key(Key::Esc), None);
    assert!(!modal.is_active());
    assert_eq!(modal.text(), None);
}

#[test]
fn other_keys_leave_the_entry_as_it_is() {
    let mut modal = typed("42");
    for key in [Key::Up, Key::Down, Key::PageUp, Key::PageDown, Key::Other] {
        assert_eq!(modal.handle_key(key), None);
        assert!(modal.is_active());
        assert_eq!(modal.text(), Some("42"));
    }
}

#[test]
fn a_closed_entry_takes_no_key() {
    let mut modal = InputModal::new();
    for key in [Key::Char('5'), Key::Backspace, Key::Enter, Key::Esc, Key::Down] {
        assert_eq!(modal.handle_key(key), None);
        assert!(!modal.is_active());
    }
}

#[test]
fn opening_again_starts_with_no_text() {
    let mut modal = typed("777");
    assert_eq!(modal.handle_key(Key::Esc), None);
    modal.open();
    assert_eq!(modal.text(), Some(""));
    assert_eq!(modal.handle_key(Key::Char('3')), None);
    assert_eq!(modal.handle_key(Key::Enter), Some(3));
    modal.open();
    assert_eq!(modal.text(), Some(""));
}
