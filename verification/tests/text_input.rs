use kura::key::{Key, KeyCode};
use kura::text_input::{TextInput, TextInputEvent};

fn plain(c: KeyCode) -> Key {
    Key::plain(c)
}

fn ctrl(c: char) -> Key {
    Key::with_ctrl(KeyCode::Char(c))
}

#[test]
fn new_puts_cursor_at_end() {
    let t = TextInput::new("héllo".to_string());
    assert_eq!(t.value(), "héllo");
    assert_eq!(t.display(), "héllo|");
    let d = TextInput::default();
    assert_eq!(d.value(), "");
    assert_eq!(d.display(), "|");
}

#[test]
fn typing_and_backspace() {
    let mut t = TextInput::default();
    for c in ['a', 'é', 'c'] {
        assert_eq!(t.handle_key(&plain(KeyCode::Char(c))), TextInputEvent::Changed);
    }
    assert_eq!(t.display(), "aéc|");
    t.handle_key(&plain(KeyCode::Left));
    t.handle_key(&plain(KeyCode::Backspace));
    assert_eq!(t.display(), "a|c");
    t.handle_key(&plain(KeyCode::Char('x')));
    t.handle_key(&plain(KeyCode::Backspace));
    assert_eq!(t.display(), "a|c");
    t.handle_key(&plain(KeyCode::Delete));
    assert_eq!(t.display(), "a|");
    t.handle_key(&plain(KeyCode::Delete));
    assert_eq!(t.display(), "a|");
    t.handle_key(&plain(KeyCode::Backspace));
    t.handle_key(&plain(KeyCode::Backspace));
    assert_eq!(t.display(), "|");
}

#[test]
fn cursor_keys() {
    let mut t = TextInput::new("ab".to_string());
    t.handle_key(&plain(KeyCode::Right));
    assert_eq!(t.display(), "ab|");
    t.handle_key(&ctrl('a'));
    assert_eq!(t.display(), "|ab");
    t.handle_key(&plain(KeyCode::Left));
    assert_eq!(t.display(), "|ab");
    t.handle_key(&plain(KeyCode::Right));
    assert_eq!(t.display(), "a|b");
    t.handle_key(&ctrl('e'));
    assert_eq!(t.display(), "ab|");
}

#[test]
fn enter_escape_and_ignored_keys() {
    let mut t = TextInput::new("name".to_string());
    assert_eq!(t.handle_key(&plain(KeyCode::Enter)), TextInputEvent::Submitted("name".to_string()));
    assert_eq!(t.value(), "name");
    assert_eq!(t.handle_key(&plain(KeyCode::Tab)), TextInputEvent::Ignored);
    assert_eq!(t.handle_key(&plain(KeyCode::Up)), TextInputEvent::Ignored);
    assert_eq!(t.handle_key(&plain(KeyCode::Esc)), TextInputEvent::Cancelled);
    assert_eq!(t.display(), "|");
}

#[test]
fn control_editing() {
    let mut t = TextInput::new("one two  three".to_string());
    t.handle_key(&ctrl('w'));
    assert_eq!(t.display(), "one two  |");
    t.handle_key(&ctrl('w'));
    assert_eq!(t.display(), "one |");
    t.handle_key(&ctrl('w'));
    assert_eq!(t.display(), "|");
    let mut t = TextInput::new("  word".to_string());
    t.handle_key(&ctrl('w'));
    assert_eq!(t.display(), "  |");
    let mut t = TextInput::new("abc def".to_string());
    t.handle_key(&plain(KeyCode::Left));
    t.handle_key(&plain(KeyCode::Left));
    t.handle_key(&ctrl('u'));
    assert_eq!(t.display(), "|ef");
    t.handle_key(&plain(KeyCode::Right));
    t.handle_key(&ctrl('k'));
    assert_eq!(t.display(), "e|");
    t.handle_key(&ctrl('x'));
    assert_eq!(t.display(), "ex|");
}

#[test]
fn word_delete_that_would_split_a_character_is_refused() {
    let t = TextInput::new("a\u{3000}bc".to_string());
    assert!(!t.accepts(&ctrl('w')));
    assert!(t.accepts(&ctrl('u')));
    let t = TextInput::new("a bc".to_string());
    assert!(t.accepts(&ctrl('w')));
}
