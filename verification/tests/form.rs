use kura::form::{Form, FormEvent};
use kura::form_field::{FieldValidator, ForbidChar, FormField, FormFieldEvent};
use kura::key::{Key, KeyCode};

fn no_spaces() -> Box<dyn FieldValidator> {
    Box::new(ForbidChar::new(' ', "no spaces".to_string()))
}

fn k(c: KeyCode) -> Key {
    Key::plain(c)
}

fn type_text(f: &mut Form, s: &str) {
    for c in s.chars() {
        f.handle_key(&k(KeyCode::Char(c)));
    }
}

#[test]
fn field_basics() {
    let f = FormField::new("Name".to_string(), "type a name".to_string(), true)
        .with_hint("(required)".to_string())
        .with_value("abc".to_string());
    assert_eq!(f.label(), "Name");
    assert_eq!(f.placeholder(), "type a name");
    assert_eq!(f.hint(), Some("(required)"));
    assert_eq!(f.value(), "abc");
    assert_eq!(f.display(), "abc|");
    assert_eq!(f.error(), None);
}

#[test]
fn required_field_validation() {
    let mut f = FormField::new("Name".to_string(), String::new(), true);
    assert_eq!(f.validate(), Err("Name is required".to_string()));
    assert_eq!(f.error(), Some("Name is required"));
    f.set_value("x".to_string());
    assert_eq!(f.error(), None);
    assert_eq!(f.validate(), Ok(()));
    f.set_placeholder("p".to_string());
    assert_eq!(f.placeholder(), "p");
}

#[test]
fn validator_decides_after_required_check() {
    let mut f = FormField::new("Tag".to_string(), String::new(), false).with_validator(no_spaces());
    assert_eq!(f.validate(), Ok(()));
    f.set_value("a b".to_string());
    assert_eq!(f.validate(), Err("no spaces".to_string()));
    assert_eq!(f.error(), Some("no spaces"));
    f.clear_error();
    assert_eq!(f.error(), None);
    assert_eq!(f.record_validation(Err("bad".to_string())), Err("bad".to_string()));
    assert_eq!(f.error(), Some("bad"));
    assert_eq!(f.record_validation(Ok(())), Ok(()));
    assert_eq!(f.error(), None);
}

#[test]
fn field_keys() {
    let mut f = FormField::new("Name".to_string(), String::new(), true);
    assert_eq!(f.handle_key(&k(KeyCode::BackTab)), FormFieldEvent::Previous);
    assert_eq!(f.handle_key(&k(KeyCode::Tab)), FormFieldEvent::Changed);
    assert_eq!(f.error(), Some("Name is required"));
    assert_eq!(f.handle_key(&k(KeyCode::Char('a'))), FormFieldEvent::Changed);
    assert_eq!(f.handle_key(&k(KeyCode::Tab)), FormFieldEvent::Blurred("a".to_string()));
    assert_eq!(f.error(), None);
    assert_eq!(f.handle_key(&k(KeyCode::Home)), FormFieldEvent::Changed);
    assert_eq!(f.handle_key(&k(KeyCode::Enter)), FormFieldEvent::Submitted("a".to_string()));
    assert_eq!(f.handle_key(&k(KeyCode::Esc)), FormFieldEvent::Cancelled);
    assert_eq!(f.value(), "");
}

fn two_field_form() -> Form {
    Form::new("New image".to_string())
        .add_field(FormField::new("Name".to_string(), String::new(), true))
        .add_field(FormField::new("Tag".to_string(), "optional".to_string(), false).with_validator(no_spaces()))
}

#[test]
fn empty_form_ignores_keys() {
    let mut f = Form::new("t".to_string());
    assert_eq!(f.handle_key(&k(KeyCode::Enter)), None);
    assert_eq!(f.focused_field(), 0);
    assert_eq!(f.field_value(0), None);
}

#[test]
fn tab_moves_focus_after_validation() {
    let mut f = two_field_form();
    assert_eq!(f.handle_key(&k(KeyCode::Tab)), None);
    assert_eq!(f.focused_field(), 0);
    type_text(&mut f, "cat");
    assert_eq!(
        f.handle_key(&k(KeyCode::Tab)),
        Some(FormEvent::FieldBlurred { field_index: 0, value: "cat".to_string() })
    );
    assert_eq!(f.focused_field(), 1);
    assert_eq!(
        f.handle_key(&k(KeyCode::Tab)),
        Some(FormEvent::FieldBlurred { field_index: 1, value: String::new() })
    );
    assert_eq!(f.focused_field(), 0);
    assert_eq!(f.handle_key(&k(KeyCode::BackTab)), None);
    assert_eq!(f.focused_field(), 1);
    assert_eq!(f.handle_key(&k(KeyCode::BackTab)), None);
    assert_eq!(f.focused_field(), 0);
}

#[test]
fn submit_validates_every_field() {
    let mut f = two_field_form();
    assert_eq!(f.handle_key(&k(KeyCode::Enter)), None);
    f.set_field_value(0, "cat".to_string());
    f.set_field_value(1, "a b".to_string());
    assert_eq!(f.handle_key(&k(KeyCode::Enter)), None);
    f.set_field_value(1, "ab".to_string());
    f.set_field_value(7, "ignored".to_string());
    f.set_field_placeholder(1, "later".to_string());
    assert_eq!(
        f.handle_key(&k(KeyCode::Enter)),
        Some(FormEvent::Submitted(vec!["cat".to_string(), "ab".to_string()]))
    );
    assert_eq!(f.field_value(0), Some("cat"));
    assert_eq!(f.field_value(1), Some("ab"));
    assert_eq!(f.handle_key(&k(KeyCode::Esc)), Some(FormEvent::Cancelled));
    assert_eq!(f.field_value(0), Some(""));
}

#[test]
fn form_error_and_title() {
    let mut f = two_field_form();
    assert_eq!(f.title(), "New image");
    assert_eq!(f.form_error(), None);
    f.set_form_error(Some("boom".to_string()));
    assert_eq!(f.form_error(), Some("boom"));
    f.set_form_error(None);
    assert_eq!(f.form_error(), None);
    assert_eq!(f.fields().len(), 2);
}

#[test]
fn submitted_forms_show_no_errors() {
    let mut f = two_field_form();
    f.set_field_value(1, "a b".to_string());
    assert_eq!(f.handle_key(&k(KeyCode::Enter)), None);
    assert_eq!(f.fields()[0].error(), Some("Name is required"));
    f.set_field_value(0, "cat".to_string());
    f.set_field_value(1, "ab".to_string());
    assert_eq!(
        f.handle_key(&k(KeyCode::Enter)),
        Some(FormEvent::Submitted(vec!["cat".to_string(), "ab".to_string()]))
    );
    assert!(f.fields().iter().all(|field| field.error().is_none()));
}

#[test]
fn forbidding_a_character() {
    let v = ForbidChar::new('/', "no slashes".to_string());
    assert_eq!(v.check("a/b"), Err("no slashes".to_string()));
    assert_eq!(v.check("ab"), Ok(()));
    assert_eq!(v.check(""), Ok(()));
}
