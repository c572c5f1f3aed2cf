use kura::clipboard::{clipboard_backend, uri_list_entry, ClipboardBackend, ClipboardError};
use kura::component::Position;
use kura::error::Error;
use kura::form::Form;
use kura::form_field::FormField;
use kura::form_layout::{calculate_modal_area, LineColor};
use kura::mime_type::MimeTypeError;

#[test]
fn clipboard_backend_needs_wayland() {
    assert!(matches!(clipboard_backend(true), Ok(ClipboardBackend::Wayland)));
    assert!(matches!(clipboard_backend(false), Err(ClipboardError::UnsupportedPlatform)));
    assert_eq!(uri_list_entry("/pics/a b.png"), "file:///pics/a b.png\n");
}

#[test]
fn errors_convert() {
    let e: ClipboardError = MimeTypeError::UnknownFormat.into();
    assert!(matches!(e, ClipboardError::MimeType(MimeTypeError::UnknownFormat)));
    let e: Error = ClipboardError::MissingExtension.into();
    assert!(matches!(e, Error::Clipboard(ClipboardError::MissingExtension)));
    let e: Error = std::io::Error::other("x").into();
    assert!(matches!(e, Error::Io(_)));
    let e: Error = MimeTypeError::UnknownFormat.into();
    assert!(matches!(e, Error::MimeType(_)));
    let p = Position { x: 1, y: 2 };
    assert_eq!(p, Position { x: 1, y: 2 });
}

#[test]
fn modal_area_is_centred() {
    assert_eq!(calculate_modal_area(100, 50, 75, 12), (12, 19, 75, 12));
    assert_eq!(calculate_modal_area(40, 10, 75, 30), (0, 0, 40, 10));
    assert_eq!(calculate_modal_area(60, 20, 50, 6), (10, 7, 40, 6));
    assert_eq!(calculate_modal_area(30, 20, 75, 6), (0, 7, 30, 6));
}

#[test]
fn form_layout_lines() {
    let mut f = Form::new("T".to_string())
        .add_field(FormField::new("Name".to_string(), "a name".to_string(), true).with_hint("(req)".to_string()))
        .add_field(FormField::new("Tag".to_string(), String::new(), false).with_value("x".to_string()));
    assert_eq!(f.desired_height(), 12);
    let lines = f.layout(1, 10);
    let texts: Vec<(u16, Vec<(&str, LineColor)>)> =
        lines.iter().map(|l| (l.y, l.spans.iter().map(|(s, c)| (s.as_str(), *c)).collect())).collect();
    assert_eq!(
        texts,
        vec![
            (1, vec![("> Name: ", LineColor::White), ("(req)", LineColor::DarkGray)]),
            (2, vec![("  a name", LineColor::DarkGray)]),
            (3, vec![("  Tag: ", LineColor::White)]),
            (4, vec![("  x", LineColor::White)]),
            (10, vec![("Tab/Shift+Tab: navigate  |  Enter: submit  |  Esc: cancel", LineColor::DarkGray)]),
        ]
    );
    f.set_form_error(Some("oops".to_string()));
    f.handle_key(&kura::key::Key::plain(kura::key::KeyCode::Tab));
    let lines = f.layout(0, 5);
    let texts: Vec<(u16, String)> = lines.iter().map(|l| (l.y, l.spans[0].0.clone())).collect();
    assert_eq!(
        texts,
        vec![
            (0, "Error: oops".to_string()),
            (2, "> Name: ".to_string()),
            (3, "  a name".to_string()),
            (4, "  Name is required".to_string()),
        ]
    );
    assert_eq!(lines[2].spans[0].1, LineColor::Red);
}

#[test]
fn modal_area_always_fits() {
    for tw in [0u16, 1, 39, 40, 41, 80, 200] {
        for th in [0u16, 1, 5, 24, 60] {
            for dh in [0u16, 3, 12, 100] {
                let (x, y, w, h) = calculate_modal_area(tw, th, 75, dh);
                assert!(w <= tw && h <= th && h <= dh);
                assert!(x + w <= tw && tw - (x + w) >= x);
                assert!(y + h <= th && th - (y + h) >= y);
            }
        }
    }
}

#[test]
fn form_lines_go_down_inside_the_area() {
    let mut f = Form::new("T".to_string())
        .add_field(FormField::new("A".to_string(), "p".to_string(), true))
        .add_field(FormField::new("B".to_string(), String::new(), true))
        .add_field(FormField::new("C".to_string(), String::new(), false));
    f.set_form_error(Some("e".to_string()));
    f.handle_key(&kura::key::Key::plain(kura::key::KeyCode::Enter));
    for height in 1u16..16 {
        let lines = f.layout(3, height);
        for pair in lines.windows(2) {
            assert!(pair[0].y < pair[1].y);
        }
        for l in &lines {
            assert!(3 <= l.y && l.y < 3 + height);
        }
    }
}

#[test]
fn desired_height_counts_fields_as_u16() {
    let mut f = Form::new("Many".to_string());
    for _ in 0..65537 {
        f = f.add_field(FormField::new("F".to_string(), String::new(), false));
    }
    assert_eq!(f.desired_height(), 9);
}

#[test]
fn layout_reaches_the_last_row_of_a_tall_terminal() {
    let f = Form::new("T".to_string())
        .add_field(FormField::new("A".to_string(), String::new(), false));
    let lines = f.layout(1, 65534);
    assert_eq!(lines.len(), 3);
    assert_eq!(lines[0].y, 1);
    assert_eq!(lines[1].y, 2);
    assert_eq!(lines[2].y, 65534);
}
