use kura::form_layout::LineColor;
use kura::images::{Image, ImageRow, ImageWithTags};
use kura::key::{Key, KeyCode};
use kura::image_protocol_cache::ImageProtocolCache;
use kura::tui::{preview_neighbors, Action, Effect, FollowUp, KuraState, TuiEvent};

fn images(names: &[&str]) -> Vec<ImageWithTags> {
    let rows = names
        .iter()
        .map(|n| ImageRow {
            id: Some(1),
            hash: n.to_string(),
            name: n.to_string(),
            file_path: format!("/p/{n}.png"),
            created_at: "2024-01-01 00:00:00".to_string(),
            tag_id: None,
            tag_image_hash: None,
            tag: None,
            tag_created_at: None,
        })
        .collect();
    Image::from_rows(rows).unwrap()
}

fn key(c: KeyCode) -> TuiEvent {
    TuiEvent::Key(Key::plain(c))
}

#[test]
fn browsing() {
    let mut s = KuraState::new(images(&["a", "b", "c"]));
    assert_eq!(s.selected(), Some(0));
    assert_eq!(s.handle_event(&key(KeyCode::Char('k'))), (None, Effect::Nothing));
    assert_eq!(s.handle_event(&key(KeyCode::Char('j'))), (None, Effect::LoadPreview));
    assert_eq!(s.handle_event(&key(KeyCode::Down)), (None, Effect::LoadPreview));
    assert_eq!(s.handle_event(&key(KeyCode::Down)), (None, Effect::Nothing));
    assert_eq!(s.selected(), Some(2));
    assert_eq!(s.handle_event(&key(KeyCode::Up)), (None, Effect::LoadPreview));
    assert_eq!(s.handle_event(&key(KeyCode::Enter)), (None, Effect::CopyImage("/p/b.png".to_string())));
    assert_eq!(s.handle_event(&key(KeyCode::Char('o'))), (None, Effect::OpenImage("/p/b.png".to_string())));
    assert_eq!(s.selected_image().unwrap().image.name, "b");
    assert!(!s.should_quit());
    s.handle_event(&TuiEvent::Other);
    s.handle_event(&key(KeyCode::Char('q')));
    assert!(s.should_quit());
}

#[test]
fn rename_flow() {
    let mut s = KuraState::new(images(&["cat", "dog"]));
    s.handle_event(&key(KeyCode::Char('r')));
    let (t, err, title) = s.active_input().unwrap();
    assert_eq!((t.value(), err, title), ("cat", None, "Rename"));
    s.handle_event(&key(KeyCode::Char('s')));
    let r = s.handle_event(&key(KeyCode::Enter));
    assert_eq!(r, (Some(Action::Rename { index: 0, new_name: "cats".to_string() }), Effect::Nothing));
    let action = r.0.unwrap();
    let f = s.finish_action(&action, Err("An image with name cats already exists".to_string()));
    assert_eq!(f, FollowUp { reload: false, reload_preview: false });
    assert_eq!(s.active_input().unwrap().1, Some("An image with name cats already exists"));
    s.handle_event(&TuiEvent::Tick);
    assert_eq!(s.active_input().unwrap().1, None);
    let f = s.finish_action(&action, Ok(()));
    assert_eq!(f, FollowUp { reload: true, reload_preview: true });
    assert!(s.active_input().is_none());
    s.handle_event(&key(KeyCode::Char('r')));
    s.handle_event(&key(KeyCode::Esc));
    assert!(s.active_input().is_none());
}

#[test]
fn tag_and_untag_flow() {
    let mut s = KuraState::new(images(&["cat"]));
    s.handle_event(&key(KeyCode::Char('t')));
    assert_eq!(s.active_input().unwrap().2, "Add tag");
    assert_eq!(s.handle_event(&key(KeyCode::Enter)), (None, Effect::Nothing));
    s.handle_event(&key(KeyCode::Char('x')));
    let r = s.handle_event(&key(KeyCode::Enter));
    assert_eq!(r.0, Some(Action::Tag { index: 0, tag: "x".to_string() }));
    let f = s.finish_action(&r.0.unwrap(), Err("db".to_string()));
    assert_eq!(f.reload, false);
    assert_eq!(s.active_input().unwrap().1, Some("db"));
    s.handle_event(&key(KeyCode::Esc));
    assert!(s.active_input().is_none());
    s.handle_event(&key(KeyCode::Char('u')));
    assert_eq!(s.active_input().unwrap().2, "Remove tag");
    s.handle_event(&key(KeyCode::Char('x')));
    let r = s.handle_event(&key(KeyCode::Enter));
    assert_eq!(r.0, Some(Action::Untag { index: 0, tag: "x".to_string() }));
    let f = s.finish_action(&r.0.unwrap(), Ok(()));
    assert_eq!(f, FollowUp { reload: true, reload_preview: false });
    assert!(s.active_input().is_none());
}

#[test]
fn empty_browser_opens_no_input() {
    let mut s = KuraState::new(vec![]);
    assert_eq!(s.selected(), None);
    s.handle_event(&key(KeyCode::Char('r')));
    s.handle_event(&key(KeyCode::Char('t')));
    s.handle_event(&key(KeyCode::Char('u')));
    assert!(s.active_input().is_none());
    assert_eq!(s.handle_event(&key(KeyCode::Enter)), (None, Effect::Nothing));
}

#[test]
fn reloading_keeps_the_position() {
    let mut s = KuraState::new(images(&["a", "b", "c"]));
    s.handle_event(&key(KeyCode::Down));
    s.handle_event(&key(KeyCode::Down));
    s.replace_images(images(&["a", "b"]));
    assert_eq!(s.selected(), Some(1));
    s.replace_images(vec![]);
    assert_eq!(s.selected(), None);
    s.replace_images(images(&["z"]));
    assert_eq!(s.selected(), Some(0));
    assert_eq!(s.images().len(), 1);
    assert!(s.shows_preview_of(0));
    assert!(!s.shows_preview_of(1));
}

#[test]
fn neighbours_to_prepare() {
    assert_eq!(preview_neighbors(0, 1), Vec::<usize>::new());
    assert_eq!(preview_neighbors(0, 5), vec![1, 2]);
    assert_eq!(preview_neighbors(1, 5), vec![0, 2, 3]);
    assert_eq!(preview_neighbors(3, 5), vec![1, 2, 4]);
    assert_eq!(preview_neighbors(4, 10), vec![2, 3, 5, 6]);
}

fn tagged(rows: &[(&str, &str, Option<&str>)]) -> Vec<ImageWithTags> {
    let rows = rows
        .iter()
        .map(|(hash, path, tag)| ImageRow {
            id: Some(1),
            hash: hash.to_string(),
            name: hash.to_string(),
            file_path: path.to_string(),
            created_at: "2024-01-01 00:00:00".to_string(),
            tag_id: tag.map(|_| 7),
            tag_image_hash: tag.map(|_| hash.to_string()),
            tag: tag.map(|t| t.to_string()),
            tag_created_at: tag.map(|_| "2024-01-01 00:00:00".to_string()),
        })
        .collect();
    Image::from_rows(rows).unwrap()
}

#[test]
fn preview_pane_texts() {
    let mut s = KuraState::new(tagged(&[
        ("a", "/p/a.gif", Some("cat")),
        ("a", "/p/a.gif", Some("cute")),
        ("b", "/p/b.PNG", None),
        ("c", "/p/c.WEBP", None),
    ]));
    assert_eq!(s.preview_title(), "Preview  [animated \u{2014} press o to open]");
    assert_eq!(
        s.tag_line(),
        vec![
            ("cat".to_string(), LineColor::Yellow),
            ("  ".to_string(), LineColor::Plain),
            ("cute".to_string(), LineColor::Yellow),
            ("  ".to_string(), LineColor::Plain),
        ]
    );
    assert_eq!(s.preview_message(), "Loading...");
    s.handle_event(&key(KeyCode::Down));
    assert_eq!(s.preview_title(), "Preview");
    assert_eq!(s.tag_line(), vec![("no tags".to_string(), LineColor::DarkGray)]);
    s.handle_event(&key(KeyCode::Down));
    assert_eq!(s.preview_title(), "Preview  [animated \u{2014} press o to open]");

    let empty = KuraState::new(vec![]);
    assert_eq!(empty.preview_title(), "Preview");
    assert!(empty.tag_line().is_empty());
    assert_eq!(empty.preview_message(), "No images found.");
}

#[test]
fn neighbours_not_yet_prepared() {
    let mut s = KuraState::new(images(&["a", "b", "c", "d", "e"]));
    let mut cache: ImageProtocolCache<u8> = ImageProtocolCache::new();
    assert_eq!(s.neighbors_to_prepare(&cache), vec![1, 2]);
    cache.insert("b".to_string(), 1);
    assert_eq!(s.neighbors_to_prepare(&cache), vec![2]);
    s.handle_event(&key(KeyCode::Down));
    s.handle_event(&key(KeyCode::Down));
    assert_eq!(s.neighbors_to_prepare(&cache), vec![0, 3, 4]);
    let empty = KuraState::new(vec![]);
    assert!(empty.neighbors_to_prepare(&cache).is_empty());
}
