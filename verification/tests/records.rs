use kura::commands::{local_image_extension, CommandError};
use kura::images::{Image, ImageRow};
use kura::mime_type::MimeType;
use kura::paths::file_stem_for_name;
use kura::tags::NewTag;
use kura::types::{parse_created_at, ImageHash, RecordError};

fn row(hash: &str, tag: Option<(i64, &str)>) -> ImageRow {
    ImageRow {
        id: Some(1),
        hash: hash.to_string(),
        name: format!("name-{hash}"),
        file_path: format!("/pics/{hash}.png"),
        created_at: "2024-05-06 07:08:09".to_string(),
        tag_id: tag.map(|t| t.0),
        tag_image_hash: tag.map(|_| hash.to_string()),
        tag: tag.map(|t| t.1.to_string()),
        tag_created_at: tag.map(|_| "2024-05-06 07:08:10".to_string()),
    }
}

fn jiff_error_for(s: &str) -> String {
    jiff::civil::DateTime::strptime("%Y-%m-%d %H:%M:%S", s).unwrap_err().to_string()
}

#[test]
fn created_at_parses_sqlite_datetimes() {
    let c = parse_created_at("2024-05-06 07:08:09".to_string()).unwrap();
    assert_eq!(c.0.to_string(), "2024-05-06T07:08:09");
    match parse_created_at("yesterday".to_string()) {
        Err(RecordError::InvalidTimestamp(e)) => assert_eq!(e.to_string(), jiff_error_for("yesterday")),
        Ok(_) => panic!("parsed"),
    }
}

#[test]
fn rows_group_into_images_with_tags() {
    let rows = vec![row("a", Some((1, "cat"))), row("a", Some((2, "cute"))), row("b", None), row("c", Some((3, "dog")))];
    let images = Image::from_rows(rows).unwrap();
    assert_eq!(images.len(), 3);
    assert_eq!(images[0].image.hash, ImageHash("a".to_string()));
    assert_eq!(images[0].tags.iter().map(|t| t.tag.as_str()).collect::<Vec<_>>(), vec!["cat", "cute"]);
    assert_eq!(images[1].image.name, "name-b");
    assert!(images[1].tags.is_empty());
    assert_eq!(images[2].tags[0].id, 3);
    assert_eq!(images[2].tags[0].image_hash.as_str(), "c");
}

#[test]
fn bad_timestamp_stops_reading() {
    let mut bad = row("b", Some((5, "x")));
    bad.tag_created_at = Some("nope".to_string());
    bad.created_at = "also bad".to_string();
    let rows = vec![row("a", None), bad, row("c", None)];
    match Image::from_rows(rows) {
        Err(RecordError::InvalidTimestamp(e)) => assert_eq!(e.to_string(), jiff_error_for("nope")),
        Ok(_) => panic!("read"),
    }
    assert!(Image::from_rows(vec![]).unwrap().is_empty());
}

#[test]
fn image_paths_and_formats() {
    let images = Image::from_rows(vec![row("a", None)]).unwrap();
    let img = &images[0].image;
    assert_eq!(img.mime_type(), Some(MimeType::Png));
    assert_eq!(img.renamed_path("My Cat"), "/pics/my-cat.png");
    let mut other = img.clone();
    other.file_path = "/pics/noext".to_string();
    assert_eq!(other.mime_type(), None);
    assert_eq!(other.renamed_path("X Y"), "/pics/x-y");
    other.file_path = "/pics/a.TIFF".to_string();
    assert_eq!(other.mime_type(), None);
    other.file_path = "/pics/a.JPG".to_string();
    assert_eq!(other.mime_type(), Some(MimeType::Jpeg));
}

#[test]
fn file_stems_replace_spaces_and_lower_case() {
    assert_eq!(file_stem_for_name("Hello World"), "hello-world");
    assert_eq!(file_stem_for_name("ÉCOLE  Photo"), "école--photo");
}

#[test]
fn extensions_come_from_the_file_name() {
    assert_eq!(local_image_extension("/a/b.tar.png").unwrap(), "png");
    assert_eq!(local_image_extension("/a/.png").unwrap_err(), CommandError::NotAnImage);
    assert_eq!(local_image_extension("/a.png/b").unwrap_err(), CommandError::NotAnImage);
}

#[test]
fn new_tag_keeps_its_parts() {
    let h = ImageHash("abc".to_string());
    let t = NewTag::new(&h, "cat");
    assert_eq!(t.image_hash().as_str(), "abc");
    assert_eq!(t.tag(), "cat");
}

#[test]
fn cached_copies_are_named_by_hash() {
    let cache = kura::image_cache::ImageCache::new("/data/kura/cache".to_string());
    assert_eq!(cache.cache_dir(), "/data/kura/cache");
    assert_eq!(cache.cache_path("abc123"), "/data/kura/cache/abc123.jpg");
    assert_eq!(kura::image_cache::MAX_WIDTH, 1000);
    assert_eq!(kura::image_cache::MAX_HEIGHT, 1000);
}
