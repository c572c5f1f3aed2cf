use std::path::PathBuf;

use kura::commands::{add_source, destination_path, http_response, image_hash, list_line, local_image_extension, remove_target, AddSource, CommandError, RemoveTarget};
use kura::images::{Image, ImageRow};

#[test]
fn add_takes_exactly_one_source() {
    assert_eq!(add_source(Some(PathBuf::from("a.png")), Some("http://x".to_string())).unwrap_err(), CommandError::BothSources);
    assert_eq!(add_source(None, None).unwrap_err(), CommandError::NoSource);
    assert!(matches!(add_source(Some(PathBuf::from("a.png")), None), Ok(AddSource::File(p)) if p == PathBuf::from("a.png")));
    assert!(matches!(add_source(None, Some("http://x".to_string())), Ok(AddSource::Url(u)) if u == "http://x"));
}

#[test]
fn remove_prefers_hash_or_name() {
    assert!(matches!(remove_target(Some("cat".to_string()), Some(PathBuf::from("x"))), Ok(RemoveTarget::HashOrName(h)) if h == "cat"));
    assert!(matches!(remove_target(None, Some(PathBuf::from("x"))), Ok(RemoveTarget::FilePath(p)) if p == PathBuf::from("x")));
    assert_eq!(remove_target(None, None).unwrap_err(), CommandError::NoRemoveTarget);
}

#[test]
fn error_messages() {
    assert_eq!(CommandError::BothSources.message(), "Cannot provide both --file and --url");
    assert_eq!(CommandError::NoSource.message(), "Must provide either --file or --url");
    assert_eq!(CommandError::NoRemoveTarget.message(), "Must provide hash, name, or file_path to remove");
    assert_eq!(CommandError::ImageNotFound.message(), "Image not found");
    assert_eq!(CommandError::DuplicateImage("cat".to_string()).message(), "Duplicate image: already stored as 'cat'");
    assert_eq!(CommandError::NameTaken("cat".to_string()).message(), "An image with name cat already exists");
    assert_eq!(CommandError::FileMissing.message(), "File does not exist");
    assert_eq!(CommandError::NotAnImage.message(), "File needs to be a valid image");
}

#[test]
fn image_hash_is_hex_sha256() {
    assert_eq!(image_hash(b"").0, "e3b0c44298fc1c149afbf4c8996fb92427ae41e4649b934ca495991b7852b855");
    assert_eq!(image_hash(b"abc").0, "ba7816bf8f01cfea414140de5dae2223b00361a396177a9cb410ff61f20015ad");
}

#[test]
fn local_extension_must_name_an_image() {
    assert_eq!(local_image_extension("/tmp/a.PNG").unwrap(), "PNG");
    assert_eq!(local_image_extension("/tmp/a.txt").unwrap_err(), CommandError::NotAnImage);
    assert_eq!(local_image_extension("/tmp/a").unwrap_err(), CommandError::NotAnImage);
}

fn row(hash: &str, tag: Option<&str>) -> ImageRow {
    ImageRow {
        id: Some(1),
        hash: hash.to_string(),
        name: hash.to_string(),
        file_path: "/p/x.png".to_string(),
        created_at: "2024-01-01 00:00:00".to_string(),
        tag_id: tag.map(|_| 1),
        tag_image_hash: tag.map(|_| hash.to_string()),
        tag: tag.map(|t| t.to_string()),
        tag_created_at: tag.map(|_| "2024-01-01 00:00:00".to_string()),
    }
}

#[test]
fn list_lines() {
    let imgs = Image::from_rows(vec![row("cat", Some("a")), row("cat", Some("b")), row("dog", None), row("emu", Some("c"))]).unwrap();
    assert_eq!(list_line(&imgs[0]), "cat  [a, b]");
    assert_eq!(list_line(&imgs[1]), "dog");
    assert_eq!(list_line(&imgs[2]), "emu  [c]");
}

#[test]
fn serve_answers() {
    assert_eq!(
        http_response("GET / HTTP/1.1"),
        "HTTP/1.1 200 OK\r\nContent-Length: 26\r\n\r\n{\"image\": \"file_path.jpg\"}"
    );
    assert_eq!(
        http_response("GET /x HTTP/1.1"),
        "HTTP/1.1 404 NOT FOUND\r\nContent-Length: 13\r\n\r\nNot here brev"
    );
}

#[test]
fn added_images_go_under_their_stem() {
    assert_eq!(destination_path("/home/u/Pictures/kura", "My Cat", "png"), "/home/u/Pictures/kura/my-cat.png");
    assert_eq!(destination_path("/pics", "Sunset.Beach", "jpg"), "/pics/sunset.jpg");
}
