use kura::url::{is_file_path, is_url};

#[test]
fn test_is_url() {
    assert!(is_url("https://example.com/image.jpg"));
    assert!(is_url("http://example.com/image.jpg"));
    assert!(!is_url("/path/to/image.jpg"));
    assert!(!is_url("~/Pictures/image.jpg"));
    assert!(!is_url("image.jpg"));
}

#[test]
fn test_is_file_path() {
    assert!(is_file_path("/path/to/image.jpg"));
    assert!(is_file_path("~/Pictures/image.jpg"));
    assert!(is_file_path("image.jpg"));
    assert!(!is_file_path("https://example.com/image.jpg"));
    assert!(!is_file_path("http://example.com/image.jpg"));
}

#[test]
fn url_needs_the_whole_scheme() {
    assert!(!is_url("http:/example.com"));
    assert!(!is_url("ftp://example.com"));
    assert!(!is_url(""));
    assert!(is_url("http://"));
    assert!(!is_url("HTTP://example.com"));
    assert!(is_file_path(""));
}
