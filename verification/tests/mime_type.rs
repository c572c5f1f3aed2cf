use kura::mime_type::{MimeType, MimeTypeError};

#[test]
fn from_extension_ignores_ascii_case() {
    assert_eq!(MimeType::from_extension("png").unwrap(), MimeType::Png);
    assert_eq!(MimeType::from_extension("PNG").unwrap(), MimeType::Png);
    assert_eq!(MimeType::from_extension("jpg").unwrap(), MimeType::Jpeg);
    assert_eq!(MimeType::from_extension("JpEg").unwrap(), MimeType::Jpeg);
    assert_eq!(MimeType::from_extension("gif").unwrap(), MimeType::Gif);
    assert_eq!(MimeType::from_extension("WEBP").unwrap(), MimeType::WebP);
}

#[test]
fn from_extension_reports_the_lowered_extension() {
    assert_eq!(
        MimeType::from_extension("BMP").unwrap_err(),
        MimeTypeError::UnsupportedExtension("bmp".to_string())
    );
    assert_eq!(
        MimeType::from_extension("").unwrap_err(),
        MimeTypeError::UnsupportedExtension(String::new())
    );
}

#[test]
fn from_bytes_reads_signatures() {
    assert_eq!(MimeType::from_bytes(&[0x89, 0x50, 0x4E, 0x47, 0x0D]).unwrap(), MimeType::Png);
    assert_eq!(MimeType::from_bytes(&[0xFF, 0xD8, 0xFF]).unwrap(), MimeType::Jpeg);
    assert_eq!(MimeType::from_bytes(b"GIF89a").unwrap(), MimeType::Gif);
    assert_eq!(MimeType::from_bytes(b"RIFF\x00\x00\x00\x00WEBPVP8 ").unwrap(), MimeType::WebP);
    assert_eq!(MimeType::from_bytes(b"RIFF\x00\x00\x00\x00WAVE").unwrap_err(), MimeTypeError::UnknownFormat);
    assert_eq!(MimeType::from_bytes(&[0x89, 0x50, 0x4E]).unwrap_err(), MimeTypeError::UnknownFormat);
    assert_eq!(MimeType::from_bytes(&[]).unwrap_err(), MimeTypeError::UnknownFormat);
}

#[test]
fn from_content_type_drops_parameters_and_space() {
    assert_eq!(MimeType::from_content_type("image/png").unwrap(), MimeType::Png);
    assert_eq!(MimeType::from_content_type("image/jpeg; charset=binary").unwrap(), MimeType::Jpeg);
    assert_eq!(MimeType::from_content_type("  image/jpg ;q=1").unwrap(), MimeType::Jpeg);
    assert_eq!(MimeType::from_content_type("image/gif").unwrap(), MimeType::Gif);
    assert_eq!(MimeType::from_content_type("\timage/webp\n").unwrap(), MimeType::WebP);
    assert_eq!(
        MimeType::from_content_type(" text/html ; x").unwrap_err(),
        MimeTypeError::UnsupportedExtension("text/html".to_string())
    );
    assert_eq!(
        MimeType::from_content_type("IMAGE/PNG").unwrap_err(),
        MimeTypeError::UnsupportedExtension("IMAGE/PNG".to_string())
    );
}

#[test]
fn names_round_trip() {
    for m in [MimeType::Png, MimeType::Jpeg, MimeType::Gif, MimeType::WebP] {
        assert_eq!(MimeType::from_extension(m.extension()).unwrap(), m);
        assert_eq!(MimeType::from_content_type(m.as_str()).unwrap(), m);
    }
    assert_eq!(MimeType::Png.extension(), "png");
    assert_eq!(MimeType::Jpeg.extension(), "jpg");
    assert_eq!(MimeType::Gif.extension(), "gif");
    assert_eq!(MimeType::WebP.extension(), "webp");
    assert_eq!(MimeType::Png.as_str(), "image/png");
    assert_eq!(MimeType::Jpeg.as_str(), "image/jpeg");
    assert_eq!(MimeType::Gif.as_str(), "image/gif");
    assert_eq!(MimeType::WebP.as_str(), "image/webp");
}

#[test]
fn animated_formats() {
    assert!(!MimeType::Png.is_animated());
    assert!(!MimeType::Jpeg.is_animated());
    assert!(MimeType::Gif.is_animated());
    assert!(MimeType::WebP.is_animated());
}
