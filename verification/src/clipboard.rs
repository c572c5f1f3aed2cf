//! Clipboard access: the backends, their errors, and what is written for an image.
use vstd::prelude::*;

use crate::mime_type::MimeTypeError;
use crate::text::{chars_of, push_char, push_chars};

verus! {

/// An I/O error from the operating system.
#[verifier::external_type_specification]
#[verifier::external_body]
pub struct ExIoError(std::io::Error);

/// A clipboard that text and images can be written to.
pub trait Clipboard {
    /// Puts `text` on the clipboard.
    fn write(&self, text: &str) -> Result<(), ClipboardError>;

    /// Puts the image file at `path` on the clipboard.
    fn write_image(&self, path: &str) -> Result<(), ClipboardError>;
}

/// Why the clipboard could not be written.
#[derive(Debug)]
pub enum ClipboardError {
    /// The file has no extension.
    MissingExtension,
    /// The file's format is not supported.
    MimeType(MimeTypeError),
    /// No supported clipboard backend for this platform.
    UnsupportedPlatform,
    /// Running the clipboard program failed.
    Io(std::io::Error),
}

/// The clipboard backends the library can drive.
#[derive(Debug, Clone, Copy, PartialEq, Eq, Structural)]
pub enum ClipboardBackend {
    /// `wl-copy`, on Wayland.
    Wayland,
}

/// The backend to use: Wayland when a Wayland display is present, else none is supported.
pub fn clipboard_backend(wayland_display: bool) -> (r: Result<ClipboardBackend, ClipboardError>)
    ensures
        wayland_display ==> r matches Ok(ClipboardBackend::Wayland),
        !wayland_display ==> r matches Err(ClipboardError::UnsupportedPlatform),
{
    if wayland_display {
        Ok(ClipboardBackend::Wayland)
    } else {
        Err(ClipboardError::UnsupportedPlatform)
    }
}

/// The `text/uri-list` entry that names the file at `path`: `file://<path>` and a newline.
pub open spec fn uri_list_entry_spec(path: Seq<char>) -> Seq<char> {
    "file://"@ + path + seq!['\n']
}

/// The `text/uri-list` entry that names the file at `path`.
pub fn uri_list_entry(path: &str) -> (s: String)
    ensures
        s@ == uri_list_entry_spec(path@),
{
    let mut s = String::new();
    s.append("file://");
    let v = chars_of(path);
    push_chars(&mut s, &v, 0, v.len());
    push_char(&mut s, '\n');
    assert(v@.subrange(0, v@.len() as int) =~= v@);
    s
}

impl From<MimeTypeError> for ClipboardError {
    fn from(e: MimeTypeError) -> (r: Self) {
        ClipboardError::MimeType(e)
    }
}

impl vstd::std_specs::convert::FromSpecImpl<MimeTypeError> for ClipboardError {
    open spec fn obeys_from_spec() -> bool {
        true
    }

    open spec fn from_spec(e: MimeTypeError) -> Self {
        ClipboardError::MimeType(e)
    }
}

impl From<std::io::Error> for ClipboardError {
    fn from(e: std::io::Error) -> (r: Self) {
        ClipboardError::Io(e)
    }
}

impl vstd::std_specs::convert::FromSpecImpl<std::io::Error> for ClipboardError {
    open spec fn obeys_from_spec() -> bool {
        true
    }

    open spec fn from_spec(e: std::io::Error) -> Self {
        ClipboardError::Io(e)
    }
}

} // verus!
