//! The library's error type for terminal, clipboard and format failures.
use vstd::prelude::*;

use crate::clipboard::ClipboardError;
use crate::mime_type::MimeTypeError;

verus! {

/// Any failure of the terminal widgets.
#[derive(Debug)]
pub enum Error {
    Io(std::io::Error),
    Clipboard(ClipboardError),
    MimeType(MimeTypeError),
}

impl From<std::io::Error> for Error {
    fn from(e: std::io::Error) -> (r: Self) {
        Error::Io(e)
    }
}

impl vstd::std_specs::convert::FromSpecImpl<std::io::Error> for Error {
    open spec fn obeys_from_spec() -> bool {
        true
    }

    open spec fn from_spec(e: std::io::Error) -> Self {
        Error::Io(e)
    }
}

impl From<ClipboardError> for Error {
    fn from(e: ClipboardError) -> (r: Self) {
        Error::Clipboard(e)
    }
}

impl vstd::std_specs::convert::FromSpecImpl<ClipboardError> for Error {
    open spec fn obeys_from_spec() -> bool {
        true
    }

    open spec fn from_spec(e: ClipboardError) -> Self {
        Error::Clipboard(e)
    }
}

impl From<MimeTypeError> for Error {
    fn from(e: MimeTypeError) -> (r: Self) {
        Error::MimeType(e)
    }
}

impl vstd::std_specs::convert::FromSpecImpl<MimeTypeError> for Error {
    open spec fn obeys_from_spec() -> bool {
        true
    }

    open spec fn from_spec(e: MimeTypeError) -> Self {
        Error::MimeType(e)
    }
}

} // verus!
