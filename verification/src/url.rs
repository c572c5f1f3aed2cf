//! Telling URLs apart from file paths.
use vstd::prelude::*;

use crate::text::{has_prefix, starts_with};

verus! {

/// Whether `s` starts with `http://` or `https://`.
pub open spec fn is_url_spec(s: Seq<char>) -> bool {
    has_prefix(s, "http://"@) || has_prefix(s, "https://"@)
}

/// Check if a string is a URL (starts with http:// or https://).
pub fn is_url(input: &str) -> (b: bool)
    ensures
        b == is_url_spec(input@),
{
    starts_with(input, "http://") || starts_with(input, "https://")
}

/// Check if a string is a file path (anything that's not a URL).
pub fn is_file_path(input: &str) -> (b: bool)
    ensures
        b == !is_url_spec(input@),
{
    !is_url(input)
}

} // verus!
