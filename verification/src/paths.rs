//! File-path and file-name computations, on paths held as text.
use vstd::prelude::*;

use crate::text::{chars_of, push_char};

verus! {

/// What `std::path::Path::extension` gives for the path `p`: the part of the file name after
/// its last `.`, if there is one.
pub uninterp spec fn path_extension_of(p: Seq<char>) -> Option<Seq<char>>;

/// The path `p` with its file name replaced by `name` (`Path::with_file_name`).
pub uninterp spec fn path_with_file_name_of(p: Seq<char>, name: Seq<char>) -> Seq<char>;

/// The path `p` with its extension replaced by `ext` (`Path::with_extension`).
pub uninterp spec fn path_with_extension_of(p: Seq<char>, ext: Seq<char>) -> Seq<char>;

/// The path `dir` with `name` joined onto it (`Path::join`).
pub uninterp spec fn path_join_of(dir: Seq<char>, name: Seq<char>) -> Seq<char>;

/// The lower-case form of `s` by Unicode rules (`str::to_lowercase`).
pub uninterp spec fn unicode_lowercase_of(s: Seq<char>) -> Seq<char>;

/// The extension of the path `p` (`Path::extension`), as text. It is part of the last
/// component of the path, so it holds no `/`.
#[verifier::external_body]
pub(crate) fn path_extension(p: &str) -> (r: Option<String>)
    ensures
        match r {
            Some(e) => path_extension_of(p@) == Some(e@) && !e@.contains('/'),
            None => path_extension_of(p@) is None,
        },
{
    match std::path::Path::new(p).extension() {
        Some(e) => Some(e.to_string_lossy().into_owned()),
        None => None,
    }
}

/// `p` with its file name replaced by `name` (`Path::with_file_name`), as text.
#[verifier::external_body]
pub(crate) fn path_with_file_name(p: &str, name: &str) -> (r: String)
    ensures
        r@ == path_with_file_name_of(p@, name@),
{
    std::path::Path::new(p).with_file_name(name).to_string_lossy().into_owned()
}

/// `p` with its extension replaced by `ext` (`Path::with_extension`), as text. The call
/// panics when `ext` holds a path separator; this library is built for Unix (its clipboard
/// is Wayland's), where `/` is the only one.
#[verifier::external_body]
pub(crate) fn path_with_extension(p: &str, ext: &str) -> (r: String)
    requires
        !ext@.contains('/'),
    ensures
        r@ == path_with_extension_of(p@, ext@),
{
    std::path::Path::new(p).with_extension(ext).to_string_lossy().into_owned()
}

/// `dir` with `name` joined onto it (`Path::join`), as text.
#[verifier::external_body]
pub(crate) fn path_join(dir: &str, name: &str) -> (r: String)
    ensures
        r@ == path_join_of(dir@, name@),
{
    std::path::Path::new(dir).join(name).to_string_lossy().into_owned()
}

/// `s` in lower case by Unicode rules (`str::to_lowercase`).
#[verifier::external_body]
pub(crate) fn unicode_lowercase(s: &str) -> (r: String)
    ensures
        r@ == unicode_lowercase_of(s@),
{
    s.to_lowercase()
}

/// `s` with every space replaced by `-`.
pub open spec fn dashes_for_spaces(s: Seq<char>) -> Seq<char> {
    s.map_values(|c: char| if c == ' ' { '-' } else { c })
}

/// The file stem an image named `name` is stored under: spaces become `-`, then lower case.
pub open spec fn file_stem_spec(name: Seq<char>) -> Seq<char> {
    unicode_lowercase_of(dashes_for_spaces(name))
}

/// The file stem an image named `name` is stored under (see [`file_stem_spec`]).
pub fn file_stem_for_name(name: &str) -> (r: String)
    ensures
        r@ == file_stem_spec(name@),
{
    let v = chars_of(name);
    let mut d = String::new();
    let mut i: usize = 0;
    while i < v.len()
        invariant
            v@ == name@,
            i <= v@.len(),
            d@ == dashes_for_spaces(v@.subrange(0, i as int)),
        decreases v@.len() - i,
    {
        let c = v[i];
        push_char(&mut d, if c == ' ' { '-' } else { c });
        assert(dashes_for_spaces(v@.subrange(0, i + 1)) =~= dashes_for_spaces(v@.subrange(0, i as int)).push(
            if c == ' ' { '-' } else { c },
        ));
        i += 1;
    }
    assert(v@.subrange(0, v@.len() as int) =~= v@);
    unicode_lowercase(d.as_str())
}

} // verus!
