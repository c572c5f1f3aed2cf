//! Image formats: detection from extensions, magic bytes and content types.
use vstd::prelude::*;

use crate::text::{ascii_lowercase_spec, chars_of, str_eq, string_from_chars, to_ascii_lowercase, trim_spec, trim_start_index, trim_end_index, is_whitespace};

verus! {

/// The image formats the library knows.
#[derive(Debug, Clone, Copy, PartialEq, Eq, Structural)]
pub enum MimeType {
    Png,
    Jpeg,
    Gif,
    WebP,
}

/// Why a format could not be determined.
#[derive(Debug, Clone, PartialEq, Eq)]
pub enum MimeTypeError {
    /// The extension or content type (as it was compared) is not a supported image type.
    UnsupportedExtension(String),
    /// The leading bytes match no supported image signature.
    UnknownFormat,
}

/// The format named by an already lower-cased extension.
pub open spec fn format_of_extension(lower: Seq<char>) -> Option<MimeType> {
    if lower == "png"@ {
        Some(MimeType::Png)
    } else if lower == "jpg"@ || lower == "jpeg"@ {
        Some(MimeType::Jpeg)
    } else if lower == "gif"@ {
        Some(MimeType::Gif)
    } else if lower == "webp"@ {
        Some(MimeType::WebP)
    } else {
        None
    }
}

/// The format named by a bare content type.
pub open spec fn format_of_content_type(ct: Seq<char>) -> Option<MimeType> {
    if ct == "image/png"@ {
        Some(MimeType::Png)
    } else if ct == "image/jpeg"@ || ct == "image/jpg"@ {
        Some(MimeType::Jpeg)
    } else if ct == "image/gif"@ {
        Some(MimeType::Gif)
    } else if ct == "image/webp"@ {
        Some(MimeType::WebP)
    } else {
        None
    }
}

/// The format whose signature starts `data`.
pub open spec fn format_of_bytes(data: Seq<u8>) -> Option<MimeType> {
    if data.len() >= 4 && data[0] == 0x89 && data[1] == 0x50 && data[2] == 0x4E && data[3] == 0x47 {
        Some(MimeType::Png)
    } else if data.len() >= 3 && data[0] == 0xFF && data[1] == 0xD8 && data[2] == 0xFF {
        Some(MimeType::Jpeg)
    } else if data.len() >= 4 && data[0] == 0x47 && data[1] == 0x49 && data[2] == 0x46 && data[3]
        == 0x38 {
        Some(MimeType::Gif)
    } else if data.len() >= 12 && data[0] == 0x52 && data[1] == 0x49 && data[2] == 0x46 && data[3]
        == 0x46 && data[8] == 0x57 && data[9] == 0x45 && data[10] == 0x42 && data[11] == 0x50 {
        Some(MimeType::WebP)
    } else {
        None
    }
}

/// Index of the first `c` in `s`, or `s.len()` when there is none.
pub open spec fn first_index_of(s: Seq<char>, c: char, i: int) -> int
    decreases s.len() - i,
{
    if i >= s.len() || i < 0 {
        s.len() as int
    } else if s[i] == c {
        i
    } else {
        first_index_of(s, c, i + 1)
    }
}

/// A content type without its parameters: the text before the first `;`, trimmed.
pub open spec fn bare_content_type(ct: Seq<char>) -> Seq<char> {
    trim_spec(ct.subrange(0, first_index_of(ct, ';', 0)))
}

/// The file extension written for a format.
pub open spec fn extension_spec(m: MimeType) -> Seq<char> {
    match m {
        MimeType::Png => "png"@,
        MimeType::Jpeg => "jpg"@,
        MimeType::Gif => "gif"@,
        MimeType::WebP => "webp"@,
    }
}

/// The content type of a format.
pub open spec fn content_type_spec(m: MimeType) -> Seq<char> {
    match m {
        MimeType::Png => "image/png"@,
        MimeType::Jpeg => "image/jpeg"@,
        MimeType::Gif => "image/gif"@,
        MimeType::WebP => "image/webp"@,
    }
}

/// Whether a format can hold animations.
pub open spec fn is_animated_spec(m: MimeType) -> bool {
    m == MimeType::Gif || m == MimeType::WebP
}

proof fn lemma_trim_start_bounds(s: Seq<char>, i: int)
    requires
        0 <= i <= s.len(),
    ensures
        i <= trim_start_index(s, i) <= s.len(),
    decreases s.len() - i,
{
    if i < s.len() && crate::text::is_whitespace_spec(s[i]) {
        lemma_trim_start_bounds(s, i + 1);
    }
}

/// `s` without leading and trailing white space.
pub fn trim(v: &Vec<char>) -> (r: String)
    ensures
        r@ == trim_spec(v@),
{
    let mut i: usize = 0;
    while i < v.len() && is_whitespace(v[i])
        invariant
            i <= v@.len(),
            trim_start_index(v@, 0) == trim_start_index(v@, i as int),
        decreases v@.len() - i,
    {
        i += 1;
    }
    proof {
        lemma_trim_start_bounds(v@, 0);
    }
    let mut j: usize = v.len();
    while j > i && is_whitespace(v[j - 1])
        invariant
            i <= j <= v@.len(),
            i == trim_start_index(v@, 0),
            trim_end_index(v@, v@.len() as int, i as int) == trim_end_index(v@, j as int, i as int),
        decreases j,
    {
        j -= 1;
    }
    string_from_chars(v, i, j)
}

impl MimeType {
    /// The format named by a file extension, compared without regard to ASCII case.
    pub fn from_extension(ext: &str) -> (r: Result<Self, MimeTypeError>)
        ensures
            match format_of_extension(ascii_lowercase_spec(ext@)) {
                Some(m) => r == Ok::<MimeType, MimeTypeError>(m),
                None => r matches Err(MimeTypeError::UnsupportedExtension(s)) && s@
                    == ascii_lowercase_spec(ext@),
            },
    {
        let lower = to_ascii_lowercase(ext);
        let l = lower.as_str();
        if str_eq(l, "png") {
            Ok(MimeType::Png)
        } else if str_eq(l, "jpg") || str_eq(l, "jpeg") {
            Ok(MimeType::Jpeg)
        } else if str_eq(l, "gif") {
            Ok(MimeType::Gif)
        } else if str_eq(l, "webp") {
            Ok(MimeType::WebP)
        } else {
            Err(MimeTypeError::UnsupportedExtension(lower))
        }
    }

    /// The format whose signature (magic bytes) starts `data`.
    pub fn from_bytes(data: &[u8]) -> (r: Result<Self, MimeTypeError>)
        ensures
            match format_of_bytes(data@) {
                Some(m) => r == Ok::<MimeType, MimeTypeError>(m),
                None => r == Err::<MimeType, MimeTypeError>(MimeTypeError::UnknownFormat),
            },
    {
        let n = data.len();
        if n >= 4 && data[0] == 0x89 && data[1] == 0x50 && data[2] == 0x4E && data[3] == 0x47 {
            Ok(MimeType::Png)
        } else if n >= 3 && data[0] == 0xFF && data[1] == 0xD8 && data[2] == 0xFF {
            Ok(MimeType::Jpeg)
        } else if n >= 4 && data[0] == 0x47 && data[1] == 0x49 && data[2] == 0x46 && data[3]
            == 0x38 {
            Ok(MimeType::Gif)
        } else if n >= 12 && data[0] == 0x52 && data[1] == 0x49 && data[2] == 0x46 && data[3]
            == 0x46 && data[8] == 0x57 && data[9] == 0x45 && data[10] == 0x42 && data[11] == 0x50 {
            Ok(MimeType::WebP)
        } else {
            Err(MimeTypeError::UnknownFormat)
        }
    }

    /// The format named by a content type such as `image/png; charset=binary`.
    pub fn from_content_type(ct: &str) -> (r: Result<Self, MimeTypeError>)
        ensures
            match format_of_content_type(bare_content_type(ct@)) {
                Some(m) => r == Ok::<MimeType, MimeTypeError>(m),
                None => r matches Err(MimeTypeError::UnsupportedExtension(s)) && s@
                    == bare_content_type(ct@),
            },
    {
        let v = chars_of(ct);
        let mut k: usize = 0;
        while k < v.len() && v[k] != ';'
            invariant
                v@ == ct@,
                k <= v@.len(),
                first_index_of(v@, ';', 0) == first_index_of(v@, ';', k as int),
            decreases v@.len() - k,
        {
            k += 1;
        }
        let head = string_from_chars(&v, 0, k);
        let hv = chars_of(head.as_str());
        let bare = trim(&hv);
        let b = bare.as_str();
        if str_eq(b, "image/png") {
            Ok(MimeType::Png)
        } else if str_eq(b, "image/jpeg") || str_eq(b, "image/jpg") {
            Ok(MimeType::Jpeg)
        } else if str_eq(b, "image/gif") {
            Ok(MimeType::Gif)
        } else if str_eq(b, "image/webp") {
            Ok(MimeType::WebP)
        } else {
            Err(MimeTypeError::UnsupportedExtension(bare))
        }
    }

    /// The extension used when storing an image of this format.
    pub fn extension(&self) -> (s: &'static str)
        ensures
            s@ == extension_spec(*self),
            !s@.contains('/'),
    {
        proof {
            reveal_strlit("png");
            reveal_strlit("jpg");
            reveal_strlit("gif");
            reveal_strlit("webp");
        }
        match self {
            MimeType::Png => "png",
            MimeType::Jpeg => "jpg",
            MimeType::Gif => "gif",
            MimeType::WebP => "webp",
        }
    }

    /// The content type of this format.
    pub fn as_str(&self) -> (s: &'static str)
        ensures
            s@ == content_type_spec(*self),
    {
        match self {
            MimeType::Png => "image/png",
            MimeType::Jpeg => "image/jpeg",
            MimeType::Gif => "image/gif",
            MimeType::WebP => "image/webp",
        }
    }

    /// Whether images of this format may be animated.
    pub fn is_animated(&self) -> (b: bool)
        ensures
            b == is_animated_spec(*self),
    {
        match self {
            MimeType::Gif | MimeType::WebP => true,
            _ => false,
        }
    }
}

} // verus!
