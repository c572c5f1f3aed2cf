//! The decisions and texts of the command-line commands.
use vstd::prelude::*;

use crate::images::ImageWithTags;
use crate::mime_type::{format_of_extension, MimeType};
use crate::paths::{file_stem_for_name, file_stem_spec, path_extension, path_extension_of, path_join, path_join_of, path_with_extension, path_with_extension_of};
use crate::text::{ascii_lowercase_spec, char_from_ascii, push_char, str_eq};
use crate::types::ImageHash;

verus! {

/// Why a command was refused.
#[derive(Debug, Clone, PartialEq, Eq)]
pub enum CommandError {
    /// `add` was given both a file and a URL.
    BothSources,
    /// `add` was given neither a file nor a URL.
    NoSource,
    /// `remove` was given nothing to find the image by.
    NoRemoveTarget,
    /// No stored image matches.
    ImageNotFound,
    /// The image is already stored, under this name.
    DuplicateImage(String),
    /// Another image already has this name.
    NameTaken(String),
    /// The file to add does not exist.
    FileMissing,
    /// The file to add has no image extension.
    NotAnImage,
}

/// Where `add` takes the image from.
#[derive(Debug)]
pub enum AddSource {
    File(std::path::PathBuf),
    Url(String),
}

/// How `remove` finds the image.
#[derive(Debug)]
pub enum RemoveTarget {
    HashOrName(String),
    FilePath(std::path::PathBuf),
}

/// The message shown for an error.
pub open spec fn message_spec(e: CommandError) -> Seq<char> {
    match e {
        CommandError::BothSources => "Cannot provide both --file and --url"@,
        CommandError::NoSource => "Must provide either --file or --url"@,
        CommandError::NoRemoveTarget => "Must provide hash, name, or file_path to remove"@,
        CommandError::ImageNotFound => "Image not found"@,
        CommandError::DuplicateImage(name) => "Duplicate image: already stored as '"@ + name@ + "'"@,
        CommandError::NameTaken(name) => "An image with name "@ + name@ + " already exists"@,
        CommandError::FileMissing => "File does not exist"@,
        CommandError::NotAnImage => "File needs to be a valid image"@,
    }
}

impl CommandError {
    /// The message shown for this error.
    pub fn message(&self) -> (s: String)
        ensures
            s@ == message_spec(*self),
    {
        match self {
            CommandError::BothSources => String::from_str("Cannot provide both --file and --url"),
            CommandError::NoSource => String::from_str("Must provide either --file or --url"),
            CommandError::NoRemoveTarget => String::from_str(
                "Must provide hash, name, or file_path to remove",
            ),
            CommandError::ImageNotFound => String::from_str("Image not found"),
            CommandError::DuplicateImage(name) => {
                let mut s = String::from_str("Duplicate image: already stored as '");
                s.append(name.as_str());
                s.append("'");
                s
            },
            CommandError::NameTaken(name) => {
                let mut s = String::from_str("An image with name ");
                s.append(name.as_str());
                s.append(" already exists");
                s
            },
            CommandError::FileMissing => String::from_str("File does not exist"),
            CommandError::NotAnImage => String::from_str("File needs to be a valid image"),
        }
    }
}

/// `add` takes exactly one of a file and a URL.
pub fn add_source(file_path: Option<std::path::PathBuf>, url: Option<String>) -> (r: Result<AddSource, CommandError>)
    ensures
        match (file_path, url) {
            (Some(_), Some(_)) => r matches Err(CommandError::BothSources),
            (None, None) => r matches Err(CommandError::NoSource),
            (Some(p), None) => r matches Ok(AddSource::File(q)) && q == p,
            (None, Some(u)) => r matches Ok(AddSource::Url(v)) && v == u,
        },
{
    match (file_path, url) {
        (Some(_), Some(_)) => Err(CommandError::BothSources),
        (None, None) => Err(CommandError::NoSource),
        (Some(p), None) => Ok(AddSource::File(p)),
        (None, Some(u)) => Ok(AddSource::Url(u)),
    }
}

/// `remove` finds the image by hash or name when given one, else by file path.
pub fn remove_target(hash_or_name: Option<String>, file_path: Option<std::path::PathBuf>) -> (r: Result<RemoveTarget, CommandError>)
    ensures
        match (hash_or_name, file_path) {
            (Some(h), _) => r matches Ok(RemoveTarget::HashOrName(x)) && x == h,
            (None, Some(p)) => r matches Ok(RemoveTarget::FilePath(q)) && q == p,
            (None, None) => r matches Err(CommandError::NoRemoveTarget),
        },
{
    match (hash_or_name, file_path) {
        (Some(h), _) => Ok(RemoveTarget::HashOrName(h)),
        (None, Some(p)) => Ok(RemoveTarget::FilePath(p)),
        (None, None) => Err(CommandError::NoRemoveTarget),
    }
}

/// The SHA-256 digest of `data`.
pub uninterp spec fn sha256_of(data: Seq<u8>) -> Seq<u8>;

/// The SHA-256 digest of `data` (`sha2::Sha256::digest`); it is 32 bytes long.
#[verifier::external_body]
fn sha256(data: &[u8]) -> (r: Vec<u8>)
    ensures
        r@ == sha256_of(data@),
        r@.len() == 32,
{
    <sha2::Sha256 as sha2::Digest>::digest(data).to_vec()
}

/// The lower-case hexadecimal digit for `d < 16`.
pub open spec fn hex_digit(d: int) -> char {
    if d < 10 {
        (48 + d) as char
    } else {
        (87 + d) as char
    }
}

/// Each byte as two lower-case hexadecimal digits, high nibble first.
pub open spec fn hex_spec(bytes: Seq<u8>) -> Seq<char>
    decreases bytes.len(),
{
    if bytes.len() == 0 {
        Seq::empty()
    } else {
        hex_spec(bytes.drop_last()).push(hex_digit((bytes.last() / 16) as int)).push(
            hex_digit((bytes.last() % 16) as int),
        )
    }
}

/// `bytes` in lower-case hexadecimal (`hex::encode`).
#[verifier::external_body]
fn hex_encode(bytes: &[u8]) -> (s: String)
    ensures
        s@ == hex_spec(bytes@),
{
    hex::encode(bytes)
}

/// The hash that identifies an image: its SHA-256 digest in lower-case hexadecimal.
pub fn image_hash(data: &[u8]) -> (h: ImageHash)
    ensures
        h.0@ == hex_spec(sha256_of(data@)),
        h.0@.len() == 64,
{
    let digest = sha256(data);
    let s = hex_encode(digest.as_slice());
    proof {
        lemma_hex_len(digest@);
    }
    ImageHash(s)
}

/// Hexadecimal text has two digits per byte.
pub proof fn lemma_hex_len(bytes: Seq<u8>)
    ensures
        hex_spec(bytes).len() == 2 * bytes.len(),
    decreases bytes.len(),
{
    if bytes.len() > 0 {
        lemma_hex_len(bytes.drop_last());
    }
}

/// The extension of a file to add, when it names a supported image format.
pub fn local_image_extension(path: &str) -> (r: Result<String, CommandError>)
    ensures
        match path_extension_of(path@) {
            Some(e) => if format_of_extension(ascii_lowercase_spec(e)) is Some {
                r matches Ok(x) && x@ == e && !x@.contains('/')
            } else {
                r matches Err(CommandError::NotAnImage)
            },
            None => r matches Err(CommandError::NotAnImage),
        },
{
    match path_extension(path) {
        Some(e) => match MimeType::from_extension(e.as_str()) {
            Ok(_) => Ok(e),
            Err(_) => Err(CommandError::NotAnImage),
        },
        None => Err(CommandError::NotAnImage),
    }
}

/// The path `add` stores an image under: the stem of `name` (see
/// [`file_stem_spec`]) in the directory `dir`, with the extension `extension`, which holds
/// no path separator.
pub fn destination_path(dir: &str, name: &str, extension: &str) -> (p: String)
    requires
        !extension@.contains('/'),
    ensures
        p@ == path_with_extension_of(path_join_of(dir@, file_stem_spec(name@)), extension@),
{
    let stem = file_stem_for_name(name);
    let joined = path_join(dir, stem.as_str());
    path_with_extension(joined.as_str(), extension)
}

/// The tags of an image joined by `, `.
pub open spec fn join_tags(tags: Seq<Seq<char>>) -> Seq<char>
    decreases tags.len(),
{
    if tags.len() == 0 {
        Seq::empty()
    } else if tags.len() == 1 {
        tags[0]
    } else {
        join_tags(tags.drop_last()) + ", "@ + tags.last()
    }
}

/// The line `list` prints for an image: its name, then its tags in brackets when it has any.
pub open spec fn list_line_spec(name: Seq<char>, tags: Seq<Seq<char>>) -> Seq<char> {
    if tags.len() == 0 {
        name
    } else {
        name + "  ["@ + join_tags(tags) + "]"@
    }
}

/// The texts of the tags of an image.
pub open spec fn tag_texts(img: ImageWithTags) -> Seq<Seq<char>> {
    img.tags@.map_values(|t: crate::tags::Tag| t.tag@)
}

/// The line `list` prints for `img` (see [`list_line_spec`]).
pub fn list_line(img: &ImageWithTags) -> (s: String)
    ensures
        s@ == list_line_spec(img.image.name@, tag_texts(*img)),
{
    let mut s = img.image.name.clone();
    let n = img.tags.len();
    if n == 0 {
        return s;
    }
    s.append("  [");
    let ghost start = s@;
    let mut i: usize = 0;
    while i < n
        invariant
            n == img.tags@.len(),
            n > 0,
            i <= n,
            s@ == start + join_tags(tag_texts(*img).subrange(0, i as int)),
        decreases n - i,
    {
        if i > 0 {
            s.append(", ");
        }
        s.append(img.tags[i].tag.as_str());
        proof {
            let ts = tag_texts(*img);
            let p = ts.subrange(0, i + 1);
            assert(p.drop_last() =~= ts.subrange(0, i as int));
            assert(p.last() == img.tags@[i as int].tag@);
            if i == 0 {
                assert(join_tags(ts.subrange(0, 0)) =~= Seq::<char>::empty());
                assert(s@ =~= start + join_tags(p));
            } else {
                assert(s@ =~= start + join_tags(p));
            }
        }
        i += 1;
    }
    assert(tag_texts(*img).subrange(0, n as int) =~= tag_texts(*img));
    s.append("]");
    s
}

/// The decimal digits of `n`.
pub open spec fn decimal_spec(n: nat) -> Seq<char>
    decreases n,
{
    if n < 10 {
        seq![(48 + n) as char]
    } else {
        decimal_spec(n / 10).push((48 + n % 10) as char)
    }
}

/// Appends the decimal digits of `n`.
fn push_decimal(s: &mut String, n: usize)
    ensures
        final(s)@ == old(s)@ + decimal_spec(n as nat),
    decreases n,
{
    if n >= 10 {
        push_decimal(s, n / 10);
    }
    let c = char_from_ascii((48 + n % 10) as u32);
    push_char(s, c);
}

/// An HTTP response with a status line and a body, giving the body's length in bytes.
pub open spec fn http_response_spec(status: Seq<char>, body: Seq<char>, body_bytes: nat) -> Seq<char> {
    status + "\r\nContent-Length: "@ + decimal_spec(body_bytes) + "\r\n\r\n"@ + body
}

/// The answer of `serve` to a request whose first line is `request_line`: the image as JSON
/// for `GET / HTTP/1.1`, a 404 otherwise.
pub fn http_response(request_line: &str) -> (s: String)
    ensures
        request_line@ == "GET / HTTP/1.1"@ ==> s@ == http_response_spec(
            "HTTP/1.1 200 OK"@,
            "{\"image\": \"file_path.jpg\"}"@,
            "{\"image\": \"file_path.jpg\"}".len() as nat,
        ),
        request_line@ != "GET / HTTP/1.1"@ ==> s@ == http_response_spec(
            "HTTP/1.1 404 NOT FOUND"@,
            "Not here brev"@,
            "Not here brev".len() as nat,
        ),
{
    if str_eq(request_line, "GET / HTTP/1.1") {
        response("HTTP/1.1 200 OK", "{\"image\": \"file_path.jpg\"}")
    } else {
        response("HTTP/1.1 404 NOT FOUND", "Not here brev")
    }
}

/// A response with `status` and the body `contents`.
fn response(status: &str, contents: &str) -> (s: String)
    ensures
        s@ == http_response_spec(status@, contents@, contents.len() as nat),
{
    let length = contents.len();
    let mut s = String::from_str(status);
    s.append("\r\nContent-Length: ");
    push_decimal(&mut s, length);
    s.append("\r\n\r\n");
    s.append(contents);
    assert(s@ =~= http_response_spec(status@, contents@, contents.len() as nat));
    s
}

} // verus!
