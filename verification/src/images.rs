//! Image records: reading them back from joined image/tag rows, grouping rows into images
//! with their tags, and the names and paths an image is stored under.
use vstd::prelude::*;

use crate::mime_type::{format_of_extension, MimeType};
use crate::paths::{path_extension, path_extension_of, path_with_extension, path_with_extension_of, path_with_file_name, path_with_file_name_of, file_stem_for_name, file_stem_spec};
use crate::tags::Tag;
use crate::text::ascii_lowercase_spec;
use crate::types::{civil_datetime_of, parse_created_at, CreatedAt, ImageHash, RecordError};

verus! {

/// A stored image.
#[derive(Debug, Clone)]
pub struct Image {
    pub id: i64,
    pub hash: ImageHash,
    pub name: String,
    /// Where the image file is, as text.
    pub file_path: String,
    pub created_at: CreatedAt,
}

/// An image with its tags.
#[derive(Debug, Clone)]
pub struct ImageWithTags {
    pub image: Image,
    pub tags: Vec<Tag>,
}

/// One row of the join of an image with one of its tags (or none), as the database returns it.
#[derive(Debug, Clone)]
pub struct ImageRow {
    pub id: Option<i64>,
    pub hash: String,
    pub name: String,
    pub file_path: String,
    pub created_at: String,
    pub tag_id: Option<i64>,
    pub tag_image_hash: Option<String>,
    pub tag: Option<String>,
    pub tag_created_at: Option<String>,
}

/// A row of a left join: a row with a tag carries all its columns, and every image has an id.
pub open spec fn row_complete(r: ImageRow) -> bool {
    &&& r.id is Some
    &&& r.tag_id is Some ==> (r.tag_image_hash is Some && r.tag is Some && r.tag_created_at is Some)
}

impl ImageRow {
    /// Whether the row is complete (see [`row_complete`]).
    pub fn is_complete(&self) -> (b: bool)
        ensures
            b == row_complete(*self),
    {
        self.id.is_some() && (self.tag_id.is_none() || (self.tag_image_hash.is_some()
            && self.tag.is_some() && self.tag_created_at.is_some()))
    }
}

/// The creation times a row carries all read.
pub open spec fn row_times_ok(r: ImageRow) -> bool {
    &&& civil_datetime_of(r.created_at@) is Some
    &&& r.tag_id is Some ==> civil_datetime_of(r.tag_created_at->0@) is Some
}

/// The image a complete row with readable times describes.
pub open spec fn row_image(r: ImageRow) -> Image {
    Image {
        id: r.id->0,
        hash: ImageHash(r.hash),
        name: r.name,
        file_path: r.file_path,
        created_at: CreatedAt(civil_datetime_of(r.created_at@)->0),
    }
}

/// The tag a complete row with readable times carries, if any.
pub open spec fn row_tag(r: ImageRow) -> Option<Tag> {
    match r.tag_id {
        Some(id) => Some(
            Tag {
                id,
                image_hash: ImageHash(r.tag_image_hash->0),
                tag: r.tag->0,
                created_at: CreatedAt(civil_datetime_of(r.tag_created_at->0@)->0),
            },
        ),
        None => None,
    }
}

/// Reads one row into an image and its tag.
pub fn image_from_row(row: ImageRow) -> (r: Result<(Image, Option<Tag>), RecordError>)
    requires
        row_complete(row),
    ensures
        row_times_ok(row) ==> r == Ok::<(Image, Option<Tag>), RecordError>((row_image(row), row_tag(row))),
        !row_times_ok(row) ==> r is Err,
{
    let ImageRow { id, hash, name, file_path, created_at, tag_id, tag_image_hash, tag, tag_created_at } = row;
    let t = match tag_id {
        Some(tid) => {
            let tag_hash = match tag_image_hash {
                Some(h) => h,
                None => String::new(),
            };
            let tag_text = match tag {
                Some(x) => x,
                None => String::new(),
            };
            let tag_time = match tag_created_at {
                Some(x) => x,
                None => String::new(),
            };
            match parse_created_at(tag_time) {
                Ok(c) => Some(Tag { id: tid, image_hash: ImageHash(tag_hash), tag: tag_text, created_at: c }),
                Err(e) => return Err(e),
            }
        },
        None => None,
    };
    let image_id = match id {
        Some(i) => i,
        None => 0,
    };
    match parse_created_at(created_at) {
        Ok(c) => Ok((Image { id: image_id, hash: ImageHash(hash), name, file_path, created_at: c }, t)),
        Err(e) => Err(e),
    }
}


/// Rows grouped into images: consecutive rows with the same hash form one image (the first
/// such row's image), carrying the tags of those rows in order.
pub open spec fn group_rows(rows: Seq<(Image, Option<Tag>)>) -> Seq<(Image, Seq<Tag>)>
    decreases rows.len(),
{
    if rows.len() == 0 {
        Seq::empty()
    } else {
        let g = group_rows(rows.drop_last());
        let img = rows.last().0;
        let g1 = if g.len() == 0 || g.last().0.hash.0@ != img.hash.0@ {
            g.push((img, Seq::empty()))
        } else {
            g
        };
        match rows.last().1 {
            Some(t) => g1.update(g1.len() - 1, (g1.last().0, g1.last().1.push(t))),
            None => g1,
        }
    }
}

/// The grouped images as the exec type would show them.
pub open spec fn groups_match(out: Seq<ImageWithTags>, g: Seq<(Image, Seq<Tag>)>) -> bool {
    &&& out.len() == g.len()
    &&& forall|i: int| 0 <= i < g.len() ==> (#[trigger] out[i]).image == g[i].0 && out[i].tags@ == g[i].1
}

/// The rows read one by one, stopping at the first that fails.
pub open spec fn rows_read(rows: Seq<ImageRow>) -> Option<Seq<(Image, Option<Tag>)>>
    decreases rows.len(),
{
    if rows.len() == 0 {
        Some(Seq::empty())
    } else {
        match rows_read(rows.drop_last()) {
            Some(prefix) => if row_times_ok(rows.last()) {
                Some(prefix.push((row_image(rows.last()), row_tag(rows.last()))))
            } else {
                None
            },
            None => None,
        }
    }
}

proof fn lemma_rows_read_prefix(rows: Seq<ImageRow>, i: int)
    requires
        0 <= i < rows.len(),
        rows_read(rows.subrange(0, i)) is Some,
    ensures
        row_times_ok(rows[i]) ==> rows_read(rows.subrange(0, i + 1)) == Some(
            rows_read(rows.subrange(0, i))->0.push((row_image(rows[i]), row_tag(rows[i]))),
        ),
        !row_times_ok(rows[i]) ==> rows_read(rows.subrange(0, i + 1)) is None,
{
    let s = rows.subrange(0, i + 1);
    assert(s.drop_last() =~= rows.subrange(0, i));
}

proof fn lemma_read_none_stays(rows: Seq<ImageRow>, i: int)
    requires
        0 <= i <= rows.len(),
        rows_read(rows.subrange(0, i)) is None,
    ensures
        rows_read(rows) is None,
    decreases rows.len() - i,
{
    if i < rows.len() {
        let s = rows.subrange(0, i + 1);
        assert(s.drop_last() =~= rows.subrange(0, i));
        lemma_read_none_stays(rows, i + 1);
    } else {
        assert(rows.subrange(0, i) =~= rows);
    }
}

impl Image {
    /// Groups consecutive rows of the same image into one image with the rows' tags.
    pub fn collect_images(rows: Vec<(Image, Option<Tag>)>) -> (out: Vec<ImageWithTags>)
        ensures
            groups_match(out@, group_rows(rows@)),
    {
        let mut images: Vec<ImageWithTags> = Vec::new();
        let ghost all = rows@;
        let n = rows.len();
        let mut rest = rows;
        let mut k: usize = 0;
        while k < n
            invariant
                n == all.len(),
                k <= n,
                rest@ == all.subrange(k as int, n as int),
                groups_match(images@, group_rows(all.subrange(0, k as int))),
            decreases n - k,
        {
            let (img, tag) = rest.remove(0);
            let ghost pre = all.subrange(0, k as int);
            proof {
                let s = all.subrange(0, k + 1);
                assert(s.drop_last() =~= pre);
                assert(s.last() == (img, tag));
            }
            let len = images.len();
            if len == 0 || images[len - 1].image.hash.0 != img.hash.0 {
                images.push(ImageWithTags { image: img, tags: Vec::new() });
            }
            if let Some(t) = tag {
                let last = images.len() - 1;
                images[last].tags.push(t);
            }
            proof {
                assert(rest@ =~= all.subrange(k + 1, n as int));
                let g2 = group_rows(all.subrange(0, k + 1));
                assert forall|i: int| 0 <= i < g2.len() implies (#[trigger] images@[i]).image == g2[i].0
                    && images@[i].tags@ == g2[i].1 by {
                }
            }
            k += 1;
        }
        assert(all.subrange(0, n as int) =~= all);
        images
    }

    /// Reads joined rows (ordered so that the rows of one image are together) into images
    /// with their tags; fails, with jiff's error, at the first unreadable creation time.
    pub fn from_rows(rows: Vec<ImageRow>) -> (r: Result<Vec<ImageWithTags>, RecordError>)
        requires
            forall|i: int| 0 <= i < rows@.len() ==> row_complete(#[trigger] rows@[i]),
        ensures
            match rows_read(rows@) {
                Some(read) => r matches Ok(out) && groups_match(out@, group_rows(read)),
                None => r is Err,
            },
    {
        let ghost all = rows@;
        let n = rows.len();
        let mut rest = rows;
        let mut mapped: Vec<(Image, Option<Tag>)> = Vec::new();
        let mut k: usize = 0;
        while k < n
            invariant
                n == all.len(),
                all == rows@,
                k <= n,
                rest@ == all.subrange(k as int, n as int),
                forall|i: int| 0 <= i < all.len() ==> row_complete(#[trigger] all[i]),
                rows_read(all.subrange(0, k as int)) == Some(mapped@),
            decreases n - k,
        {
            let row = rest.remove(0);
            proof {
                assert(row == all[k as int]);
                lemma_rows_read_prefix(all, k as int);
                assert(rest@ =~= all.subrange(k + 1, n as int));
            }
            match image_from_row(row) {
                Ok(pair) => {
                    mapped.push(pair);
                },
                Err(e) => {
                    proof {
                        assert(!row_times_ok(all[k as int]));
                        assert(rows_read(all.subrange(0, k + 1)) is None);
                        lemma_read_none_stays(all, k + 1);
                    }
                    return Err(e);
                },
            }
            k += 1;
        }
        assert(all.subrange(0, n as int) =~= all);
        Ok(Self::collect_images(mapped))
    }

    /// The format the file's extension names, if it names one.
    pub fn mime_type(&self) -> (m: Option<MimeType>)
        ensures
            m == match path_extension_of(self.file_path@) {
                Some(e) => format_of_extension(ascii_lowercase_spec(e)),
                None => None,
            },
    {
        match path_extension(self.file_path.as_str()) {
            Some(e) => match MimeType::from_extension(e.as_str()) {
                Ok(m) => Some(m),
                Err(_) => None,
            },
            None => None,
        }
    }

    /// The path the image moves to when renamed to `new_name`: same directory, the stem of
    /// the new name, the old extension (none when it had none).
    pub fn renamed_path(&self, new_name: &str) -> (p: String)
        ensures
            p@ == path_with_extension_of(
                path_with_file_name_of(self.file_path@, file_stem_spec(new_name@)),
                match path_extension_of(self.file_path@) {
                    Some(e) => e,
                    None => Seq::empty(),
                },
            ),
    {
        let stem = file_stem_for_name(new_name);
        let with_name = path_with_file_name(self.file_path.as_str(), stem.as_str());
        let ext = match path_extension(self.file_path.as_str()) {
            Some(e) => e,
            None => String::new(),
        };
        path_with_extension(with_name.as_str(), ext.as_str())
    }
}


/// An image about to be stored.
#[derive(Debug)]
pub struct NewImage<'a> {
    hash: ImageHash,
    name: &'a str,
    file_path: &'a str,
}

impl<'a> NewImage<'a> {
    /// The image with hash `hash`, named `name`, stored at `file_path`.
    pub fn new(hash: ImageHash, name: &'a str, file_path: &'a str) -> (i: Self)
        ensures
            i.hash_spec() == hash,
            i.name_spec() == name@,
            i.file_path_spec() == file_path@,
    {
        Self { hash, name, file_path }
    }

    /// The hash.
    pub closed spec fn hash_spec(&self) -> ImageHash {
        self.hash
    }

    /// The name.
    pub closed spec fn name_spec(&self) -> Seq<char> {
        self.name@
    }

    /// The file path.
    pub closed spec fn file_path_spec(&self) -> Seq<char> {
        self.file_path@
    }

    /// The hash.
    pub fn hash(&self) -> (h: &ImageHash)
        ensures
            *h == self.hash_spec(),
    {
        &self.hash
    }

    /// The name.
    pub fn name(&self) -> (n: &'a str)
        ensures
            n@ == self.name_spec(),
    {
        self.name
    }

    /// The file path.
    pub fn file_path(&self) -> (p: &'a str)
        ensures
            p@ == self.file_path_spec(),
    {
        self.file_path
    }
}

} // verus!
