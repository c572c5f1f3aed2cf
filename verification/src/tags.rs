//! Tags attached to images.
use vstd::prelude::*;

use crate::types::{CreatedAt, ImageHash};

verus! {

/// A stored tag of an image.
#[derive(Debug, Clone)]
pub struct Tag {
    pub id: i64,
    pub image_hash: ImageHash,
    pub tag: String,
    pub created_at: CreatedAt,
}

/// A tag about to be stored.
#[derive(Debug)]
pub struct NewTag<'a> {
    image_hash: &'a ImageHash,
    tag: &'a str,
}

impl<'a> NewTag<'a> {
    /// The image the tag is for.
    pub closed spec fn hash_spec(&self) -> ImageHash {
        *self.image_hash
    }

    /// The tag text.
    pub closed spec fn tag_spec(&self) -> Seq<char> {
        self.tag@
    }

    /// The tag `tag` for the image with hash `image_hash`.
    pub fn new(image_hash: &'a ImageHash, tag: &'a str) -> (t: Self)
        ensures
            t.hash_spec() == *image_hash,
            t.tag_spec() == tag@,
    {
        Self { image_hash, tag }
    }

    /// The image the tag is for.
    pub fn image_hash(&self) -> (h: &'a ImageHash)
        ensures
            *h == self.hash_spec(),
    {
        self.image_hash
    }

    /// The tag text.
    pub fn tag(&self) -> (t: &'a str)
        ensures
            t@ == self.tag_spec(),
    {
        self.tag
    }
}

} // verus!
