//! Where downscaled copies of images are kept, so the browser loads them quickly.
use vstd::prelude::*;

use crate::paths::{path_join, path_join_of};

verus! {

/// The widest a cached copy is.
pub const MAX_WIDTH: u32 = 1000;

/// The highest a cached copy is.
pub const MAX_HEIGHT: u32 = 1000;

/// A directory of downscaled JPEG copies, one per image hash.
#[derive(Debug, Clone)]
pub struct ImageCache {
    cache_dir: String,
}

/// The file name of the cached copy of the image with hash `hash`.
pub open spec fn cache_file_name(hash: Seq<char>) -> Seq<char> {
    hash + ".jpg"@
}

impl ImageCache {
    /// The directory of the cache.
    pub closed spec fn dir(&self) -> Seq<char> {
        self.cache_dir@
    }

    /// A cache kept in the directory `cache_dir` (which the caller creates).
    pub fn new(cache_dir: String) -> (c: ImageCache)
        ensures
            c.dir() == cache_dir@,
    {
        ImageCache { cache_dir }
    }

    /// The directory of the cache.
    pub fn cache_dir(&self) -> (s: &str)
        ensures
            s@ == self.dir(),
    {
        self.cache_dir.as_str()
    }

    /// Where the cached copy of the image with hash `hash` is: `<hash>.jpg` in the directory.
    pub fn cache_path(&self, hash: &str) -> (p: String)
        ensures
            p@ == path_join_of(self.dir(), cache_file_name(hash@)),
    {
        let mut name = String::from_str(hash);
        name.append(".jpg");
        path_join(self.cache_dir.as_str(), name.as_str())
    }
}

} // verus!
