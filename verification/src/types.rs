//! Small value types shared by the image and tag records.
use vstd::prelude::*;

use jiff::Error as JiffError;

verus! {

/// A civil date and time, as `jiff` represents it.
#[verifier::external_type_specification]
#[verifier::external_body]
pub struct ExDateTime(jiff::civil::DateTime);

/// The hex-encoded SHA-256 digest that identifies an image.
#[derive(Debug, Clone, PartialEq, Eq, Hash)]
pub struct ImageHash(pub String);

impl ImageHash {
    /// The digest text.
    pub fn as_str(&self) -> (s: &str)
        ensures
            s@ == self.0@,
    {
        self.0.as_str()
    }
}

/// When a record was created.
#[derive(Debug, Clone, Copy)]
pub struct CreatedAt(pub jiff::civil::DateTime);

/// The date and time that `jiff` reads from `s` in the format `%Y-%m-%d %H:%M:%S` (the format
/// SQLite's `datetime()` writes), if it reads one.
pub uninterp spec fn civil_datetime_of(s: Seq<char>) -> Option<jiff::civil::DateTime>;

/// An error of `jiff`, such as a date and time that does not parse.
#[verifier::external_type_specification]
#[verifier::external_body]
pub struct ExJiffError(JiffError);

/// Reads `s` with `jiff::civil::DateTime::strptime("%Y-%m-%d %H:%M:%S", s)`: the date and time
/// it reads, or jiff's error when it reads none. Which error jiff gives is left unsaid.
#[verifier::external_body]
fn strptime_sqlite(s: &str) -> (r: Result<jiff::civil::DateTime, JiffError>)
    ensures
        match r {
            Ok(d) => civil_datetime_of(s@) == Some(d),
            Err(_) => civil_datetime_of(s@) is None,
        },
{
    jiff::civil::DateTime::strptime("%Y-%m-%d %H:%M:%S", s)
}

/// Why a stored record could not be read back.
#[derive(Debug)]
pub enum RecordError {
    /// A creation time that is not `%Y-%m-%d %H:%M:%S`: jiff's error.
    InvalidTimestamp(JiffError),
}

/// Reads a creation time as SQLite's `datetime()` writes it; when it does not read, the
/// error is jiff's.
pub fn parse_created_at(s: String) -> (r: Result<CreatedAt, RecordError>)
    ensures
        match civil_datetime_of(s@) {
            Some(d) => r == Ok::<CreatedAt, RecordError>(CreatedAt(d)),
            None => r is Err,
        },
{
    match strptime_sqlite(s.as_str()) {
        Ok(d) => Ok(CreatedAt(d)),
        Err(e) => Err(RecordError::InvalidTimestamp(e)),
    }
}

} // verus!
