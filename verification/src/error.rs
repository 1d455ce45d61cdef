//! The pipeline's error taxonomy.

use vstd::prelude::*;

verus! {

/// The container attribute that a failed extraction was missing.
#[derive(Clone, Copy, PartialEq, Eq, Structural, Debug)]
pub enum Field {
    Title,
    Image,
}

/// Everything that can go wrong in the pipeline.
///
/// Errors propagate to the caller unmodified: the core never retries and
/// never recovers, except for the title fallback, which is not an error.
#[derive(Clone, Copy, PartialEq, Eq, Structural, Debug)]
pub enum FeedError {
    /// A fetch answered with a status outside the 2xx range.
    HttpStatus(u16),
    /// The comic container element is absent from the page.
    NotFound,
    /// The page answered with a strip for a different date than requested.
    DateMismatch,
    /// The container element lacks the named attribute.
    MissingField(Field),
    /// The object store's transport failed on a read or write.
    Storage,
    /// The feed document could not be serialized.
    Serialization,
    /// A calendar date is malformed or outside the supported range.
    InvalidDate,
}

impl FeedError {
    /// A short human-readable description of the error.
    pub fn message(&self) -> (r: &'static str)
        ensures
            r@ == self.message_spec(),
    {
        match self {
            FeedError::HttpStatus(_) => "HTTP status not 2xx",
            FeedError::NotFound => "comic metadata not found",
            FeedError::DateMismatch => "no comic found for date",
            FeedError::MissingField(Field::Title) => "title not found",
            FeedError::MissingField(Field::Image) => "image URL not found",
            FeedError::Storage => "storage transport failure",
            FeedError::Serialization => "feed serialization failure",
            FeedError::InvalidDate => "invalid date",
        }
    }

    pub open spec fn message_spec(&self) -> Seq<char> {
        match self {
            FeedError::HttpStatus(_) => "HTTP status not 2xx"@,
            FeedError::NotFound => "comic metadata not found"@,
            FeedError::DateMismatch => "no comic found for date"@,
            FeedError::MissingField(Field::Title) => "title not found"@,
            FeedError::MissingField(Field::Image) => "image URL not found"@,
            FeedError::Storage => "storage transport failure"@,
            FeedError::Serialization => "feed serialization failure"@,
            FeedError::InvalidDate => "invalid date"@,
        }
    }
}

} // verus!
