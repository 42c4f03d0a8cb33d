use vstd::prelude::*;

verus! {

/// Every way a store operation can fail.
#[derive(Debug, Clone, Copy, PartialEq, Eq, Structural)]
pub enum ShortyError {
    /// The requested identifier belongs to a link that is still valid.
    LinkConflict,
    /// The destination is longer than the configured maximum.
    LinkExceedsMaxLength,
    /// The custom identifier is longer than the configured maximum.
    CustomIDExceedsMaxLength,
    /// The destination is empty.
    LinkEmpty,
    /// No free identifier was found within the retry budget.
    RandomIDMaxRetriesExceeded,
}

/// The HTTP status that reports an error: 409 for a taken identifier, 400 for
/// a rejected request, 500 for an internal failure.
pub open spec fn status_of(e: ShortyError) -> u16 {
    match e {
        ShortyError::LinkConflict => 409,
        ShortyError::LinkExceedsMaxLength => 400,
        ShortyError::CustomIDExceedsMaxLength => 400,
        ShortyError::LinkEmpty => 400,
        ShortyError::RandomIDMaxRetriesExceeded => 500,
    }
}

impl ShortyError {
    /// The HTTP status code that reports this error.
    pub fn status_code(&self) -> (r: u16)
        ensures
            r == status_of(*self),
    {
        match self {
            ShortyError::LinkConflict => 409,
            ShortyError::LinkExceedsMaxLength
            | ShortyError::LinkEmpty
            | ShortyError::CustomIDExceedsMaxLength => 400,
            ShortyError::RandomIDMaxRetriesExceeded => 500,
        }
    }
}

} // verus!
