//! The failures that an operation on the store can report.

use vstd::prelude::*;

verus! {

/// Why an operation on the store did not take place.
///
/// Every failure is scoped to the one operation that reports it.
#[derive(Clone, Copy, Debug, PartialEq, Eq, Structural)]
pub enum DbError {
    /// The underlying storage could not be read or written.
    Io,
    /// The stored content does not parse into a persisted state.
    Decode,
    /// The identifier counter has reached the largest identifier.
    IdsExhausted,
    /// No epic is stored under this identifier.
    EpicNotFound { epic_id: u32 },
    /// No story is stored under this identifier.
    StoryNotFound { story_id: u32 },
    /// The story is not listed among the stories of this epic.
    StoryNotLinked { epic_id: u32, story_id: u32 },
}

impl DbError {
    /// Whether the failure comes from the storage itself, not from a rule
    /// of the store.
    pub open spec fn spec_is_storage_failure(self) -> bool {
        self is Io || self is Decode
    }

    /// Whether the failure comes from the storage itself, not from a rule
    /// of the store.
    #[verifier::when_used_as_spec(spec_is_storage_failure)]
    pub fn is_storage_failure(self) -> (b: bool)
        ensures
            b == self.spec_is_storage_failure(),
    {
        match self {
            DbError::Io => true,
            DbError::Decode => true,
            _ => false,
        }
    }
}

} // verus!
