use vstd::prelude::*;
use crate::errors::IssueError;
use crate::records::DISCRIMINATOR_LEN;
use crate::records::byte_len;
use crate::records::spec_byte_len;

verus! {

/// Maximum byte length of a poll description.
pub const DESCRIPTION_MAX_LEN: usize = 280;

/// A sibling record shape persisted by a neighboring voting program: a
/// flat counter/window record with a bounded description and no
/// algorithmic behavior. It takes no part in the issuance flow.
pub struct Poll {
    pub id: u64,
    pub description: String,
    pub start: u64,
    pub end: u64,
    pub candidates: u64,
}

impl Poll {
    /// The description is within its bound.
    pub open spec fn wf(&self) -> bool {
        spec_byte_len(self.description@) <= DESCRIPTION_MAX_LEN
    }

    /// Builds a poll record; an over-long description is rejected.
    pub fn new(id: u64, description: String, start: u64, end: u64, candidates: u64) -> (r: Result<
        Poll,
        IssueError,
    >)
        ensures
            spec_byte_len(description@) <= DESCRIPTION_MAX_LEN ==> (r matches Ok(p) && p.id == id
                && p.description@ == description@ && p.start == start && p.end == end
                && p.candidates == candidates && p.wf()),
            spec_byte_len(description@) > DESCRIPTION_MAX_LEN ==> r == Err::<Poll, IssueError>(
                IssueError::FieldTooLong,
            ),
    {
        if byte_len(&description) > DESCRIPTION_MAX_LEN {
            return Err(IssueError::FieldTooLong);
        }
        Ok(Poll { id, description, start, end, candidates })
    }

    /// Serialized capacity of a poll record: the discriminator, `id`, the
    /// length-prefixed description buffer, `start`, `end`, `candidates`.
    pub fn capacity() -> (r: u64)
        ensures
            r == DISCRIMINATOR_LEN + 8 + (4 + DESCRIPTION_MAX_LEN) + 8 + 8 + 8,
    {
        (DISCRIMINATOR_LEN as u64) + 8 + 4 + (DESCRIPTION_MAX_LEN as u64) + 8 + 8 + 8
    }
}

} // verus!
