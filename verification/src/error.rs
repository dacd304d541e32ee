//! The failures that the junction operations report themselves.
//!
//! Failures of the filesystem (a directory that already exists, a handle that
//! cannot be opened) never reach this library: whoever talks to the
//! filesystem hands them on as they came.

use vstd::prelude::*;

verus! {

/// Why a junction operation refused its input.
#[derive(Clone, Copy, Debug, PartialEq, Eq, Structural)]
pub enum JunctionError {
    /// The payload of the reparse data for the target would pass the largest
    /// payload.
    InputTooLong,
    /// Nothing stands at the junction's path.
    NotFound,
    /// The path exists, but what stands there is not a mount point.
    NotAJunction,
    /// The reparse data ends before, or points outside of, what it announces.
    Malformed,
}

impl JunctionError {
    /// The text of each failure.
    pub open spec fn message_spec(self) -> Seq<char> {
        match self {
            JunctionError::InputTooLong => "`target` is too long"@,
            JunctionError::NotFound => "`junction` does not exist"@,
            JunctionError::NotAJunction => "not a reparse tag mount point"@,
            JunctionError::Malformed => "reparse data is malformed"@,
        }
    }

    /// A short description of the failure, for display.
    pub fn message(&self) -> (text: String)
        ensures
            text@ == self.message_spec(),
    {
        match self {
            JunctionError::InputTooLong => "`target` is too long".to_owned(),
            JunctionError::NotFound => "`junction` does not exist".to_owned(),
            JunctionError::NotAJunction => "not a reparse tag mount point".to_owned(),
            JunctionError::Malformed => "reparse data is malformed".to_owned(),
        }
    }
}

/// A result that holds a vector, with the vector as the sequence of its
/// items: the form in which contracts say what such a result is.
pub open spec fn seen<T>(r: Result<Vec<T>, JunctionError>) -> Result<Seq<T>, JunctionError> {
    match r {
        Ok(items) => Ok(items@),
        Err(e) => Err(e),
    }
}

} // verus!
