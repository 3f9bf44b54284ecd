//! The error type for history-type operations.
use vstd::prelude::*;

verus! {

/// The error type for history-type operations.
#[derive(Debug, Clone, Copy, PartialEq, Eq, Structural)]
#[non_exhaustive]
pub enum Error {
    /// There is no applicable history available for this operation.
    NoApplicableHistory,
    /// There is no queued operation available to apply.
    NoQueuedOperations,
}

impl Error {
    /// The text that describes this error.
    pub open spec fn text(self) -> Seq<char> {
        match self {
            Error::NoApplicableHistory => {
                "No applicable history available to perform this operation"@
            },
            Error::NoQueuedOperations => "No operation available to apply"@,
        }
    }

    /// Returns a description of this error for a reader.
    pub fn message(&self) -> (message: String)
        ensures
            message@ == self.text(),
    {
        let msg = match self {
            Self::NoApplicableHistory => {
                "No applicable history available to perform this operation"
            },
            Self::NoQueuedOperations => "No operation available to apply",
        };
        msg.to_owned()
    }
}

} // verus!
