//! The ways a single invocation of the file-open command can fail.

use vstd::prelude::*;

verus! {

/// A terminal failure of one invocation of the command.
///
/// Every failure is reported synchronously to the caller as a descriptive
/// string; nothing is retried, and no failure is fatal to the process.
#[derive(Debug, PartialEq, Eq)]
pub enum FileOpenError {
    /// The user dismissed the dialog without choosing a file.
    NoSelection,
    /// The selected item could not be converted into a usable filesystem path.
    PathResolutionFailure,
    /// The filesystem read failed; the payload is the underlying error's
    /// textual description.
    ReadFailure(String),
}

impl FileOpenError {
    /// The descriptive string that stands for this failure.
    ///
    /// A `ReadFailure` carries the underlying I/O error's description
    /// through unchanged.
    pub open spec fn message_spec(&self) -> Seq<char> {
        match self {
            FileOpenError::NoSelection => "no file was selected"@,
            FileOpenError::PathResolutionFailure => "the selection could not be resolved to a path"@,
            FileOpenError::ReadFailure(description) => description@,
        }
    }

    /// The human-readable description of this failure, as handed to the caller.
    pub fn message(&self) -> (r: String)
        ensures
            r@ == self.message_spec(),
    {
        match self {
            FileOpenError::NoSelection => "no file was selected".to_owned(),
            FileOpenError::PathResolutionFailure => "the selection could not be resolved to a path".to_owned(),
            FileOpenError::ReadFailure(description) => description.clone(),
        }
    }
}

} // verus!
