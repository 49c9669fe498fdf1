use vstd::prelude::*;

verus! {

/// The ways a run of the viewer can fail.  Every error is terminal for the
/// run: nothing is caught or retried, the caller prints a message and exits
/// with a non-zero code.
#[derive(Debug, Clone)]
pub enum ProgramError {
    /// No positional target path was given on the command line.
    NoTargetProvided,
    /// The target path does not exist on the filesystem.
    TargetNotFound { path: String },
    /// The target path refers to a directory, not a regular file.
    TargetNotRegularFile { path: String },
    /// Canonicalization, file reading or terminal control failed; the
    /// underlying cause is carried as text.
    IOError { message: String },
}

} // verus!
