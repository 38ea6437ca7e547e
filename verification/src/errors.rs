use vstd::prelude::*;

verus! {

/// Everything a conversion run can report as a failure.
///
/// `InvalidConfiguration` aborts the whole run before any traversal starts.
/// `Enumeration` is fatal to one subtree only. The remaining kinds abort a
/// single file's conversion and leave siblings untouched. A budget rejection
/// is deliberately not an error: it is an ordinary skip.
#[derive(Clone, Copy, Debug, PartialEq, Eq, Structural)]
pub enum RunError {
    /// Input and output paths are the same, or one is a file and the other a directory.
    InvalidConfiguration,
    /// A directory could not be listed.
    Enumeration,
    /// An input file could not be opened or fully read.
    Read,
    /// The output container could not be created.
    SinkCreation,
    /// Writing one sample to the container failed.
    SinkWrite,
    /// Closing the finished container failed.
    Finalize,
}

impl RunError {
    /// Whether this failure must abort the whole run rather than one unit of work.
    pub open spec fn aborts_run(self) -> bool {
        self is InvalidConfiguration
    }

    /// Run-fatal errors are exactly the configuration errors.
    pub fn is_run_fatal(&self) -> (fatal: bool)
        ensures
            fatal == self.aborts_run(),
    {
        match self {
            RunError::InvalidConfiguration => true,
            _ => false,
        }
    }
}

} // verus!
